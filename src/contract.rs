use vstd::prelude::*;

use crate::canvas::{
    after_buy, buy_result, color_query, genesis, pixel_query, Canvas, CanvasError, CanvasView,
    PixelData,
};
use crate::grid::{overlay_slot, CELL_COUNT};
use crate::msg::{ColorsResponse, ExecuteMsg, InstantiateMsg, PixelResponse, QueryMsg, QueryResponse};

verus! {

/// `r` is what a query `msg` on `c` returns: a pixel query fails as the color
/// query or else as the ledger lookup fails; a colors query always succeeds.
pub open spec fn query_answers(c: CanvasView, msg: QueryMsg, r: Result<QueryResponse, CanvasError>) -> bool {
    match msg {
        QueryMsg::GetPixel { x, y } => match color_query(c, x, y) {
            Err(e) => r == Err::<QueryResponse, CanvasError>(e),
            Ok(color) => match pixel_query(c, x, y) {
                Err(e) => r == Err::<QueryResponse, CanvasError>(e),
                Ok(pixel_data) => r == Ok::<QueryResponse, CanvasError>(
                    QueryResponse::Pixel(PixelResponse { x, y, color, pixel_data }),
                ),
            },
        },
        QueryMsg::GetColors {} => match r {
            Ok(QueryResponse::Colors(resp)) => resp.colors@ == c.colors,
            _ => false,
        },
    }
}

/// Creates the canvas, with `sender` as its creator.
pub fn instantiate(sender: String, _msg: InstantiateMsg) -> (r: Canvas)
    ensures
        r@ == genesis(sender),
        r@.wf(),
{
    Canvas::new(sender)
}

/// Runs a message that changes the canvas, sent by `sender`.
pub fn execute(canvas: &mut Canvas, sender: String, msg: ExecuteMsg) -> (r: Result<(), CanvasError>)
    requires
        old(canvas)@.wf(),
    ensures
        final(canvas)@.wf(),
        match msg {
            ExecuteMsg::BuyPixel { x, y, color, price, for_sale, message } => {
                &&& r == buy_result(old(canvas)@, x, y)
                &&& final(canvas)@ == after_buy(
                    old(canvas)@,
                    sender,
                    x,
                    y,
                    color,
                    price,
                    for_sale,
                    message,
                )
            },
        },
{
    match msg {
        ExecuteMsg::BuyPixel { x, y, color, price, for_sale, message } => try_buy(
            canvas,
            sender,
            x,
            y,
            color,
            price,
            for_sale,
            message,
        ),
    }
}

/// Purchases cell `(x, y)` for `sender`. Either the cell was unpurchased and
/// both the ledger and the overlay change, or the call fails and nothing does.
pub fn try_buy(
    canvas: &mut Canvas,
    sender: String,
    x: u32,
    y: u32,
    color: u32,
    price: u64,
    for_sale: bool,
    message: String,
) -> (r: Result<(), CanvasError>)
    requires
        old(canvas)@.wf(),
    ensures
        final(canvas)@.wf(),
        r == buy_result(old(canvas)@, x, y),
        final(canvas)@ == after_buy(old(canvas)@, sender, x, y, color, price, for_sale, message),
{
    let slot = match overlay_slot(x, y) {
        Some(slot) => slot,
        None => return Err(CanvasError::IndexOutOfRange),
    };
    let ghost buyer = sender;
    let ghost text = message;
    let record = PixelData { owner: sender, price, message, for_sale };
    match canvas.insert_if_absent(slot, record) {
        Err(e) => Err(e),
        Ok(()) => {
            let written = canvas.write_color(slot, color);
            assert(written is Ok);
            assert(canvas@ == after_buy(old(canvas)@, buyer, x, y, color, price, for_sale, text));
            Ok(())
        },
    }
}

/// Color of cell `(x, y)`.
pub fn get_color(canvas: &Canvas, x: u32, y: u32) -> (r: Result<u32, CanvasError>)
    requires
        canvas@.wf(),
    ensures
        r == color_query(canvas@, x, y),
{
    match overlay_slot(x, y) {
        Some(slot) => canvas.read_one(slot),
        None => Err(CanvasError::IndexOutOfRange),
    }
}

/// Ownership record of cell `(x, y)`; `NotFound` when it was never purchased.
pub fn get_pixel(canvas: &Canvas, x: u32, y: u32) -> (r: Result<PixelData, CanvasError>)
    requires
        canvas@.wf(),
    ensures
        r == pixel_query(canvas@, x, y),
{
    match overlay_slot(x, y) {
        Some(slot) => canvas.get(slot),
        None => Err(CanvasError::NotFound),
    }
}

/// Colors of all cells, in slot order.
pub fn get_colors(canvas: &Canvas) -> (r: Vec<u32>)
    requires
        canvas@.wf(),
    ensures
        r@ == canvas@.colors,
        r@.len() == CELL_COUNT,
{
    canvas.read_all()
}

/// Answers a query on the canvas.
pub fn query(canvas: &Canvas, msg: QueryMsg) -> (r: Result<QueryResponse, CanvasError>)
    requires
        canvas@.wf(),
    ensures
        query_answers(canvas@, msg, r),
{
    match msg {
        QueryMsg::GetPixel { x, y } => {
            let color = match get_color(canvas, x, y) {
                Ok(color) => color,
                Err(e) => return Err(e),
            };
            let pixel_data = match get_pixel(canvas, x, y) {
                Ok(p) => p,
                Err(e) => return Err(e),
            };
            Ok(QueryResponse::Pixel(PixelResponse { x, y, color, pixel_data }))
        },
        QueryMsg::GetColors {} => Ok(QueryResponse::Colors(ColorsResponse { colors: get_colors(canvas) })),
    }
}

} // verus!
