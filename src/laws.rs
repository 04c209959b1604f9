use vstd::prelude::*;

use crate::canvas::{
    after_buy, buy_result, color_query, genesis, pixel_query, CanvasError, CanvasView, PixelData,
};
use crate::grid::{on_grid, slot_of, CELL_COUNT, COL_PIXELS};

verus! {

/// Distinct cells of the grid have distinct slots, every cell's slot lies in
/// `[0, 25)`, and every slot `s` of `[0, 25)` is that of cell
/// `(s % 5, s / 5)`.
pub proof fn lemma_index_bijective()
    ensures
        forall|x1: u32, y1: u32, x2: u32, y2: u32|
            on_grid(x1, y1) && on_grid(x2, y2) && #[trigger] slot_of(x1, y1) == #[trigger] slot_of(
                x2,
                y2,
            ) ==> x1 == x2 && y1 == y2,
        forall|x: u32, y: u32| on_grid(x, y) ==> 0 <= #[trigger] slot_of(x, y) < CELL_COUNT,
        forall|s: u32|
            s < CELL_COUNT ==> on_grid(s % COL_PIXELS, s / COL_PIXELS) && #[trigger] slot_of(
                s % COL_PIXELS,
                s / COL_PIXELS,
            ) == s,
{
}

/// Genesis leaves every slot white and the ledger empty, and is well formed.
pub proof fn lemma_genesis(owner: String)
    ensures
        genesis(owner).wf(),
        genesis(owner).colors.len() == CELL_COUNT,
        forall|i: int| 0 <= i < CELL_COUNT ==> genesis(owner).colors[i] == crate::canvas::WHITE,
        genesis(owner).pixels.is_empty(),
{
    assert(genesis(owner).pixels.dom() =~= Set::empty());
}

/// A purchase, successful or not, keeps the canvas well formed; so the overlay
/// of every state reached from genesis holds exactly 25 colors.
pub proof fn lemma_buy_preserves_wf(
    c: CanvasView,
    buyer: String,
    x: u32,
    y: u32,
    color: u32,
    price: u64,
    for_sale: bool,
    message: String,
)
    requires
        c.wf(),
    ensures
        after_buy(c, buyer, x, y, color, price, for_sale, message).wf(),
        after_buy(c, buyer, x, y, color, price, for_sale, message).colors.len() == CELL_COUNT,
{
}

/// After a successful purchase of `(x, y)` the cell shows the submitted color
/// and holds the buyer's record; every other slot keeps its color and record.
pub proof fn lemma_buy_then_query(
    c: CanvasView,
    buyer: String,
    x: u32,
    y: u32,
    color: u32,
    price: u64,
    for_sale: bool,
    message: String,
)
    requires
        c.wf(),
        buy_result(c, x, y) is Ok,
    ensures
        ({
            let d = after_buy(c, buyer, x, y, color, price, for_sale, message);
            &&& color_query(d, x, y) == Ok::<u32, CanvasError>(color)
            &&& pixel_query(d, x, y) == Ok::<PixelData, CanvasError>(
                PixelData { owner: buyer, price, message, for_sale },
            )
            &&& forall|s: int|
                0 <= s < CELL_COUNT && s != slot_of(x, y) ==> #[trigger] d.colors[s] == c.colors[s]
            &&& forall|k: u32| k != slot_of(x, y) ==> #[trigger] d.pixels.contains_key(k) == c.pixels.contains_key(k)
                && (c.pixels.contains_key(k) ==> d.pixels[k] == c.pixels[k])
        }),
{
}

/// Once `(x, y)` has been purchased, any later purchase of it, whatever its
/// values, fails with `AlreadyExists` and changes neither the cell's color
/// nor its record.
pub proof fn lemma_second_buy_fails(
    c: CanvasView,
    buyer: String,
    x: u32,
    y: u32,
    color: u32,
    price: u64,
    for_sale: bool,
    message: String,
    buyer2: String,
    color2: u32,
    price2: u64,
    for_sale2: bool,
    message2: String,
)
    requires
        c.wf(),
        buy_result(c, x, y) is Ok,
    ensures
        ({
            let d = after_buy(c, buyer, x, y, color, price, for_sale, message);
            let e = after_buy(d, buyer2, x, y, color2, price2, for_sale2, message2);
            &&& buy_result(d, x, y) == Err::<(), CanvasError>(CanvasError::AlreadyExists)
            &&& color_query(e, x, y) == color_query(d, x, y)
            &&& pixel_query(e, x, y) == pixel_query(d, x, y)
            &&& e == d
        }),
{
}

} // verus!
