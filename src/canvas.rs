use vstd::prelude::*;

use std::collections::HashMap;

use crate::grid::{in_overlay, slot_of, CELL_COUNT};

verus! {

broadcast use vstd::std_specs::hash::group_hash_axioms;

/// Packed RGB value of white, the color of every cell at genesis.
pub const WHITE: u32 = 16777215;

/// Ownership record of a purchased cell.
#[derive(Clone, Debug)]
pub struct PixelData {
    pub owner: String,
    pub price: u64,
    pub message: String,
    pub for_sale: bool,
}

/// The color overlay: one packed RGB value per slot.
#[derive(Clone, Debug)]
pub struct CanvasState {
    pub colors: Vec<u32>,
}

/// Who created the canvas.
#[derive(Clone, Debug)]
pub struct State {
    pub owner: String,
}

/// Why an operation on the canvas failed.
#[derive(Clone, Copy, Debug, PartialEq, Eq, Structural)]
pub enum CanvasError {
    /// The cell has been purchased before.
    AlreadyExists,
    /// The cell has not been purchased.
    NotFound,
    /// The slot lies outside the color overlay.
    IndexOutOfRange,
}

impl CanvasError {
    /// Text of the error, as reported to callers.
    pub fn message(&self) -> (r: String)
        ensures
            r@ == error_text(*self),
    {
        match self {
            CanvasError::AlreadyExists => String::from_str("Generic error: Pixel data already exists"),
            CanvasError::NotFound => String::from_str("Generic error: Pixel data not found"),
            CanvasError::IndexOutOfRange => String::from_str("Generic error: Index out of range"),
        }
    }
}

pub open spec fn error_text(e: CanvasError) -> Seq<char> {
    match e {
        CanvasError::AlreadyExists => "Generic error: Pixel data already exists"@,
        CanvasError::NotFound => "Generic error: Pixel data not found"@,
        CanvasError::IndexOutOfRange => "Generic error: Index out of range"@,
    }
}

/// The 25 colors of a fresh canvas.
pub open spec fn white_overlay() -> Seq<u32> {
    Seq::new(CELL_COUNT as nat, |i: int| WHITE)
}

impl CanvasState {
    /// A fresh overlay: every slot white.
    pub fn initialize() -> (r: CanvasState)
        ensures
            r.colors@ == white_overlay(),
    {
        let mut colors: Vec<u32> = Vec::new();
        let mut i: u32 = 0;
        while i < CELL_COUNT
            invariant
                i <= CELL_COUNT,
                colors@ == Seq::new(i as nat, |k: int| WHITE),
            decreases CELL_COUNT - i,
        {
            colors.push(WHITE);
            i = i + 1;
        }
        assert(colors@ =~= white_overlay());
        CanvasState { colors }
    }

    /// All colors, in slot order.
    pub fn read_all(&self) -> (r: Vec<u32>)
        ensures
            r@ == self.colors@,
    {
        self.colors.clone()
    }

    /// Color at `slot`.
    pub fn read_one(&self, slot: u32) -> (r: Result<u32, CanvasError>)
        ensures
            r == (if slot < self.colors@.len() {
                Ok(self.colors@[slot as int])
            } else {
                Err(CanvasError::IndexOutOfRange)
            }),
    {
        if (slot as usize) < self.colors.len() {
            Ok(self.colors[slot as usize])
        } else {
            Err(CanvasError::IndexOutOfRange)
        }
    }

    /// Sets the color at `slot`; an error leaves the overlay as it was.
    pub fn write_one(&mut self, slot: u32, color: u32) -> (r: Result<(), CanvasError>)
        ensures
            slot < old(self).colors@.len() ==> r == Ok::<(), CanvasError>(()) && final(self).colors@
                == old(self).colors@.update(slot as int, color),
            slot >= old(self).colors@.len() ==> r == Err::<(), CanvasError>(
                CanvasError::IndexOutOfRange,
            ) && *final(self) == *old(self),
    {
        if (slot as usize) < self.colors.len() {
            self.colors.set(slot as usize, color);
            Ok(())
        } else {
            Err(CanvasError::IndexOutOfRange)
        }
    }
}

/// Abstract state of a canvas: its creator, the color of each slot, and the
/// ownership record of each purchased slot.
pub ghost struct CanvasView {
    pub owner: String,
    pub colors: Seq<u32>,
    pub pixels: Map<u32, PixelData>,
}

impl CanvasView {
    /// The overlay covers the grid exactly, and only slots of the grid are owned.
    pub open spec fn wf(&self) -> bool {
        &&& self.colors.len() == CELL_COUNT
        &&& forall|k: u32| #[trigger] self.pixels.contains_key(k) ==> k < CELL_COUNT
    }
}

/// The state that genesis by `owner` produces.
pub open spec fn genesis(owner: String) -> CanvasView {
    CanvasView { owner, colors: white_overlay(), pixels: Map::empty() }
}

/// What a purchase of `(x, y)` reports.
pub open spec fn buy_result(c: CanvasView, x: u32, y: u32) -> Result<(), CanvasError> {
    if !in_overlay(x, y) {
        Err(CanvasError::IndexOutOfRange)
    } else if c.pixels.contains_key(slot_of(x, y) as u32) {
        Err(CanvasError::AlreadyExists)
    } else {
        Ok(())
    }
}

/// The state after a purchase of `(x, y)`: unchanged unless the purchase succeeds.
pub open spec fn after_buy(
    c: CanvasView,
    buyer: String,
    x: u32,
    y: u32,
    color: u32,
    price: u64,
    for_sale: bool,
    message: String,
) -> CanvasView {
    if buy_result(c, x, y) is Ok {
        let slot = slot_of(x, y);
        CanvasView {
            owner: c.owner,
            colors: c.colors.update(slot, color),
            pixels: c.pixels.insert(
                slot as u32,
                PixelData { owner: buyer, price, message, for_sale },
            ),
        }
    } else {
        c
    }
}

/// What a color query on `(x, y)` returns.
pub open spec fn color_query(c: CanvasView, x: u32, y: u32) -> Result<u32, CanvasError> {
    if in_overlay(x, y) {
        Ok(c.colors[slot_of(x, y)])
    } else {
        Err(CanvasError::IndexOutOfRange)
    }
}

/// What a pixel query on `(x, y)` returns.
pub open spec fn pixel_query(c: CanvasView, x: u32, y: u32) -> Result<PixelData, CanvasError> {
    if in_overlay(x, y) && c.pixels.contains_key(slot_of(x, y) as u32) {
        Ok(c.pixels[slot_of(x, y) as u32])
    } else {
        Err(CanvasError::NotFound)
    }
}

/// A canvas: the color overlay and the pixel ledger, changed together.
pub struct Canvas {
    state: State,
    colors: CanvasState,
    pixels: HashMap<u32, PixelData>,
}

impl View for Canvas {
    type V = CanvasView;

    closed spec fn view(&self) -> CanvasView {
        CanvasView { owner: self.state.owner, colors: self.colors.colors@, pixels: self.pixels@ }
    }
}

/// Copy of a record, field by field.
fn copy_pixel(p: &PixelData) -> (r: PixelData)
    ensures
        r == *p,
{
    PixelData {
        owner: p.owner.clone(),
        price: p.price,
        message: p.message.clone(),
        for_sale: p.for_sale,
    }
}

impl Canvas {
    /// Genesis: every slot white, no cell purchased, `owner` recorded as creator.
    pub fn new(owner: String) -> (r: Canvas)
        ensures
            r@ == genesis(owner),
            r@.wf(),
    {
        let c = Canvas { state: State { owner }, colors: CanvasState::initialize(), pixels: HashMap::new() };
        assert(c@.pixels =~= Map::empty());
        c
    }

    /// Who created the canvas.
    pub fn owner(&self) -> (r: &String)
        ensures
            *r == self@.owner,
    {
        &self.state.owner
    }

    /// Stores `record` at `slot` unless a record is there already. Slots off the
    /// overlay are refused. The overlay is left as it is.
    pub fn insert_if_absent(&mut self, slot: u32, record: PixelData) -> (r: Result<(), CanvasError>)
        requires
            old(self)@.wf(),
        ensures
            final(self)@.wf(),
            r == (if slot >= CELL_COUNT {
                Err(CanvasError::IndexOutOfRange)
            } else if old(self)@.pixels.contains_key(slot) {
                Err(CanvasError::AlreadyExists)
            } else {
                Ok(())
            }),
            final(self)@ == (if r is Ok {
                CanvasView { pixels: old(self)@.pixels.insert(slot, record), ..old(self)@ }
            } else {
                old(self)@
            }),
    {
        if slot >= CELL_COUNT {
            return Err(CanvasError::IndexOutOfRange);
        }
        if self.pixels.contains_key(&slot) {
            return Err(CanvasError::AlreadyExists);
        }
        self.pixels.insert(slot, record);
        Ok(())
    }

    /// Sets the color at `slot` in the overlay; the ledger is left as it is.
    pub(crate) fn write_color(&mut self, slot: u32, color: u32) -> (r: Result<(), CanvasError>)
        requires
            old(self)@.wf(),
        ensures
            final(self)@.wf(),
            slot < CELL_COUNT ==> r == Ok::<(), CanvasError>(()) && final(self)@ == (CanvasView {
                colors: old(self)@.colors.update(slot as int, color),
                ..old(self)@
            }),
            slot >= CELL_COUNT ==> r == Err::<(), CanvasError>(CanvasError::IndexOutOfRange)
                && final(self)@ == old(self)@,
    {
        self.colors.write_one(slot, color)
    }

    /// A canvas made of a saved creator and overlay, with an empty ledger; `None`
    /// when the overlay does not cover the grid exactly.
    pub fn restore(owner: String, colors: CanvasState) -> (r: Option<Canvas>)
        ensures
            colors.colors@.len() == CELL_COUNT <==> (r is Some),
            r matches Some(c) ==> (c@ == (CanvasView {
                owner,
                colors: colors.colors@,
                pixels: Map::empty(),
            }) && c@.wf()),
    {
        if colors.colors.len() != CELL_COUNT as usize {
            return None;
        }
        let c = Canvas { state: State { owner }, colors, pixels: HashMap::new() };
        assert(c@.pixels =~= Map::empty());
        Some(c)
    }

    /// Color at `slot`.
    pub fn read_one(&self, slot: u32) -> (r: Result<u32, CanvasError>)
        ensures
            r == (if slot < self@.colors.len() {
                Ok(self@.colors[slot as int])
            } else {
                Err(CanvasError::IndexOutOfRange)
            }),
    {
        self.colors.read_one(slot)
    }

    /// All colors, in slot order.
    pub fn read_all(&self) -> (r: Vec<u32>)
        ensures
            r@ == self@.colors,
    {
        self.colors.read_all()
    }

    /// The record at `slot`.
    pub fn get(&self, slot: u32) -> (r: Result<PixelData, CanvasError>)
        ensures
            r == (if self@.pixels.contains_key(slot) {
                Ok(self@.pixels[slot])
            } else {
                Err(CanvasError::NotFound)
            }),
    {
        match self.pixels.get(&slot) {
            Some(p) => Ok(copy_pixel(p)),
            None => Err(CanvasError::NotFound),
        }
    }
}

} // verus!
