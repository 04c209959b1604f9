use vstd::prelude::*;

use crate::canvas::PixelData;

verus! {

/// Message that creates a canvas; it carries no parameters.
#[derive(Clone, Debug)]
pub struct InstantiateMsg {}

/// Messages that change the canvas.
#[derive(Clone, Debug)]
pub enum ExecuteMsg {
    BuyPixel { x: u32, y: u32, color: u32, price: u64, for_sale: bool, message: String },
}

/// Messages that read the canvas.
#[derive(Clone, Debug)]
pub enum QueryMsg {
    /// The color and the ownership record of one cell.
    GetPixel { x: u32, y: u32 },
    /// The colors of all cells.
    GetColors {},
}

/// Answer to `QueryMsg::GetPixel`.
#[derive(Clone, Debug)]
pub struct PixelResponse {
    pub x: u32,
    pub y: u32,
    pub color: u32,
    pub pixel_data: PixelData,
}

/// Answer to `QueryMsg::GetColors`.
#[derive(Clone, Debug)]
pub struct ColorsResponse {
    pub colors: Vec<u32>,
}

/// Answer to any query.
#[derive(Clone, Debug)]
pub enum QueryResponse {
    Pixel(PixelResponse),
    Colors(ColorsResponse),
}

} // verus!
