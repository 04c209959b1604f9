use canvas::canvas::{Canvas, CanvasError, CanvasState, PixelData, WHITE};
use canvas::contract::{execute, get_color, get_colors, get_pixel, instantiate, query, try_buy};
use canvas::grid::get_index_from_coords;
use canvas::msg::{ExecuteMsg, InstantiateMsg, QueryMsg, QueryResponse};

const MILLION: u64 = 1000000;

fn instantiate_contract() -> Canvas {
    instantiate(String::from("creator"), InstantiateMsg {})
}

fn colors_of(c: &Canvas) -> Vec<u32> {
    match query(c, QueryMsg::GetColors {}) {
        Ok(QueryResponse::Colors(r)) => r.colors,
        _ => panic!("colors query failed"),
    }
}

fn buy_msg(x: u32, y: u32, color: u32) -> ExecuteMsg {
    ExecuteMsg::BuyPixel {
        x,
        y,
        color,
        price: 100 * MILLION,
        for_sale: false,
        message: String::from("Hello, world!"),
    }
}

#[test]
fn get_index_from_coords_test() {
    assert_eq!(0, get_index_from_coords(0, 0));
    assert_eq!(9, get_index_from_coords(4, 1));
}

#[test]
fn initialization_test() {
    let c = instantiate(String::from("creator"), InstantiateMsg {});
    assert_eq!(c.owner(), "creator");
    let colors = colors_of(&c);
    assert_eq!(16777215, colors[0]);
}

#[test]
fn buy_pixel_test() {
    let mut c = instantiate_contract();
    let colors = colors_of(&c);
    assert_eq!(16777215, colors[0]);

    let res = execute(&mut c, String::from("buyer"), buy_msg(0, 0, 5));
    assert!(res.is_ok());

    match query(&c, QueryMsg::GetPixel { x: 0, y: 0 }) {
        Ok(QueryResponse::Pixel(p)) => {
            assert_eq!(5, p.color);
            assert_eq!(100 * MILLION, p.pixel_data.price);
        }
        _ => panic!("pixel query failed"),
    }

    let err = execute(&mut c, String::from("buyer"), buy_msg(0, 0, 5)).unwrap_err();
    assert_eq!("Generic error: Pixel data already exists", err.message());

    let colors = colors_of(&c);
    assert_eq!(5, colors[0]);
    assert_eq!(25, colors.len());
}

#[test]
fn index_covers_grid_once() {
    let mut seen = vec![false; 25];
    for y in 0..5u32 {
        for x in 0..5u32 {
            let s = get_index_from_coords(x, y) as usize;
            assert!(s < 25);
            assert!(!seen[s]);
            seen[s] = true;
        }
    }
    assert!(seen.iter().all(|b| *b));
    assert_eq!(24, get_index_from_coords(4, 4));
    assert_eq!(5, get_index_from_coords(0, 1));
}

#[test]
fn genesis_is_white_and_unowned() {
    let c = instantiate_contract();
    let colors = get_colors(&c);
    assert_eq!(25, colors.len());
    assert!(colors.iter().all(|v| *v == WHITE));
    for y in 0..5u32 {
        for x in 0..5u32 {
            assert_eq!(Err(CanvasError::NotFound), get_pixel(&c, x, y).map(|p| p.price));
        }
    }
}

#[test]
fn purchase_then_queries() {
    let mut c = instantiate_contract();
    let r = try_buy(&mut c, String::from("alice"), 2, 3, 0x123456, 42, true, String::from("hi"));
    assert_eq!(Ok(()), r);
    assert_eq!(Ok(0x123456), get_color(&c, 2, 3));
    let p = get_pixel(&c, 2, 3).unwrap();
    assert_eq!("alice", p.owner);
    assert_eq!(42, p.price);
    assert!(p.for_sale);
    assert_eq!("hi", p.message);
}

#[test]
fn second_purchase_changes_nothing() {
    let mut c = instantiate_contract();
    try_buy(&mut c, String::from("alice"), 1, 1, 7, 10, false, String::from("first")).unwrap();
    let r = try_buy(&mut c, String::from("bob"), 1, 1, 8, 20, true, String::from("second"));
    assert_eq!(Err(CanvasError::AlreadyExists), r);
    assert_eq!(Ok(7), get_color(&c, 1, 1));
    let p = get_pixel(&c, 1, 1).unwrap();
    assert_eq!("alice", p.owner);
    assert_eq!(10, p.price);
    assert!(!p.for_sale);
    assert_eq!("first", p.message);
}

#[test]
fn colors_length_stays_25() {
    let mut c = instantiate_contract();
    for s in 0..25u32 {
        let _ = try_buy(&mut c, String::from("b"), s % 5, s / 5, s, 1, false, String::new());
        let _ = try_buy(&mut c, String::from("b"), s % 5, s / 5, 99, 1, false, String::new());
        assert_eq!(25, get_colors(&c).len());
    }
    let _ = try_buy(&mut c, String::from("b"), 9, 9, 1, 1, false, String::new());
    assert_eq!(25, get_colors(&c).len());
    assert_eq!((0..25u32).collect::<Vec<u32>>(), get_colors(&c));
}

#[test]
fn genesis_first_color_is_white() {
    let c = instantiate_contract();
    assert_eq!(16777215, get_colors(&c)[0]);
}

#[test]
fn hello_world_purchase_at_origin() {
    let mut c = instantiate_contract();
    let r = try_buy(&mut c, String::from("buyer"), 0, 0, 5, 100000000, false, String::from("Hello, world!"));
    assert_eq!(Ok(()), r);
    assert_eq!(Ok(5), get_color(&c, 0, 0));
    let p = get_pixel(&c, 0, 0).unwrap();
    assert_eq!("Hello, world!", p.message);
    let again = try_buy(&mut c, String::from("buyer"), 0, 0, 5, 100000000, false, String::from("Hello, world!"));
    assert_eq!(Err(CanvasError::AlreadyExists), again);
    assert_eq!(5, get_colors(&c)[0]);
}

#[test]
fn purchase_at_four_one_uses_slot_nine() {
    let mut c = instantiate_contract();
    assert_eq!(9, get_index_from_coords(4, 1));
    try_buy(&mut c, String::from("buyer"), 4, 1, 77, 3, false, String::from("m")).unwrap();
    assert_eq!("buyer", c.get(9).unwrap().owner);
    let colors = get_colors(&c);
    for (i, v) in colors.iter().enumerate() {
        if i == 9 {
            assert_eq!(77, *v);
        } else {
            assert_eq!(WHITE, *v);
        }
    }
    assert_eq!(Err(CanvasError::NotFound), c.get(8).map(|p| p.price));
}

#[test]
fn off_grid_purchase_is_out_of_range() {
    let mut c = instantiate_contract();
    let r = try_buy(&mut c, String::from("b"), 0, 5, 1, 1, false, String::new());
    assert_eq!(Err(CanvasError::IndexOutOfRange), r);
    let r = try_buy(&mut c, String::from("b"), u32::MAX, u32::MAX, 1, 1, false, String::new());
    assert_eq!(Err(CanvasError::IndexOutOfRange), r);
    assert!(get_colors(&c).iter().all(|v| *v == WHITE));
    assert_eq!(Err(CanvasError::IndexOutOfRange), get_color(&c, 25, 0));
    assert_eq!(Err(CanvasError::NotFound), get_pixel(&c, 0, 7).map(|p| p.price));
    assert_eq!("Generic error: Index out of range", CanvasError::IndexOutOfRange.message());
}

#[test]
fn unpadded_coordinates_address_the_row_major_slot() {
    let mut c = instantiate_contract();
    try_buy(&mut c, String::from("b"), 7, 0, 3, 1, false, String::new()).unwrap();
    assert_eq!(Ok(3), get_color(&c, 2, 1));
    assert_eq!("b", get_pixel(&c, 2, 1).unwrap().owner);
}

#[test]
fn pixel_query_on_unpurchased_cell_is_not_found() {
    let c = instantiate_contract();
    match query(&c, QueryMsg::GetPixel { x: 3, y: 3 }) {
        Err(e) => {
            assert_eq!(CanvasError::NotFound, e);
            assert_eq!("Generic error: Pixel data not found", e.message());
        }
        Ok(_) => panic!("expected an error"),
    }
    match query(&c, QueryMsg::GetPixel { x: 30, y: 0 }) {
        Err(e) => assert_eq!(CanvasError::IndexOutOfRange, e),
        Ok(_) => panic!("expected an error"),
    }
}

#[test]
fn overlay_reads_and_writes() {
    let mut o = CanvasState::initialize();
    assert_eq!(25, o.read_all().len());
    assert_eq!(Ok(()), o.write_one(3, 11));
    assert_eq!(Ok(11), o.read_one(3));
    assert_eq!(Err(CanvasError::IndexOutOfRange), o.write_one(25, 1));
    assert_eq!(Err(CanvasError::IndexOutOfRange), o.read_one(25));
    assert_eq!(WHITE, o.read_all()[4]);
}

#[test]
fn restore_and_ledger_insert() {
    assert!(Canvas::restore(String::from("o"), CanvasState { colors: vec![1, 2] }).is_none());
    let mut c = Canvas::restore(String::from("o"), CanvasState { colors: vec![6; 25] }).unwrap();
    assert_eq!(c.owner(), "o");
    assert_eq!(Ok(6), get_color(&c, 4, 4));
    let rec = PixelData { owner: String::from("z"), price: 5, message: String::new(), for_sale: true };
    assert_eq!(Ok(()), c.insert_if_absent(12, rec.clone()));
    assert_eq!(Err(CanvasError::AlreadyExists), c.insert_if_absent(12, rec.clone()));
    assert_eq!(Err(CanvasError::IndexOutOfRange), c.insert_if_absent(25, rec));
    assert_eq!("z", get_pixel(&c, 2, 2).unwrap().owner);
    assert_eq!(Ok(6), get_color(&c, 2, 2));
}
