use miniraw::window::{client_size, Font, MessageResult, WindowGeometry};

#[test]
fn zero_geometry_is_all_zero() {
    let g = WindowGeometry::zero();
    assert_eq!(g.x, Some(0));
    assert_eq!(g.y, Some(0));
    assert_eq!(g.width, Some(0));
    assert_eq!(g.height, Some(0));
    assert_eq!(g.unwrap_or(9), (0, 0, 0, 0));
}

#[test]
fn default_geometry_leaves_all_open() {
    let g = WindowGeometry::default();
    assert_eq!(g.x, None);
    assert_eq!(g.y, None);
    assert_eq!(g.width, None);
    assert_eq!(g.height, None);
    assert_eq!(g.unwrap_or(-7), (-7, -7, -7, -7));
}

#[test]
fn unwrap_or_fills_only_what_is_open() {
    let g = WindowGeometry { x: None, y: Some(2), width: Some(700), height: None };
    assert_eq!(g.unwrap_or(i32::MIN), (i32::MIN, 2, 700, i32::MIN));
}

#[test]
fn inset_leaves_a_margin_on_every_side() {
    let g = WindowGeometry::inset(700, 500, 6);
    assert_eq!(g.unwrap_or(0), (6, 6, 688, 488));
}

#[test]
fn inset_of_a_tiny_area_goes_negative() {
    let g = WindowGeometry::inset(0, 5, 6);
    assert_eq!(g.unwrap_or(0), (6, 6, -12, -7));
    let g = WindowGeometry::inset(u16::MAX, u16::MAX, u16::MAX);
    assert_eq!(g.unwrap_or(0), (65535, 65535, -65535, -65535));
}

#[test]
fn new_font_is_upright_and_regular() {
    let font = Font::new(14, "Consolas");
    assert_eq!(font.height, 14);
    assert!(!font.bold);
    assert!(!font.italics);
    assert_eq!(font.face, "Consolas");
}

#[test]
fn reply_follows_the_handlers_answer() {
    assert_eq!(MessageResult::Processed.reply(), Some(0));
    assert_eq!(MessageResult::Ignored.reply(), None);
    assert_eq!(MessageResult::Value(-3).reply(), Some(-3));
    assert_eq!(MessageResult::Value(0).reply(), Some(0));
}

#[test]
fn size_message_carries_width_low_and_height_high() {
    assert_eq!(client_size((500 << 16) | 700), (700, 500));
    assert_eq!(client_size(0), (0, 0));
    assert_eq!(client_size(0xffff), (65535, 0));
    assert_eq!(client_size(0x7fff_0000), (0, 0x7fff));
}

#[test]
fn size_message_ignores_sign_and_upper_bits() {
    assert_eq!(client_size(-1), (65535, 65535));
    assert_eq!(client_size(-65536), (0, 65535));
    assert_eq!(client_size(isize::MIN), (0, 0));
    assert_eq!(client_size(isize::MAX), (65535, 65535));
    assert_eq!(client_size(-2), (65534, 65535));
}
