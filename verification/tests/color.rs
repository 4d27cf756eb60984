use clutter::color::{Color, StaticColor};

#[test]
fn new_and_init() {
    let mut color = Color::new(1, 2, 3, 4);
    assert_eq!(color.red, 1);
    assert_eq!(color.green, 2);
    assert_eq!(color.blue, 3);
    assert_eq!(color.alpha, 4);
    color.init(5, 6, 7, 8);
    assert_eq!(color, Color::new(5, 6, 7, 8));
}

#[test]
fn allocate_is_transparent_black() {
    let color = Color::allocate();
    assert_eq!(color, Color::new(0, 0, 0, 0));
}

#[test]
fn equal_compares_every_channel() {
    let color = Color::new(10, 20, 30, 40);
    assert!(color.equal(&Color::new(10, 20, 30, 40)));
    assert!(!color.equal(&Color::new(11, 20, 30, 40)));
    assert!(!color.equal(&Color::new(10, 21, 30, 40)));
    assert!(!color.equal(&Color::new(10, 20, 31, 40)));
    assert!(!color.equal(&Color::new(10, 20, 30, 41)));
}

#[test]
fn pixel_packs_channels_high_to_low() {
    let color = Color::new(0x12, 0x34, 0x56, 0x78);
    assert_eq!(color.to_pixel(), 0x1234_5678);
    assert_eq!(color.hash(), 0x1234_5678);
}

#[test]
fn pixel_round_trip() {
    let color = Color::new(0xab, 0xcd, 0xef, 0x01);
    let mut back = Color::allocate();
    back.from_pixel(color.to_pixel());
    assert_eq!(back, color);
    let mut unpacked = Color::allocate();
    unpacked.from_pixel(0xdead_beef);
    assert_eq!(unpacked, Color::new(0xde, 0xad, 0xbe, 0xef));
    assert_eq!(unpacked.to_pixel(), 0xdead_beef);
}

#[test]
fn add_clamps_and_keeps_larger_alpha() {
    let a = Color::new(100, 200, 0, 10);
    let b = Color::new(100, 100, 5, 200);
    let sum = a.add(&b);
    assert_eq!(sum, Color::new(200, 255, 5, 200));
}

#[test]
fn subtract_clamps_and_keeps_smaller_alpha() {
    let a = Color::new(100, 50, 5, 10);
    let b = Color::new(40, 60, 5, 200);
    let difference = a.subtract(&b);
    assert_eq!(difference, Color::new(60, 0, 0, 10));
}

#[test]
fn static_colors() {
    assert_eq!(Color::get_static(StaticColor::White), Color::new(0xff, 0xff, 0xff, 0xff));
    assert_eq!(Color::get_static(StaticColor::Black), Color::new(0x00, 0x00, 0x00, 0xff));
    assert_eq!(Color::get_static(StaticColor::SkyBlue), Color::new(0x34, 0x65, 0xa4, 0xff));
    assert_eq!(Color::get_static(StaticColor::Aluminium6), Color::new(0x2e, 0x34, 0x36, 0xff));
    assert_eq!(Color::get_static(StaticColor::Transparent), Color::new(0, 0, 0, 0));
}

#[test]
fn static_color_codes() {
    assert_eq!(StaticColor::White.to_raw(), 0);
    assert_eq!(StaticColor::LightGray.to_raw(), 16);
    assert_eq!(StaticColor::Butter.to_raw(), 17);
    assert_eq!(StaticColor::Transparent.to_raw(), 44);
    assert_eq!(StaticColor::from_raw(29), Some(StaticColor::SkyBlue));
    assert_eq!(StaticColor::from_raw(44), Some(StaticColor::Transparent));
    assert_eq!(StaticColor::from_raw(45), None);
    assert_eq!(StaticColor::from_raw(-1), None);
}

#[test]
fn to_string_writes_hex() {
    assert_eq!(Color::new(0xff, 0x99, 0x00, 0xff).to_string(), "#ff9900ff");
    assert_eq!(Color::new(0, 0, 0, 0).to_string(), "#00000000");
    assert_eq!(Color::get_static(StaticColor::Plum).to_string(), "#75507bff");
}

#[test]
fn from_hex_string_parses_every_form() {
    let mut color = Color::allocate();
    assert!(color.from_hex_string("#f90"));
    assert_eq!(color, Color::new(0xff, 0x99, 0x00, 0xff));
    assert!(color.from_hex_string("#f908"));
    assert_eq!(color, Color::new(0xff, 0x99, 0x00, 0x88));
    assert!(color.from_hex_string("#1A2b3C"));
    assert_eq!(color, Color::new(0x1a, 0x2b, 0x3c, 0xff));
    assert!(color.from_hex_string("#1a2b3c4d"));
    assert_eq!(color, Color::new(0x1a, 0x2b, 0x3c, 0x4d));
}

#[test]
fn from_hex_string_rejects_bad_definitions() {
    let mut color = Color::new(9, 9, 9, 9);
    assert!(!color.from_hex_string(""));
    assert!(!color.from_hex_string("#"));
    assert!(!color.from_hex_string("#ff990"));
    assert!(!color.from_hex_string("#ff9z"));
    assert!(!color.from_hex_string("ff9900ff"));
    assert!(!color.from_hex_string("#ff990g"));
    assert!(!color.from_hex_string("#ff9900ffaa"));
    assert_eq!(color, Color::new(9, 9, 9, 9));
}

#[test]
fn string_round_trip() {
    let color = Color::new(0x5c, 0x35, 0x66, 0x7f);
    let mut back = Color::allocate();
    assert!(back.from_hex_string(color.to_string().as_str()));
    assert_eq!(back, color);
}
