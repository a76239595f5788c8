use rustty::color::{color_256, color_256_is_defined, Color};

fn rgb(r: u8, g: u8, b: u8) -> Color {
    Color { r, g, b }
}

#[test]
fn standard_colors() {
    assert_eq!(color_256(0), rgb(0, 0, 0));
    assert_eq!(color_256(1), rgb(205, 49, 49));
    assert_eq!(color_256(7), rgb(204, 204, 204));
    assert_eq!(color_256(8), rgb(118, 118, 118));
    assert_eq!(color_256(15), rgb(229, 229, 229));
}

#[test]
fn color_cube() {
    assert_eq!(color_256(16), rgb(0, 0, 0));
    assert_eq!(color_256(17), rgb(0, 0, 95));
    assert_eq!(color_256(21), rgb(0, 0, 255));
    assert_eq!(color_256(196), rgb(255, 0, 0));
    assert_eq!(color_256(110), rgb(135, 175, 215));
    assert_eq!(color_256(231), rgb(255, 255, 255));
}

#[test]
fn grey_ramp() {
    assert_eq!(color_256(232), rgb(8, 8, 8));
    assert_eq!(color_256(244), rgb(128, 128, 128));
    assert_eq!(color_256(255), rgb(238, 238, 238));
    assert_eq!(color_256(256), rgb(248, 248, 248));
}

#[test]
fn palette_domain() {
    assert!(color_256_is_defined(0));
    assert!(color_256_is_defined(255));
    assert!(color_256_is_defined(256));
    assert!(!color_256_is_defined(257));
    assert!(color_256_is_defined(488));
    assert!(color_256_is_defined(65535));
    assert!(!color_256_is_defined(300));
}
