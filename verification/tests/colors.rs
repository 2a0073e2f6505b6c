use peach::color::Color;
use peach::colors;
use peach::constructors::{hex as hex_color, hex_bytes, rgb, rgba};

fn channel(value: u8) -> f64 {
    f64::from(value) / 255.0
}

#[test]
fn hex() {
    assert_eq!(Color::hex(0x00000000), Color::new(0, 0, 0, 0));
    assert_eq!(Color::hex(0xFFFFFFFF), Color::new(255, 255, 255, 255));
    let red = channel(Color::hex(0x40000000).r);
    assert!((red - 0.25).abs() <= 0.01 * red.abs().max(0.25));
}

#[test]
fn hex_rgb() {
    assert_eq!(Color::hex_rgb(0x000000), Color::new(0, 0, 0, 255));
    assert_eq!(Color::hex_rgb(0xFFFFFF), Color::new(255, 255, 255, 255));
    assert_eq!(Color::hex_rgb(0xFF00FF), Color::new(255, 0, 255, 255));
}

#[test]
fn hex_reads_channels_from_the_top_byte_down() {
    let c = Color::hex(0x12345678);
    assert_eq!((c.r, c.g, c.b, c.a), (0x12, 0x34, 0x56, 0x78));
}

#[test]
fn hex_rgb_ignores_the_top_byte() {
    assert_eq!(Color::hex_rgb(0xAB6495ED), Color::new(0x64, 0x95, 0xED, 255));
}

#[test]
fn new_rgb_is_opaque() {
    assert_eq!(Color::new_rgb(1, 2, 3), Color { r: 1, g: 2, b: 3, a: 255 });
}

#[test]
fn to_array_orders_channels() {
    assert_eq!(Color::new(1, 2, 3, 4).to_array(), [1, 2, 3, 4]);
}

#[test]
fn hex_bytes_puts_opacity_last() {
    assert_eq!(hex_bytes(0xAABBCCDD), [0xBB, 0xCC, 0xDD, 0xAA]);
    assert_eq!(hex_bytes(0), [0, 0, 0, 0]);
    assert_eq!(hex_bytes(0xFFFF_FFFF), [255, 255, 255, 255]);
    assert_eq!(hex_bytes(0x0100_0000), [0, 0, 0, 1]);
}

#[test]
fn hex_constructor_reads_opacity_first() {
    assert_eq!(hex_color(0xFFFF4488), Color { r: 0xFF, g: 0x44, b: 0x88, a: 0xFF });
    assert_eq!(hex_color(0xFF000000), colors::black());
}

#[test]
fn rgb_and_rgba() {
    assert_eq!(rgb(10, 20, 30), Color { r: 10, g: 20, b: 30, a: 255 });
    assert_eq!(rgba(10, 20, 30, 40), Color { r: 10, g: 20, b: 30, a: 40 });
}

#[test]
fn named_colors() {
    assert_eq!(colors::black(), rgba(0, 0, 0, 255));
    assert_eq!(colors::white(), rgba(255, 255, 255, 255));
    assert_eq!(colors::red(), rgba(255, 0, 0, 255));
    assert_eq!(colors::green(), rgba(0, 255, 0, 255));
    assert_eq!(colors::blue(), rgba(0, 0, 255, 255));
    assert_eq!(colors::transparent(), rgba(0, 0, 0, 0));
    assert_eq!(colors::yellow(), rgba(255, 255, 0, 255));
    assert_eq!(colors::cyan(), rgba(0, 255, 255, 255));
    assert_eq!(colors::magenta(), rgba(255, 0, 255, 255));
}

#[test]
fn color_from_a_number() {
    assert_eq!(Color::from(0xB2222280), Color::new(0xB2, 0x22, 0x22, 0x80));
    let c: Color = 0x282a36ff.into();
    assert_eq!(c, Color::hex(0x282a36ff));
}
