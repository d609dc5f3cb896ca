use gosub_engine::render::{BorderStyle, Color};

struct Rgba {
    r: u8,
    g: u8,
    b: u8,
    a: u8,
}

impl Color for Rgba {
    fn with_alpha(r: u8, g: u8, b: u8, a: u8) -> Self {
        Rgba { r, g, b, a }
    }
}

#[test]
fn color_constructors_default_to_opaque() {
    let c = Rgba::new(1, 2, 3);
    assert_eq!((c.r, c.g, c.b, c.a), (1, 2, 3, 255));
    let d = Rgba::rgba(9, 8, 7, 6);
    assert_eq!((d.r, d.g, d.b, d.a), (9, 8, 7, 6));
    let e = Rgba::rgb(4, 5, 6);
    assert_eq!(e.a, 255);
    let style = BorderStyle::Dashed;
    let copy = style;
    assert!(matches!(copy, BorderStyle::Dashed));
    assert!(matches!(style, BorderStyle::Dashed));
}
