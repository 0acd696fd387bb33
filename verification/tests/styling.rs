use promptline::privilege::select;
use promptline::style::{color_from_name, ColorName};

#[test]
fn root_gets_alert_color() {
    let styled = select(0, "$ ", "# ");
    assert_eq!(styled.text, "# ");
    assert_eq!(styled.color, ColorName::Red);
    assert!(!styled.dim);
}

#[test]
fn everyone_else_gets_normal_color() {
    for uid in [1u32, 1000, u32::MAX] {
        let styled = select(uid, "$ ", "# ");
        assert_eq!(styled.text, "$ ");
        assert_eq!(styled.color, ColorName::Green, "uid {uid}");
    }
}

#[test]
fn named_colors_resolve() {
    assert_eq!(color_from_name("white"), ColorName::White);
    assert_eq!(color_from_name("green"), ColorName::Green);
    assert_eq!(color_from_name("RED"), ColorName::Red);
    assert_eq!(color_from_name("bright black"), ColorName::BrightBlack);
    assert_eq!(color_from_name("purple"), ColorName::Magenta);
    assert_eq!(color_from_name("Bright Cyan"), ColorName::BrightCyan);
}

#[test]
fn unknown_names_fall_back_to_white() {
    assert_eq!(color_from_name(""), ColorName::White);
    assert_eq!(color_from_name("chartreuse"), ColorName::White);
    assert_eq!(color_from_name("#nothex"), ColorName::White);
    assert_eq!(color_from_name("#12345"), ColorName::White);
}

#[test]
fn hex_colors_resolve() {
    assert_eq!(
        color_from_name("#ff8000"),
        ColorName::Direct { r: 0xff, g: 0x80, b: 0x00 }
    );
    assert_eq!(
        color_from_name("#FF8000"),
        ColorName::Direct { r: 0xff, g: 0x80, b: 0x00 }
    );
    assert_eq!(
        color_from_name("#f80"),
        ColorName::Direct { r: 0xff, g: 0x88, b: 0x00 }
    );
}

#[test]
fn resolution_agrees_with_the_styling_layer() {
    let names = [
        "black", "red", "green", "yellow", "blue", "magenta", "purple", "cyan", "white",
        "bright black", "bright red", "bright green", "bright yellow", "bright blue",
        "bright magenta", "bright cyan", "bright white", "WHITE", "Green", "#ff8000", "#f80",
        "#bad", "#nothex", "nonsense", "",
    ];
    for name in names {
        let ours = match color_from_name(name) {
            ColorName::Black => colored::Color::Black,
            ColorName::Red => colored::Color::Red,
            ColorName::Green => colored::Color::Green,
            ColorName::Yellow => colored::Color::Yellow,
            ColorName::Blue => colored::Color::Blue,
            ColorName::Magenta => colored::Color::Magenta,
            ColorName::Cyan => colored::Color::Cyan,
            ColorName::White => colored::Color::White,
            ColorName::BrightBlack => colored::Color::BrightBlack,
            ColorName::BrightRed => colored::Color::BrightRed,
            ColorName::BrightGreen => colored::Color::BrightGreen,
            ColorName::BrightYellow => colored::Color::BrightYellow,
            ColorName::BrightBlue => colored::Color::BrightBlue,
            ColorName::BrightMagenta => colored::Color::BrightMagenta,
            ColorName::BrightCyan => colored::Color::BrightCyan,
            ColorName::BrightWhite => colored::Color::BrightWhite,
            ColorName::Direct { r, g, b } => colored::Color::TrueColor { r, g, b },
        };
        assert_eq!(ours, colored::Color::from(name), "name {:?}", name);
    }
}
