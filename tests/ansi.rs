use jtsearch::ansi::{
    BackColor, ForeColor, GraphicsMode, Text, TextBuilder, CUR_DOWNN, CUR_DOWN_LINEN, CUR_LEFTN,
    CUR_RIGHTN, CUR_TO_COLN, CUR_TO_POS, CUR_UPN, CUR_UP_LINEN, SET_BACK_COLOR_ID,
    SET_BACK_COLOR_RGB, SET_FORE_COLOR_ID, SET_FORE_COLOR_RGB, SET_GRAPHICS, WRAP_BACK_COLOR_ID,
    WRAP_BACK_COLOR_RGB, WRAP_FORE_COLOR_ID, WRAP_FORE_COLOR_RGB, WRAP_GRAPHICS,
};
use jtsearch::args::{ArgValue, Value};
use jtsearch::file_type::FileType;

#[test]
fn cursor_moves() {
    assert_eq!(CUR_UPN(3), "\x1b[3A");
    assert_eq!(CUR_DOWNN(12), "\x1b[12B");
    assert_eq!(CUR_RIGHTN(0), "\x1b[0C");
    assert_eq!(CUR_LEFTN(105), "\x1b[105D");
    assert_eq!(CUR_DOWN_LINEN(2), "\x1b[2E");
    assert_eq!(CUR_UP_LINEN(2), "\x1b[2F");
    assert_eq!(CUR_TO_COLN(40), "\x1b[40G");
    assert_eq!(CUR_TO_POS(5, 7), "\x1b[7;5H");
}

#[test]
fn graphics_modes() {
    assert_eq!(GraphicsMode::Bold.as_u8(), 1);
    assert_eq!(GraphicsMode::Inverse.as_u8(), 7);
    assert_eq!(GraphicsMode::Dim.reset_code(), 22);
    assert_eq!(GraphicsMode::Strikethrough.reset(), GraphicsMode::Reset(29));
    assert_eq!(SET_GRAPHICS(GraphicsMode::Underline), "\x1b[4m");
    assert_eq!(WRAP_GRAPHICS("hi", GraphicsMode::Italic), "\x1b[3mhi23");
}

#[test]
fn colours() {
    assert_eq!(ForeColor::Red.as_u8(), 31);
    assert_eq!(ForeColor::RGB(1, 2, 3).as_u8(), 39);
    assert_eq!(BackColor::Cyan.as_u8(), 46);
    assert_eq!(ForeColor::Blue.as_back(), BackColor::Blue);
    assert_eq!(BackColor::RGB(1, 2, 3).as_fore(), ForeColor::RGB(1, 2, 3));
    assert_eq!(SET_FORE_COLOR_ID(ForeColor::Green), "\x1b[32m");
    assert_eq!(SET_BACK_COLOR_ID(BackColor::White), "\x1b[47m");
    assert_eq!(WRAP_FORE_COLOR_ID("x", ForeColor::Yellow), "\x1b[33mx\x1b[39m");
    assert_eq!(WRAP_BACK_COLOR_ID("x", BackColor::Black), "\x1b[40mx\x1b[49m");
    assert_eq!(SET_FORE_COLOR_RGB((10, 20, 30)), "\x1b[38;2;10;20;30m");
    assert_eq!(SET_BACK_COLOR_RGB((0, 255, 7)), "\x1b[48;2;0;255;7m");
    assert_eq!(WRAP_FORE_COLOR_RGB("t", (1, 2, 3)), "\x1b[38;2;1;2;3mt\x1b[39m");
    assert_eq!(WRAP_BACK_COLOR_RGB("t", (1, 2, 3)), "\x1b[48;2;1;2;3mt\x1b[49m");
}

#[test]
fn styled_text_renders_in_order() {
    let mut t = Text::new();
    t.wrap_fore("red", ForeColor::Red);
    t.text(" ");
    t.wrap_graphics("bold", GraphicsMode::Bold);
    t.back(BackColor::RGB(1, 2, 3));
    t.reset_back();
    assert_eq!(
        t.render(),
        "\x1b[31mred\x1b[39m \x1b[1mbold\x1b[22m\x1b[48;2;1;3;2m\x1b[49m"
    );
    t.reset();
    assert_eq!(t.render(), "");
    t.fore(ForeColor::RGB(9, 8, 7));
    t.reset_fore();
    t.graphics(GraphicsMode::Blinking);
    t.reset_graphics(GraphicsMode::Blinking);
    t.wrap_back("b", BackColor::Red);
    assert_eq!(t.render(), "\x1b[38;2;9;7;8m\x1b[39m\x1b[5m\x1b[25m\x1b[41mb\x1b[49m");
}

#[test]
fn builder_matches_text() {
    let built = TextBuilder::new()
        .text("a")
        .graphics(GraphicsMode::Dim)
        .wrap_graphics("b", GraphicsMode::Dim)
        .reset_graphics(GraphicsMode::Bold)
        .fore(ForeColor::Cyan)
        .wrap_fore("c", ForeColor::Magenta)
        .reset_fore()
        .back(BackColor::Green)
        .wrap_back("d", BackColor::Blue)
        .reset_back()
        .build();
    assert_eq!(
        built.render(),
        "a\x1b[2m\x1b[2mb\x1b[22m\x1b[22m\x1b[36m\x1b[35mc\x1b[39m\x1b[39m\x1b[42m\x1b[44md\x1b[49m\x1b[49m"
    );
}

#[test]
fn runner_file_types() {
    assert!(FileType::C.can_have_multiple());
    assert!(!FileType::PY.can_have_multiple());
    assert!(FileType::RS.can_have_none());
    assert!(!FileType::C.can_have_none());
    assert!(FileType::HS.can_run_only());
    assert!(!FileType::RS.can_run_only());
}

#[test]
fn option_values() {
    let n = ArgValue::Usize(Value { value: None, default: Some(4) });
    assert_eq!(n.usize_value(), Some(&4));
    assert!(!n.passed_value());
    let s = ArgValue::String(Value { value: Some("x".to_string()), default: Some("y".to_string()) });
    assert_eq!(s.string_value(), Some("x"));
    assert!(s.passed_value());
    let b = ArgValue::Bool(Value::new(None));
    assert_eq!(b.bool_value(), None);
}
