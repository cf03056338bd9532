use hextime::cli::Mode;
use hextime::formatting::{Color, Fc, Hex2, Render, TermFmt, XmobarFmt};
use hextime::term::{Ansi, TermColor};
use hextime::{render_line, term_color_line};

#[test]
fn colored_byte_in_white() {
    assert_eq!(
        Ansi(TermColor::White, Hex2(0x07u8)).render(),
        "\u{1b}[38;5;15m07 \u{1b}[0m\u{1b}[?25l"
    );
}

#[test]
fn colored_byte_in_green() {
    assert_eq!(
        Ansi(TermColor::Green, Hex2(0x9Cu8)).render(),
        "\u{1b}[38;5;10m9C \u{1b}[0m\u{1b}[?25l"
    );
}

#[test]
fn colored_byte_in_dark_grey() {
    assert_eq!(
        Ansi(TermColor::DarkGrey, Hex2(0xFFu8)).render(),
        "\u{1b}[38;5;8mFF \u{1b}[0m\u{1b}[?25l"
    );
}

#[test]
fn colored_text_is_printed_as_it_is() {
    assert_eq!(
        Ansi(TermColor::Green, Color::Red).render(),
        "\u{1b}[38;5;10mff0000 \u{1b}[0m\u{1b}[?25l"
    );
    assert_eq!(
        Ansi(TermColor::White, Fc(Color::Gray, Hex2(0u8))).render(),
        "\u{1b}[38;5;15m<fc=#999999>00</fc> \u{1b}[0m\u{1b}[?25l"
    );
}

#[test]
fn colored_byte_as_bytes() {
    let text = Ansi(TermColor::White, Hex2(0x41u8)).render();
    let expected: Vec<u8> = vec![
        0x1b, b'[', b'3', b'8', b';', b'5', b';', b'1', b'5', b'm', b'4', b'1', b' ', 0x1b, b'[',
        b'0', b'm', 0x1b, b'[', b'?', b'2', b'5', b'l',
    ];
    assert_eq!(text.as_bytes(), expected.as_slice());
}

#[test]
fn colored_byte_renders_the_same_twice() {
    for color in [TermColor::White, TermColor::Green, TermColor::DarkGrey] {
        for byte in [0x00u8, 0xA5, 0xFF] {
            let first = Ansi(color, Hex2(byte)).render();
            let second = Ansi(color, Hex2(byte)).render();
            assert_eq!(first.as_bytes(), second.as_bytes());
        }
    }
}

#[test]
fn color_terminal_line_of_the_epoch() {
    assert_eq!(
        term_color_line(0),
        "\u{1b}[38;5;8m00 \u{1b}[0m\u{1b}[?25l\
         \u{1b}[38;5;8m00 \u{1b}[0m\u{1b}[?25l\
         \u{1b}[38;5;10m00 \u{1b}[0m\u{1b}[?25l\
         \u{1b}[38;5;15m00 \u{1b}[0m\u{1b}[?25l"
    );
}

#[test]
fn color_terminal_line_of_a_time() {
    assert_eq!(
        term_color_line(0x5F3A_9C07),
        "\u{1b}[38;5;8m5F \u{1b}[0m\u{1b}[?25l\
         \u{1b}[38;5;8m3A \u{1b}[0m\u{1b}[?25l\
         \u{1b}[38;5;10m9C \u{1b}[0m\u{1b}[?25l\
         \u{1b}[38;5;15m07 \u{1b}[0m\u{1b}[?25l"
    );
}

#[test]
fn color_terminal_line_of_the_last_second() {
    assert_eq!(
        term_color_line(0xFFFF_FFFF),
        "\u{1b}[38;5;8mFF \u{1b}[0m\u{1b}[?25l\
         \u{1b}[38;5;8mFF \u{1b}[0m\u{1b}[?25l\
         \u{1b}[38;5;10mFF \u{1b}[0m\u{1b}[?25l\
         \u{1b}[38;5;15mFF \u{1b}[0m\u{1b}[?25l"
    );
}

#[test]
fn color_terminal_line_is_made_of_its_cells() {
    let time = 0x0A1B_2C3Du32;
    let mut expected = String::new();
    expected.push_str(&Ansi(TermColor::DarkGrey, Hex2(0x0Au8)).render());
    expected.push_str(&Ansi(TermColor::DarkGrey, Hex2(0x1Bu8)).render());
    expected.push_str(&Ansi(TermColor::Green, Hex2(0x2Cu8)).render());
    expected.push_str(&Ansi(TermColor::White, Hex2(0x3Du8)).render());
    assert_eq!(term_color_line(time), expected);
}

#[test]
fn line_in_each_mode() {
    let time = 0x6001_02FFu32;
    assert_eq!(render_line(Mode::Xmobar, time), XmobarFmt(time).render());
    assert_eq!(render_line(Mode::Terminal, time), TermFmt(time).render());
    assert_eq!(render_line(Mode::ColorTerm, time), term_color_line(time));
}

#[test]
fn line_in_each_mode_of_the_epoch() {
    assert_eq!(
        render_line(Mode::Xmobar, 0),
        "<fc=#999999>00</fc> <fc=#999999>00</fc> <fc=#00ff00>00</fc> <fc=#cccccc>00</fc> "
    );
    assert_eq!(render_line(Mode::Terminal, 0), "00 00 00 00 ");
    assert_eq!(
        render_line(Mode::ColorTerm, 0),
        "\u{1b}[38;5;8m00 \u{1b}[0m\u{1b}[?25l\
         \u{1b}[38;5;8m00 \u{1b}[0m\u{1b}[?25l\
         \u{1b}[38;5;10m00 \u{1b}[0m\u{1b}[?25l\
         \u{1b}[38;5;15m00 \u{1b}[0m\u{1b}[?25l"
    );
}

#[test]
fn line_renders_the_same_twice() {
    for mode in [Mode::Xmobar, Mode::Terminal, Mode::ColorTerm] {
        for time in [0u32, 1_700_000_000, 0xFFFF_FFFF] {
            assert_eq!(render_line(mode, time).as_bytes(), render_line(mode, time).as_bytes());
        }
    }
}

#[test]
fn lines_of_different_modes_show_the_same_bytes() {
    let time = 0xC0FF_EE42u32;
    for digits in ["C0", "FF", "EE", "42"] {
        assert!(render_line(Mode::Xmobar, time).contains(digits));
        assert!(render_line(Mode::Terminal, time).contains(digits));
        assert!(render_line(Mode::ColorTerm, time).contains(digits));
    }
}
