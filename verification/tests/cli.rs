use hextime::cli::{Mode, Opt};
use std::str::FromStr;

#[test]
fn parse_each_mode() {
    assert_eq!(Mode::from_str("xmobar"), Ok(Mode::Xmobar));
    assert_eq!(Mode::from_str("terminal"), Ok(Mode::Terminal));
    assert_eq!(Mode::from_str("cterm"), Ok(Mode::ColorTerm));
}

#[test]
fn parse_refuses_other_names() {
    assert_eq!(Mode::from_str(""), Err("no match"));
    assert_eq!(Mode::from_str("bogus"), Err("no match"));
    assert_eq!(Mode::from_str("Xmobar"), Err("no match"));
    assert_eq!(Mode::from_str("XMOBAR"), Err("no match"));
    assert_eq!(Mode::from_str("xmobar "), Err("no match"));
    assert_eq!(Mode::from_str(" xmobar"), Err("no match"));
    assert_eq!(Mode::from_str("xmoba"), Err("no match"));
    assert_eq!(Mode::from_str("term"), Err("no match"));
    assert_eq!(Mode::from_str("colorterm"), Err("no match"));
    assert_eq!(Mode::from_str("cterm\n"), Err("no match"));
    assert_eq!(Mode::from_str("xm\u{f6}bar"), Err("no match"));
}

#[test]
fn parse_through_str_parse() {
    assert_eq!("xmobar".parse::<Mode>(), Ok(Mode::Xmobar));
    assert_eq!("terminal".parse::<Mode>(), Ok(Mode::Terminal));
    assert_eq!("cterm".parse::<Mode>(), Ok(Mode::ColorTerm));
    assert_eq!("none".parse::<Mode>(), Err("no match"));
}

#[test]
fn name_of_each_mode() {
    assert_eq!(Mode::Xmobar.name(), "xmobar");
    assert_eq!(Mode::Terminal.name(), "terminal");
    assert_eq!(Mode::ColorTerm.name(), "cterm");
}

#[test]
fn name_parses_back_to_its_mode() {
    for mode in [Mode::Xmobar, Mode::Terminal, Mode::ColorTerm] {
        assert_eq!(Mode::from_str(mode.name()), Ok(mode));
    }
}

#[test]
fn names_differ() {
    assert_ne!(Mode::Xmobar.name(), Mode::Terminal.name());
    assert_ne!(Mode::Xmobar.name(), Mode::ColorTerm.name());
    assert_ne!(Mode::Terminal.name(), Mode::ColorTerm.name());
}

#[test]
fn opt_holds_the_mode() {
    let opt = Opt { mode: Mode::ColorTerm };
    assert_eq!(opt.mode, Mode::ColorTerm);
    assert_eq!(format!("{:?}", opt), "Opt { mode: ColorTerm }");
}
