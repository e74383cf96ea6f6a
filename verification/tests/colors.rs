use ss13_status::colors::{ansi, bg, fg, AnsiBuilder, Color, BOLD, RESET};

const ALL: [Color; 9] = [
    Color::Black,
    Color::Red,
    Color::Green,
    Color::Yellow,
    Color::Blue,
    Color::Magenta,
    Color::Cyan,
    Color::White,
    Color::Default,
];

#[test]
fn fg_codes_are_thirties() {
    let codes: Vec<&str> = ALL.iter().map(|c| c.fg_code()).collect();
    assert_eq!(codes, vec!["30", "31", "32", "33", "34", "35", "36", "37", "39"]);
}

#[test]
fn bg_codes_are_forties() {
    let codes: Vec<&str> = ALL.iter().map(|c| c.bg_code()).collect();
    assert_eq!(codes, vec!["40", "41", "42", "43", "44", "45", "46", "47", "49"]);
}

#[test]
fn codes_distinct_and_bg_is_fg_with_four() {
    for a in ALL {
        for b in ALL {
            if a != b {
                assert_ne!(a.fg_code(), b.fg_code());
                assert_ne!(a.bg_code(), b.bg_code());
            }
            assert_ne!(a.fg_code(), b.bg_code());
        }
        assert_eq!(a.bg_code(), format!("4{}", &a.fg_code()[1..]));
    }
}

#[test]
fn constants() {
    assert_eq!(RESET, "\x1b[0m");
    assert_eq!(BOLD, "\x1b[1m");
}

#[test]
fn plain_builder_has_no_parameter() {
    assert_eq!(AnsiBuilder::new().finish(), "\x1b[m");
    assert_eq!(ansi().finish(), "\x1b[m");
    assert_eq!(AnsiBuilder::default(), AnsiBuilder::new());
}

#[test]
fn full_builder_orders_parameters() {
    let s = ansi().italics().dim().bold().bg(Color::Blue).fg(Color::Red).finish();
    assert_eq!(s, "\x1b[31;44;1;2;3m");
}

#[test]
fn single_attributes() {
    assert_eq!(ansi().bold().finish(), "\x1b[1m");
    assert_eq!(ansi().dim().finish(), "\x1b[2m");
    assert_eq!(ansi().italics().finish(), "\x1b[3m");
    assert_eq!(ansi().fg(Color::White).bg(Color::Red).finish(), "\x1b[37;41m");
    assert_eq!(ansi().fg(Color::Yellow).dim().finish(), "\x1b[33;2m");
}

#[test]
fn fg_and_bg_shorthands() {
    assert_eq!(fg(Color::Green), "\x1b[32m");
    assert_eq!(bg(Color::Default), "\x1b[49m");
    for c in ALL {
        assert_eq!(fg(c), ansi().fg(c).finish());
        assert_eq!(bg(c), ansi().bg(c).finish());
    }
}

#[test]
fn last_setting_wins() {
    let b = ansi().bold();
    assert_eq!(b.fg(Color::Red).fg(Color::Cyan), b.fg(Color::Cyan));
    assert_eq!(b.bg(Color::Red).bg(Color::Cyan).finish(), "\x1b[46;1m");
    assert_eq!(b.bold(), b);
    assert_eq!(ansi().dim().dim(), ansi().dim());
    assert_eq!(ansi().italics().italics(), ansi().italics());
}

#[test]
fn setters_commute() {
    let a = ansi().fg(Color::Magenta).bg(Color::Black).bold().dim().italics();
    let b = ansi().italics().bold().bg(Color::Black).dim().fg(Color::Magenta);
    assert_eq!(a, b);
    assert_eq!(a.finish(), b.finish());
    assert_eq!(a.finish(), "\x1b[35;40;1;2;3m");
}
