use launcher::{
    coerce_bool, coerce_i32, coerce_ordinal, edit_i32, hex_text, parse_hex, DisplayFormat,
    StatusIcons,
};

#[test]
fn bool_true_texts() {
    assert!(coerce_bool(Some("1"), false));
    assert!(coerce_bool(Some("true"), false));
}

#[test]
fn bool_other_texts_are_false() {
    for text in ["0", "false", "", "TRUE", "True", "yes", "2", " 1", "garbage"] {
        assert!(!coerce_bool(Some(text), true), "{text:?} read as true");
    }
}

#[test]
fn bool_absent_gives_default() {
    assert!(coerce_bool(None, true));
    assert!(!coerce_bool(None, false));
}

#[test]
fn int_well_formed_decimal() {
    assert_eq!(coerce_i32(Some("30"), 60), 30);
    assert_eq!(coerce_i32(Some("-1"), 60), -1);
    assert_eq!(coerce_i32(Some("+7"), 60), 7);
    assert_eq!(coerce_i32(Some("007"), 60), 7);
    assert_eq!(coerce_i32(Some("2147483647"), 0), i32::MAX);
    assert_eq!(coerce_i32(Some("-2147483648"), 0), i32::MIN);
}

#[test]
fn int_malformed_gives_default() {
    assert_eq!(coerce_i32(Some("abc"), 39), 39);
    assert_eq!(coerce_i32(Some(""), 39), 39);
    assert_eq!(coerce_i32(Some("1.5"), 39), 39);
    assert_eq!(coerce_i32(Some(" 12"), 39), 39);
    assert_eq!(coerce_i32(Some("-"), 39), 39);
    assert_eq!(coerce_i32(Some("2147483648"), 39), 39);
}

#[test]
fn int_absent_gives_default() {
    assert_eq!(coerce_i32(None, 100), 100);
}

#[test]
fn ordinal_parsing() {
    assert_eq!(coerce_ordinal(Some("3")), Some(3));
    assert_eq!(coerce_ordinal(Some("+3")), Some(3));
    assert_eq!(coerce_ordinal(Some("255")), Some(255));
    assert_eq!(coerce_ordinal(Some("256")), None);
    assert_eq!(coerce_ordinal(Some("-0")), None);
    assert_eq!(coerce_ordinal(Some("x")), None);
    assert_eq!(coerce_ordinal(None), None);
}

#[test]
fn enum_ordinals_in_range() {
    assert_eq!(StatusIcons::coerce(Some("0"), StatusIcons::Hidden), StatusIcons::Default);
    assert_eq!(StatusIcons::coerce(Some("1"), StatusIcons::Default), StatusIcons::Hidden);
    assert_eq!(StatusIcons::coerce(Some("2"), StatusIcons::Default), StatusIcons::Error);
    assert_eq!(StatusIcons::coerce(Some("3"), StatusIcons::Default), StatusIcons::Okay);
    assert_eq!(StatusIcons::coerce(Some("4"), StatusIcons::Default), StatusIcons::PartialOk);
    assert_eq!(DisplayFormat::coerce(Some("0"), DisplayFormat::Popup), DisplayFormat::Windowed);
    assert_eq!(DisplayFormat::coerce(Some("1"), DisplayFormat::Windowed), DisplayFormat::Popup);
    assert_eq!(DisplayFormat::coerce(Some("2"), DisplayFormat::Windowed), DisplayFormat::Exclusive);
    assert_eq!(DisplayFormat::coerce(Some("3"), DisplayFormat::Windowed), DisplayFormat::Borderless);
}

#[test]
fn enum_ordinals_out_of_range() {
    assert_eq!(StatusIcons::coerce(Some("5"), StatusIcons::Default), StatusIcons::Default);
    assert_eq!(StatusIcons::coerce(Some("7"), StatusIcons::Default), StatusIcons::Default);
    assert_eq!(StatusIcons::coerce(Some("-1"), StatusIcons::Default), StatusIcons::Default);
    assert_eq!(DisplayFormat::coerce(Some("4"), DisplayFormat::Windowed), DisplayFormat::Windowed);
    assert_eq!(DisplayFormat::coerce(Some("999"), DisplayFormat::Windowed), DisplayFormat::Windowed);
    assert_eq!(StatusIcons::from_ordinal(5), None);
    assert_eq!(DisplayFormat::from_ordinal(4), None);
}

#[test]
fn enum_ordinal_round_trip() {
    for v in [StatusIcons::Default, StatusIcons::Hidden, StatusIcons::Error, StatusIcons::Okay, StatusIcons::PartialOk] {
        assert_eq!(StatusIcons::from_ordinal(v.ordinal()), Some(v));
    }
    for v in [DisplayFormat::Windowed, DisplayFormat::Popup, DisplayFormat::Exclusive, DisplayFormat::Borderless] {
        assert_eq!(DisplayFormat::from_ordinal(v.ordinal()), Some(v));
    }
}

#[test]
fn text_edit_coercion() {
    assert_eq!(edit_i32(5, "42"), 42);
    assert_eq!(edit_i32(5, "-3"), -3);
    assert_eq!(edit_i32(5, ""), 0);
    assert_eq!(edit_i32(5, "4x"), 5);
    assert_eq!(edit_i32(5, "99999999999"), 5);
}

#[test]
fn hex_text_padding() {
    assert_eq!(hex_text(0x90, 2), "0x90");
    assert_eq!(hex_text(5, 2), "0x05");
    assert_eq!(hex_text(0x1F, 4), "0x001F");
    assert_eq!(hex_text(0xABCDEF, 8), "0x00ABCDEF");
    assert_eq!(hex_text(1, 16), "0x0000000000000001");
    assert_eq!(hex_text(0x1405E5A4C, 0), "0x1405E5A4C");
    assert_eq!(hex_text(-1, 0), "0xFFFFFFFFFFFFFFFF");
}

#[test]
fn hex_parsing() {
    assert_eq!(parse_hex("0x1F"), Some(31));
    assert_eq!(parse_hex("1f"), Some(31));
    assert_eq!(parse_hex("0x0x10"), Some(16));
    assert_eq!(parse_hex("-0xA"), None);
    assert_eq!(parse_hex("-A"), Some(-10));
    assert_eq!(parse_hex("0x"), None);
    assert_eq!(parse_hex("0xG1"), None);
    assert_eq!(parse_hex("0xFFFFFFFFFFFFFFFF"), None);
    assert_eq!(parse_hex("7FFFFFFFFFFFFFFF"), Some(i64::MAX));
}
