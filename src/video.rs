//! Window and resolution settings, kept in the `Resolution` section with
//! booleans written as `1` / `0`. The section also carries the refresh
//! rate, which follows the graphics settings' frame-rate limit.

use vstd::prelude::*;
use ini::Properties;
use crate::coerce::{
    bool_digit, bool_digit_text, coerce_bool, coerce_bool_spec, coerce_i32, coerce_i32_spec,
    coerce_ordinal, coerce_ordinal_spec, int_text, lemma_bool_texts_read_back, text_of,
};
use crate::document::{
    apply_entries, find_entry, lemma_write_section, lookup, pairs_view, write_section, Entries,
    IniConfig, IniConfigWriteCtx, Sections,
};
use crate::graphics::AppGraphics;
use crate::number::{decimal_text, lemma_i32_text_round_trip, lemma_u8_text_round_trip};

verus! {

/// How the game's window is shown; stored as its ordinal.
#[derive(Clone, Copy, Debug, PartialEq, Eq, Structural)]
pub enum DisplayFormat {
    Windowed,
    Popup,
    Exclusive,
    Borderless,
}

impl DisplayFormat {
    pub open spec fn spec_ordinal(self) -> u8 {
        match self {
            DisplayFormat::Windowed => 0,
            DisplayFormat::Popup => 1,
            DisplayFormat::Exclusive => 2,
            DisplayFormat::Borderless => 3,
        }
    }

    pub open spec fn spec_from_ordinal(n: u8) -> Option<DisplayFormat> {
        if n == 0 {
            Some(DisplayFormat::Windowed)
        } else if n == 1 {
            Some(DisplayFormat::Popup)
        } else if n == 2 {
            Some(DisplayFormat::Exclusive)
        } else if n == 3 {
            Some(DisplayFormat::Borderless)
        } else {
            None
        }
    }

    /// The format that an entry's text gives: a known ordinal gives its
    /// variant, anything else gives `default`.
    pub open spec fn coerce_spec(raw: Option<Seq<char>>, default: DisplayFormat) -> DisplayFormat {
        match coerce_ordinal_spec(raw) {
            Some(n) => match DisplayFormat::spec_from_ordinal(n) {
                Some(v) => v,
                None => default,
            },
            None => default,
        }
    }

    pub fn ordinal(self) -> (r: u8)
        ensures
            r == self.spec_ordinal(),
    {
        match self {
            DisplayFormat::Windowed => 0,
            DisplayFormat::Popup => 1,
            DisplayFormat::Exclusive => 2,
            DisplayFormat::Borderless => 3,
        }
    }

    pub fn from_ordinal(n: u8) -> (r: Option<DisplayFormat>)
        ensures
            r == DisplayFormat::spec_from_ordinal(n),
    {
        if n == 0 {
            Some(DisplayFormat::Windowed)
        } else if n == 1 {
            Some(DisplayFormat::Popup)
        } else if n == 2 {
            Some(DisplayFormat::Exclusive)
        } else if n == 3 {
            Some(DisplayFormat::Borderless)
        } else {
            None
        }
    }

    /// Reads a format from an entry, falling back to `default` when the
    /// entry is missing, malformed or out of range.
    pub fn coerce(raw: Option<&str>, default: DisplayFormat) -> (r: DisplayFormat)
        ensures
            r == DisplayFormat::coerce_spec(text_of(raw), default),
    {
        match coerce_ordinal(raw) {
            Some(n) => match DisplayFormat::from_ordinal(n) {
                Some(v) => v,
                None => default,
            },
            None => default,
        }
    }

    /// The name shown for the format.
    pub open spec fn spec_label(self) -> Seq<char> {
        match self {
            DisplayFormat::Windowed => "Windowed"@,
            DisplayFormat::Popup => "Popup"@,
            DisplayFormat::Exclusive => "Exclusive Fullscreen"@,
            DisplayFormat::Borderless => "Borderless"@,
        }
    }

    pub fn label(self) -> (r: &'static str)
        ensures
            r@ == self.spec_label(),
    {
        match self {
            DisplayFormat::Windowed => "Windowed",
            DisplayFormat::Popup => "Popup",
            DisplayFormat::Exclusive => "Exclusive Fullscreen",
            DisplayFormat::Borderless => "Borderless",
        }
    }
}

impl Default for DisplayFormat {
    fn default() -> (r: DisplayFormat)
        ensures
            r == DisplayFormat::Windowed,
    {
        DisplayFormat::Windowed
    }
}

/// Each format's ordinal gives the format back, and no ordinal past the
/// last format gives one.
pub proof fn lemma_display_format_ordinals(v: DisplayFormat, n: u8)
    ensures
        DisplayFormat::spec_from_ordinal(v.spec_ordinal()) == Some(v),
        n > 3 ==> DisplayFormat::spec_from_ordinal(n) is None,
        DisplayFormat::coerce_spec(Some(decimal_text(v.spec_ordinal() as int)), DisplayFormat::Windowed) == v,
        n > 3 ==> DisplayFormat::coerce_spec(Some(decimal_text(n as int)), DisplayFormat::Windowed)
            == DisplayFormat::Windowed,
{
    lemma_u8_text_round_trip(v.spec_ordinal());
    lemma_u8_text_round_trip(n);
}

/// The window's format and size, and the internal rendering resolution.
#[derive(Clone, Copy, Debug, PartialEq, Eq, Structural)]
pub struct AppVideo {
    pub display_format: DisplayFormat,
    pub window_size_x: i32,
    pub window_size_y: i32,
    pub internal_resolution_enabled: bool,
    pub internal_resolution_x: i32,
    pub internal_resolution_y: i32,
}

impl AppVideo {
    pub open spec fn spec_default() -> AppVideo {
        AppVideo {
            display_format: DisplayFormat::Windowed,
            window_size_x: -1i32,
            window_size_y: -1i32,
            internal_resolution_enabled: true,
            internal_resolution_x: 1920,
            internal_resolution_y: 1080,
        }
    }
}

impl Default for AppVideo {
    fn default() -> (r: AppVideo)
        ensures
            r == AppVideo::spec_default(),
    {
        AppVideo {
            display_format: DisplayFormat::default(),
            window_size_x: -1,
            window_size_y: -1,
            internal_resolution_enabled: true,
            internal_resolution_x: 1920,
            internal_resolution_y: 1080,
        }
    }
}

impl IniConfig for AppVideo {
    open spec fn section_name() -> Seq<char> {
        "Resolution"@
    }

    open spec fn from_entries(entries: Entries) -> AppVideo {
        let d = AppVideo::spec_default();
        AppVideo {
            display_format: DisplayFormat::coerce_spec(lookup(entries, "Display"@), d.display_format),
            window_size_x: coerce_i32_spec(lookup(entries, "Width"@), d.window_size_x),
            window_size_y: coerce_i32_spec(lookup(entries, "Height"@), d.window_size_y),
            internal_resolution_enabled: coerce_bool_spec(
                lookup(entries, "r.Enable"@),
                d.internal_resolution_enabled,
            ),
            internal_resolution_x: coerce_i32_spec(lookup(entries, "r.Width"@), d.internal_resolution_x),
            internal_resolution_y: coerce_i32_spec(lookup(entries, "r.Height"@), d.internal_resolution_y),
        }
    }

    fn section() -> (r: &'static str) {
        "Resolution"
    }

    fn read_body(props: &Properties) -> (r: AppVideo) {
        let d = AppVideo::default();
        AppVideo {
            display_format: DisplayFormat::coerce(find_entry(props, "Display"), d.display_format),
            window_size_x: coerce_i32(find_entry(props, "Width"), d.window_size_x),
            window_size_y: coerce_i32(find_entry(props, "Height"), d.window_size_y),
            internal_resolution_enabled: coerce_bool(
                find_entry(props, "r.Enable"),
                d.internal_resolution_enabled,
            ),
            internal_resolution_x: coerce_i32(find_entry(props, "r.Width"), d.internal_resolution_x),
            internal_resolution_y: coerce_i32(find_entry(props, "r.Height"), d.internal_resolution_y),
        }
    }
}

impl IniConfigWriteCtx for AppVideo {
    type Context = AppGraphics;

    open spec fn body_entries(&self) -> Seq<(Seq<char>, Seq<char>)> {
        seq![
            ("Display"@, decimal_text(self.display_format.spec_ordinal() as int)),
            ("Width"@, decimal_text(self.window_size_x as int)),
            ("Height"@, decimal_text(self.window_size_y as int)),
            ("r.Enable"@, bool_digit(self.internal_resolution_enabled)),
            ("r.Width"@, decimal_text(self.internal_resolution_x as int)),
            ("r.Height"@, decimal_text(self.internal_resolution_y as int)),
        ]
    }

    open spec fn additional_entries(add: &AppGraphics) -> Seq<(Seq<char>, Seq<char>)> {
        seq![("RefreshRate"@, decimal_text(add.frame_rate as int))]
    }

    fn write_body(&self) -> (r: Vec<(String, String)>) {
        let mut r: Vec<(String, String)> = Vec::new();
        r.push(("Display".to_owned(), int_text(self.display_format.ordinal() as i32)));
        r.push(("Width".to_owned(), int_text(self.window_size_x)));
        r.push(("Height".to_owned(), int_text(self.window_size_y)));
        r.push(("r.Enable".to_owned(), bool_digit_text(self.internal_resolution_enabled)));
        r.push(("r.Width".to_owned(), int_text(self.internal_resolution_x)));
        r.push(("r.Height".to_owned(), int_text(self.internal_resolution_y)));
        assert(pairs_view(r@) =~= self.body_entries());
        r
    }

    fn write_additional(add: &AppGraphics) -> (r: Vec<(String, String)>) {
        let mut r: Vec<(String, String)> = Vec::new();
        r.push(("RefreshRate".to_owned(), int_text(add.frame_rate)));
        assert(pairs_view(r@) =~= Self::additional_entries(add));
        r
    }
}

/// Writing video settings, with the refresh rate taken from any graphics
/// settings, into any document and reading its `Resolution` section back
/// gives the same video settings.
pub proof fn lemma_video_round_trip(v: AppVideo, g: AppGraphics, sections: Sections)
    ensures
        ({
            let name = AppVideo::section_name();
            let written = write_section(
                write_section(sections, name, v.body_entries()),
                name,
                AppVideo::additional_entries(&g),
            );
            &&& written.contains_key(name)
            &&& AppVideo::from_entries(written[name]) == v
        }),
{
    let name = AppVideo::section_name();
    let first = write_section(sections, name, v.body_entries());
    lemma_write_section(sections, name, v.body_entries());
    lemma_write_section(first, name, AppVideo::additional_entries(&g));
    reveal_with_fuel(apply_entries, 8);
    reveal_strlit("Display");
    reveal_strlit("Width");
    reveal_strlit("Height");
    reveal_strlit("r.Enable");
    reveal_strlit("r.Width");
    reveal_strlit("r.Height");
    reveal_strlit("RefreshRate");
    assert("Display"@.len() == 7 && "r.Width"@.len() == 7 && "Display"@[0] != "r.Width"@[0]);
    assert("Width"@.len() == 5 && "Height"@.len() == 6 && "RefreshRate"@.len() == 11);
    assert("r.Enable"@.len() == 8 && "r.Height"@.len() == 8 && "r.Enable"@[2] != "r.Height"@[2]);
    lemma_display_format_ordinals(v.display_format, 0);
    lemma_i32_text_round_trip(v.window_size_x);
    lemma_i32_text_round_trip(v.window_size_y);
    lemma_bool_texts_read_back(v.internal_resolution_enabled, true);
    lemma_i32_text_round_trip(v.internal_resolution_x);
    lemma_i32_text_round_trip(v.internal_resolution_y);
    let written = write_section(first, name, AppVideo::additional_entries(&g));
    assert(AppVideo::from_entries(written[name]) == v);
}

/// The refresh rate written to the `Resolution` section is the graphics
/// settings' frame-rate limit.
pub proof fn lemma_video_refresh_rate(v: AppVideo, g: AppGraphics, sections: Sections)
    ensures
        ({
            let name = AppVideo::section_name();
            let written = write_section(
                write_section(sections, name, v.body_entries()),
                name,
                AppVideo::additional_entries(&g),
            );
            coerce_i32_spec(lookup(written[name], "RefreshRate"@), 0) == g.frame_rate
        }),
{
    let name = AppVideo::section_name();
    let first = write_section(sections, name, v.body_entries());
    lemma_write_section(first, name, AppVideo::additional_entries(&g));
    reveal_with_fuel(apply_entries, 2);
    lemma_i32_text_round_trip(g.frame_rate);
}

} // verus!
