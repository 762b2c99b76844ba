//! Game patch toggles, kept in the `Patches` section with booleans written
//! as `1` / `0`.

use vstd::prelude::*;
use ini::Properties;
use crate::coerce::{
    bool_digit, bool_digit_text, coerce_bool, coerce_bool_spec, coerce_i32, coerce_i32_spec,
    coerce_ordinal, coerce_ordinal_spec, int_text, lemma_bool_texts_read_back, text_of,
};
use crate::document::{
    apply_entries, find_entry, lemma_apply_entries_concat, lemma_write_section, lookup, pairs_view, section_or_empty,
    write_section, Entries,
    IniConfig, IniConfigWrite, Sections,
};
use crate::number::{decimal_text, lemma_i32_text_round_trip, lemma_u8_text_round_trip};

verus! {

/// Which status icons the game shows; stored as its ordinal.
#[derive(Clone, Copy, Debug, PartialEq, Eq, Structural)]
pub enum StatusIcons {
    Default,
    Hidden,
    Error,
    Okay,
    PartialOk,
}

impl StatusIcons {
    pub open spec fn spec_ordinal(self) -> u8 {
        match self {
            StatusIcons::Default => 0,
            StatusIcons::Hidden => 1,
            StatusIcons::Error => 2,
            StatusIcons::Okay => 3,
            StatusIcons::PartialOk => 4,
        }
    }

    pub open spec fn spec_from_ordinal(n: u8) -> Option<StatusIcons> {
        if n == 0 {
            Some(StatusIcons::Default)
        } else if n == 1 {
            Some(StatusIcons::Hidden)
        } else if n == 2 {
            Some(StatusIcons::Error)
        } else if n == 3 {
            Some(StatusIcons::Okay)
        } else if n == 4 {
            Some(StatusIcons::PartialOk)
        } else {
            None
        }
    }

    /// The setting that an entry's text gives: a known ordinal gives its
    /// variant, anything else gives `default`.
    pub open spec fn coerce_spec(raw: Option<Seq<char>>, default: StatusIcons) -> StatusIcons {
        match coerce_ordinal_spec(raw) {
            Some(n) => match StatusIcons::spec_from_ordinal(n) {
                Some(v) => v,
                None => default,
            },
            None => default,
        }
    }

    pub fn ordinal(self) -> (r: u8)
        ensures
            r == self.spec_ordinal(),
    {
        match self {
            StatusIcons::Default => 0,
            StatusIcons::Hidden => 1,
            StatusIcons::Error => 2,
            StatusIcons::Okay => 3,
            StatusIcons::PartialOk => 4,
        }
    }

    pub fn from_ordinal(n: u8) -> (r: Option<StatusIcons>)
        ensures
            r == StatusIcons::spec_from_ordinal(n),
    {
        if n == 0 {
            Some(StatusIcons::Default)
        } else if n == 1 {
            Some(StatusIcons::Hidden)
        } else if n == 2 {
            Some(StatusIcons::Error)
        } else if n == 3 {
            Some(StatusIcons::Okay)
        } else if n == 4 {
            Some(StatusIcons::PartialOk)
        } else {
            None
        }
    }

    /// Reads the setting from an entry, falling back to `default` when the
    /// entry is missing, malformed or out of range.
    pub fn coerce(raw: Option<&str>, default: StatusIcons) -> (r: StatusIcons)
        ensures
            r == StatusIcons::coerce_spec(text_of(raw), default),
    {
        match coerce_ordinal(raw) {
            Some(n) => match StatusIcons::from_ordinal(n) {
                Some(v) => v,
                None => default,
            },
            None => default,
        }
    }

    /// The name shown for the setting.
    pub open spec fn spec_label(self) -> Seq<char> {
        match self {
            StatusIcons::Default => "Default"@,
            StatusIcons::Hidden => "Hidden"@,
            StatusIcons::Error => "Error"@,
            StatusIcons::Okay => "Ok"@,
            StatusIcons::PartialOk => "Partial Ok"@,
        }
    }

    pub fn label(self) -> (r: &'static str)
        ensures
            r@ == self.spec_label(),
    {
        match self {
            StatusIcons::Default => "Default",
            StatusIcons::Hidden => "Hidden",
            StatusIcons::Error => "Error",
            StatusIcons::Okay => "Ok",
            StatusIcons::PartialOk => "Partial Ok",
        }
    }
}

impl Default for StatusIcons {
    fn default() -> (r: StatusIcons)
        ensures
            r == StatusIcons::Default,
    {
        StatusIcons::Default
    }
}

/// Each setting's ordinal gives the setting back, and no ordinal past the
/// last setting gives one.
pub proof fn lemma_status_icons_ordinals(v: StatusIcons, n: u8)
    ensures
        StatusIcons::spec_from_ordinal(v.spec_ordinal()) == Some(v),
        n > 4 ==> StatusIcons::spec_from_ordinal(n) is None,
        StatusIcons::coerce_spec(Some(decimal_text(v.spec_ordinal() as int)), StatusIcons::Default) == v,
        n > 4 ==> StatusIcons::coerce_spec(Some(decimal_text(n as int)), StatusIcons::Default)
            == StatusIcons::Default,
{
    lemma_u8_text_round_trip(v.spec_ordinal());
    lemma_u8_text_round_trip(n);
}

/// Toggles for the game's built-in patches.
#[derive(Clone, Copy, Debug, PartialEq, Eq, Structural)]
pub struct AppPatches {
    pub disable_movies: bool,
    pub show_cursor: bool,
    pub disable_slider_emu: bool,
    pub stage_count: i32,
    pub disable_volume_buttons: bool,
    pub disable_photo_ui: bool,
    pub disable_watermark: bool,
    pub status_icons: StatusIcons,
    pub disable_lyrics: bool,
    pub disable_error_banner: bool,
    pub disable_credits_text: bool,
    pub show_pdloader_text: bool,
    pub disable_credits: bool,
    pub disable_selection_timer: bool,
    pub disable_timer_sprite: bool,
}

impl AppPatches {
    pub open spec fn spec_default() -> AppPatches {
        AppPatches {
            disable_movies: false,
            show_cursor: false,
            disable_slider_emu: false,
            stage_count: 0,
            disable_volume_buttons: true,
            disable_photo_ui: true,
            disable_watermark: true,
            status_icons: StatusIcons::Default,
            disable_lyrics: false,
            disable_error_banner: true,
            disable_credits_text: true,
            show_pdloader_text: true,
            disable_credits: true,
            disable_selection_timer: true,
            disable_timer_sprite: true,
        }
    }
}

impl AppPatches {
    /// The first eight entries of the record, in the order written.
    pub open spec fn leading_entries(&self) -> Seq<(Seq<char>, Seq<char>)> {
        seq![
            ("No_Movies"@, bool_digit(self.disable_movies)),
            ("Cursor"@, bool_digit(self.show_cursor)),
            ("Hardware_Slider"@, bool_digit(self.disable_slider_emu)),
            ("Enhanced_Stage_Manager"@, decimal_text(self.stage_count as int)),
            ("Hide_Volume"@, bool_digit(self.disable_volume_buttons)),
            ("No_PV_UI"@, bool_digit(self.disable_photo_ui)),
            ("Hide_PV_Watermark"@, bool_digit(self.disable_watermark)),
            ("Status_Icons"@, decimal_text(self.status_icons.spec_ordinal() as int)),
        ]
    }

    /// The remaining entries of the record, in the order written.
    pub open spec fn trailing_entries(&self) -> Seq<(Seq<char>, Seq<char>)> {
        seq![
            ("No_Lyrics"@, bool_digit(self.disable_lyrics)),
            ("No_Error"@, bool_digit(self.disable_error_banner)),
            ("Hide_Freeplay"@, bool_digit(self.disable_credits_text)),
            ("PDLoaderText"@, bool_digit(self.show_pdloader_text)),
            ("Freeplay"@, bool_digit(self.disable_credits)),
            ("No_Timer"@, bool_digit(self.disable_selection_timer)),
            ("No_Timer_Sprite"@, bool_digit(self.disable_timer_sprite)),
        ]
    }
}

impl Default for AppPatches {
    fn default() -> (r: AppPatches)
        ensures
            r == AppPatches::spec_default(),
    {
        AppPatches {
            disable_movies: false,
            show_cursor: false,
            disable_slider_emu: false,
            stage_count: 0,
            disable_volume_buttons: true,
            disable_photo_ui: true,
            disable_watermark: true,
            status_icons: StatusIcons::default(),
            disable_lyrics: false,
            disable_error_banner: true,
            disable_credits_text: true,
            show_pdloader_text: true,
            disable_credits: true,
            disable_selection_timer: true,
            disable_timer_sprite: true,
        }
    }
}

impl IniConfig for AppPatches {
    open spec fn section_name() -> Seq<char> {
        "Patches"@
    }

    open spec fn from_entries(entries: Entries) -> AppPatches {
        let d = AppPatches::spec_default();
        AppPatches {
            disable_movies: coerce_bool_spec(lookup(entries, "No_Movies"@), d.disable_movies),
            show_cursor: coerce_bool_spec(lookup(entries, "Cursor"@), d.show_cursor),
            disable_slider_emu: coerce_bool_spec(lookup(entries, "Hardware_Slider"@), d.disable_slider_emu),
            stage_count: coerce_i32_spec(lookup(entries, "Enhanced_Stage_Manager"@), d.stage_count),
            disable_volume_buttons: coerce_bool_spec(lookup(entries, "Hide_Volume"@), d.disable_volume_buttons),
            disable_photo_ui: coerce_bool_spec(lookup(entries, "No_PV_UI"@), d.disable_photo_ui),
            disable_watermark: coerce_bool_spec(lookup(entries, "Hide_PV_Watermark"@), d.disable_watermark),
            status_icons: StatusIcons::coerce_spec(lookup(entries, "Status_Icons"@), d.status_icons),
            disable_lyrics: coerce_bool_spec(lookup(entries, "No_Lyrics"@), d.disable_lyrics),
            disable_error_banner: coerce_bool_spec(lookup(entries, "No_Error"@), d.disable_error_banner),
            disable_credits_text: coerce_bool_spec(lookup(entries, "Hide_Freeplay"@), d.disable_credits_text),
            show_pdloader_text: coerce_bool_spec(lookup(entries, "PDLoaderText"@), d.show_pdloader_text),
            disable_credits: coerce_bool_spec(lookup(entries, "Freeplay"@), d.disable_credits),
            disable_selection_timer: coerce_bool_spec(lookup(entries, "No_Timer"@), d.disable_selection_timer),
            disable_timer_sprite: coerce_bool_spec(lookup(entries, "No_Timer_Sprite"@), d.disable_timer_sprite),
        }
    }

    fn section() -> (r: &'static str) {
        "Patches"
    }

    #[verifier::rlimit(100)]
    fn read_body(props: &Properties) -> (r: AppPatches) {
        let d = AppPatches::default();
        AppPatches {
            disable_movies: coerce_bool(find_entry(props, "No_Movies"), d.disable_movies),
            show_cursor: coerce_bool(find_entry(props, "Cursor"), d.show_cursor),
            disable_slider_emu: coerce_bool(find_entry(props, "Hardware_Slider"), d.disable_slider_emu),
            stage_count: coerce_i32(find_entry(props, "Enhanced_Stage_Manager"), d.stage_count),
            disable_volume_buttons: coerce_bool(find_entry(props, "Hide_Volume"), d.disable_volume_buttons),
            disable_photo_ui: coerce_bool(find_entry(props, "No_PV_UI"), d.disable_photo_ui),
            disable_watermark: coerce_bool(find_entry(props, "Hide_PV_Watermark"), d.disable_watermark),
            status_icons: StatusIcons::coerce(find_entry(props, "Status_Icons"), d.status_icons),
            disable_lyrics: coerce_bool(find_entry(props, "No_Lyrics"), d.disable_lyrics),
            disable_error_banner: coerce_bool(find_entry(props, "No_Error"), d.disable_error_banner),
            disable_credits_text: coerce_bool(find_entry(props, "Hide_Freeplay"), d.disable_credits_text),
            show_pdloader_text: coerce_bool(find_entry(props, "PDLoaderText"), d.show_pdloader_text),
            disable_credits: coerce_bool(find_entry(props, "Freeplay"), d.disable_credits),
            disable_selection_timer: coerce_bool(find_entry(props, "No_Timer"), d.disable_selection_timer),
            disable_timer_sprite: coerce_bool(find_entry(props, "No_Timer_Sprite"), d.disable_timer_sprite),
        }
    }
}

impl IniConfigWrite for AppPatches {
    open spec fn body_entries(&self) -> Seq<(Seq<char>, Seq<char>)> {
        self.leading_entries() + self.trailing_entries()
    }

    #[verifier::rlimit(100)]
    fn write_body(&self) -> (r: Vec<(String, String)>) {
        let mut r: Vec<(String, String)> = Vec::new();
        r.push(("No_Movies".to_owned(), bool_digit_text(self.disable_movies)));
        r.push(("Cursor".to_owned(), bool_digit_text(self.show_cursor)));
        r.push(("Hardware_Slider".to_owned(), bool_digit_text(self.disable_slider_emu)));
        r.push(("Enhanced_Stage_Manager".to_owned(), int_text(self.stage_count)));
        r.push(("Hide_Volume".to_owned(), bool_digit_text(self.disable_volume_buttons)));
        r.push(("No_PV_UI".to_owned(), bool_digit_text(self.disable_photo_ui)));
        r.push(("Hide_PV_Watermark".to_owned(), bool_digit_text(self.disable_watermark)));
        r.push(("Status_Icons".to_owned(), int_text(self.status_icons.ordinal() as i32)));
        r.push(("No_Lyrics".to_owned(), bool_digit_text(self.disable_lyrics)));
        r.push(("No_Error".to_owned(), bool_digit_text(self.disable_error_banner)));
        r.push(("Hide_Freeplay".to_owned(), bool_digit_text(self.disable_credits_text)));
        r.push(("PDLoaderText".to_owned(), bool_digit_text(self.show_pdloader_text)));
        r.push(("Freeplay".to_owned(), bool_digit_text(self.disable_credits)));
        r.push(("No_Timer".to_owned(), bool_digit_text(self.disable_selection_timer)));
        r.push(("No_Timer_Sprite".to_owned(), bool_digit_text(self.disable_timer_sprite)));
        assert(pairs_view(r@) =~= self.leading_entries() + self.trailing_entries());
        r
    }
}

/// The keys of the `Patches` section, by length and by a character that
/// tells apart keys of one length.
proof fn lemma_key_texts()
    ensures
        "No_Movies"@.len() == 9,
        "No_Lyrics"@.len() == 9,
        "No_Movies"@[3] != "No_Lyrics"@[3],
        "Cursor"@.len() == 6,
        "Enhanced_Stage_Manager"@.len() == 22,
        "Hardware_Slider"@.len() == 15,
        "No_Timer_Sprite"@.len() == 15,
        "Hardware_Slider"@[0] != "No_Timer_Sprite"@[0],
        "Hide_Volume"@.len() == 11,
        "Hide_PV_Watermark"@.len() == 17,
        "Hide_Freeplay"@.len() == 13,
        "Status_Icons"@.len() == 12,
        "PDLoaderText"@.len() == 12,
        "Status_Icons"@[0] != "PDLoaderText"@[0],
        "No_PV_UI"@.len() == 8,
        "No_Error"@.len() == 8,
        "Freeplay"@.len() == 8,
        "No_Timer"@.len() == 8,
        "No_PV_UI"@[3] == 'P',
        "No_Error"@[3] == 'E',
        "No_Timer"@[3] == 'T',
        "Freeplay"@[3] == 'e',
{
    reveal_strlit("No_Movies");
    reveal_strlit("Cursor");
    reveal_strlit("Hardware_Slider");
    reveal_strlit("Enhanced_Stage_Manager");
    reveal_strlit("Hide_Volume");
    reveal_strlit("No_PV_UI");
    reveal_strlit("Hide_PV_Watermark");
    reveal_strlit("Status_Icons");
    reveal_strlit("No_Lyrics");
    reveal_strlit("No_Error");
    reveal_strlit("Hide_Freeplay");
    reveal_strlit("PDLoaderText");
    reveal_strlit("Freeplay");
    reveal_strlit("No_Timer");
    reveal_strlit("No_Timer_Sprite");
}

/// The first eight entries, once set, are found under their keys.
proof fn lemma_leading_lookups(p: AppPatches, e: Entries)
    ensures
        lookup(apply_entries(e, p.leading_entries()), "No_Movies"@) == Some(bool_digit(p.disable_movies)),
        lookup(apply_entries(e, p.leading_entries()), "Cursor"@) == Some(bool_digit(p.show_cursor)),
        lookup(apply_entries(e, p.leading_entries()), "Hardware_Slider"@) == Some(bool_digit(p.disable_slider_emu)),
        lookup(apply_entries(e, p.leading_entries()), "Enhanced_Stage_Manager"@) == Some(decimal_text(p.stage_count as int)),
        lookup(apply_entries(e, p.leading_entries()), "Hide_Volume"@) == Some(bool_digit(p.disable_volume_buttons)),
        lookup(apply_entries(e, p.leading_entries()), "No_PV_UI"@) == Some(bool_digit(p.disable_photo_ui)),
        lookup(apply_entries(e, p.leading_entries()), "Hide_PV_Watermark"@) == Some(bool_digit(p.disable_watermark)),
        lookup(apply_entries(e, p.leading_entries()), "Status_Icons"@) == Some(decimal_text(p.status_icons.spec_ordinal() as int)),
{
    lemma_key_texts();
    reveal_with_fuel(apply_entries, 9);
}

/// The remaining entries, once set, are found under their keys, and the
/// first eight keys keep what they had.
#[verifier::rlimit(40)]
proof fn lemma_trailing_lookups(p: AppPatches, m: Entries)
    ensures
        lookup(apply_entries(m, p.trailing_entries()), "No_Lyrics"@) == Some(bool_digit(p.disable_lyrics)),
        lookup(apply_entries(m, p.trailing_entries()), "No_Error"@) == Some(bool_digit(p.disable_error_banner)),
        lookup(apply_entries(m, p.trailing_entries()), "Hide_Freeplay"@) == Some(bool_digit(p.disable_credits_text)),
        lookup(apply_entries(m, p.trailing_entries()), "PDLoaderText"@) == Some(bool_digit(p.show_pdloader_text)),
        lookup(apply_entries(m, p.trailing_entries()), "Freeplay"@) == Some(bool_digit(p.disable_credits)),
        lookup(apply_entries(m, p.trailing_entries()), "No_Timer"@) == Some(bool_digit(p.disable_selection_timer)),
        lookup(apply_entries(m, p.trailing_entries()), "No_Timer_Sprite"@) == Some(bool_digit(p.disable_timer_sprite)),
        lookup(apply_entries(m, p.trailing_entries()), "No_Movies"@) == lookup(m, "No_Movies"@),
        lookup(apply_entries(m, p.trailing_entries()), "Cursor"@) == lookup(m, "Cursor"@),
        lookup(apply_entries(m, p.trailing_entries()), "Hardware_Slider"@) == lookup(m, "Hardware_Slider"@),
        lookup(apply_entries(m, p.trailing_entries()), "Enhanced_Stage_Manager"@) == lookup(m, "Enhanced_Stage_Manager"@),
        lookup(apply_entries(m, p.trailing_entries()), "Hide_Volume"@) == lookup(m, "Hide_Volume"@),
        lookup(apply_entries(m, p.trailing_entries()), "No_PV_UI"@) == lookup(m, "No_PV_UI"@),
        lookup(apply_entries(m, p.trailing_entries()), "Hide_PV_Watermark"@) == lookup(m, "Hide_PV_Watermark"@),
        lookup(apply_entries(m, p.trailing_entries()), "Status_Icons"@) == lookup(m, "Status_Icons"@),
{
    lemma_key_texts();
    reveal_with_fuel(apply_entries, 8);
}

/// Writing patch toggles into any document and reading its `Patches`
/// section back gives the same toggles.
pub proof fn lemma_patches_round_trip(p: AppPatches, sections: Sections)
    ensures
        ({
            let written = write_section(sections, AppPatches::section_name(), p.body_entries());
            &&& written.contains_key(AppPatches::section_name())
            &&& AppPatches::from_entries(written[AppPatches::section_name()]) == p
        }),
{
    let name = AppPatches::section_name();
    lemma_write_section(sections, name, p.body_entries());
    let e = section_or_empty(sections, name);
    lemma_apply_entries_concat(e, p.leading_entries(), p.trailing_entries());
    let lead = apply_entries(e, p.leading_entries());
    lemma_leading_lookups(p, e);
    lemma_trailing_lookups(p, lead);
    lemma_bool_texts_read_back(p.disable_movies, false);
    lemma_bool_texts_read_back(p.show_cursor, false);
    lemma_bool_texts_read_back(p.disable_slider_emu, false);
    lemma_i32_text_round_trip(p.stage_count);
    lemma_bool_texts_read_back(p.disable_volume_buttons, true);
    lemma_bool_texts_read_back(p.disable_photo_ui, true);
    lemma_bool_texts_read_back(p.disable_watermark, true);
    lemma_status_icons_ordinals(p.status_icons, 0);
    lemma_bool_texts_read_back(p.disable_lyrics, false);
    lemma_bool_texts_read_back(p.disable_error_banner, true);
    lemma_bool_texts_read_back(p.disable_credits_text, true);
    lemma_bool_texts_read_back(p.show_pdloader_text, true);
    lemma_bool_texts_read_back(p.disable_credits, true);
    lemma_bool_texts_read_back(p.disable_selection_timer, true);
    lemma_bool_texts_read_back(p.disable_timer_sprite, true);
    let all = apply_entries(lead, p.trailing_entries());
    assert(AppPatches::from_entries(all) == p);
}

} // verus!
