//! Engine component toggles, kept in the `components` section with
//! booleans written as `true` / `false`. The section also carries two
//! entries that follow the patch toggles.

use vstd::prelude::*;
use ini::Properties;
use crate::coerce::{
    bool_word, bool_word_text, coerce_bool, coerce_bool_spec, coerce_i32, coerce_i32_spec,
    int_text, lemma_bool_texts_read_back,
};
use crate::document::{
    apply_entries, find_entry, lemma_apply_entries_concat, lemma_write_section, lookup,
    pairs_view, section_or_empty, write_section, Entries, IniConfig, IniConfigWriteCtx, Sections,
};
use crate::number::{decimal_text, lemma_i32_text_round_trip};
use crate::patch::AppPatches;

verus! {

/// Which engine components run, and how fast the fast loader is.
#[derive(Clone, Copy, Debug, PartialEq, Eq, Structural)]
pub struct AppComponents {
    pub enable_input_emulator: bool,
    pub enable_touch_emulator: bool,
    pub enable_player_data_manager: bool,
    pub enable_frame_rate_manager: bool,
    pub enable_fast_loader: bool,
    pub fast_loader_speed: i32,
    pub enable_camera_controller: bool,
    pub enable_scaling: bool,
    pub enable_dwgui: bool,
    pub enable_hold_transfer: bool,
    pub enable_score_saving: bool,
    pub enable_pausing: bool,
}

impl AppComponents {
    pub open spec fn spec_default() -> AppComponents {
        AppComponents {
            enable_input_emulator: true,
            enable_touch_emulator: true,
            enable_player_data_manager: true,
            enable_frame_rate_manager: true,
            enable_fast_loader: true,
            fast_loader_speed: 39,
            enable_camera_controller: true,
            enable_scaling: true,
            enable_dwgui: true,
            enable_hold_transfer: true,
            enable_score_saving: true,
            enable_pausing: true,
        }
    }

    /// The first six entries of the record, in the order written.
    pub open spec fn leading_entries(&self) -> Seq<(Seq<char>, Seq<char>)> {
        seq![
            ("input_emulator"@, bool_word(self.enable_input_emulator)),
            ("touch_panel_emulator"@, bool_word(self.enable_touch_emulator)),
            ("player_data_manager"@, bool_word(self.enable_player_data_manager)),
            ("frame_rate_manager"@, bool_word(self.enable_frame_rate_manager)),
            ("fast_loader"@, bool_word(self.enable_fast_loader)),
            ("fast_loader_speed"@, decimal_text(self.fast_loader_speed as int)),
        ]
    }

    /// The remaining entries of the record, in the order written.
    pub open spec fn trailing_entries(&self) -> Seq<(Seq<char>, Seq<char>)> {
        seq![
            ("camera_controller"@, bool_word(self.enable_camera_controller)),
            ("scale_component"@, bool_word(self.enable_scaling)),
            ("debug_component"@, bool_word(self.enable_dwgui)),
            ("target_inspector"@, bool_word(self.enable_hold_transfer)),
            ("score_saver"@, bool_word(self.enable_score_saving)),
            ("pause"@, bool_word(self.enable_pausing)),
        ]
    }
}

impl Default for AppComponents {
    fn default() -> (r: AppComponents)
        ensures
            r == AppComponents::spec_default(),
    {
        AppComponents {
            enable_input_emulator: true,
            enable_touch_emulator: true,
            enable_player_data_manager: true,
            enable_frame_rate_manager: true,
            enable_fast_loader: true,
            fast_loader_speed: 39,
            enable_camera_controller: true,
            enable_scaling: true,
            enable_dwgui: true,
            enable_hold_transfer: true,
            enable_score_saving: true,
            enable_pausing: true,
        }
    }
}

impl IniConfig for AppComponents {
    open spec fn section_name() -> Seq<char> {
        "components"@
    }

    open spec fn from_entries(entries: Entries) -> AppComponents {
        let d = AppComponents::spec_default();
        AppComponents {
            enable_input_emulator: coerce_bool_spec(lookup(entries, "input_emulator"@), d.enable_input_emulator),
            enable_touch_emulator: coerce_bool_spec(lookup(entries, "touch_panel_emulator"@), d.enable_touch_emulator),
            enable_player_data_manager: coerce_bool_spec(lookup(entries, "player_data_manager"@), d.enable_player_data_manager),
            enable_frame_rate_manager: coerce_bool_spec(lookup(entries, "frame_rate_manager"@), d.enable_frame_rate_manager),
            enable_fast_loader: coerce_bool_spec(lookup(entries, "fast_loader"@), d.enable_fast_loader),
            fast_loader_speed: coerce_i32_spec(lookup(entries, "fast_loader_speed"@), d.fast_loader_speed),
            enable_camera_controller: coerce_bool_spec(lookup(entries, "camera_controller"@), d.enable_camera_controller),
            enable_scaling: coerce_bool_spec(lookup(entries, "scale_component"@), d.enable_scaling),
            enable_dwgui: coerce_bool_spec(lookup(entries, "debug_component"@), d.enable_dwgui),
            enable_hold_transfer: coerce_bool_spec(lookup(entries, "target_inspector"@), d.enable_hold_transfer),
            enable_score_saving: coerce_bool_spec(lookup(entries, "score_saver"@), d.enable_score_saving),
            enable_pausing: coerce_bool_spec(lookup(entries, "pause"@), d.enable_pausing),
        }
    }

    fn section() -> (r: &'static str) {
        "components"
    }

    #[verifier::rlimit(100)]
    fn read_body(props: &Properties) -> (r: AppComponents) {
        let d = AppComponents::default();
        AppComponents {
            enable_input_emulator: coerce_bool(find_entry(props, "input_emulator"), d.enable_input_emulator),
            enable_touch_emulator: coerce_bool(find_entry(props, "touch_panel_emulator"), d.enable_touch_emulator),
            enable_player_data_manager: coerce_bool(find_entry(props, "player_data_manager"), d.enable_player_data_manager),
            enable_frame_rate_manager: coerce_bool(find_entry(props, "frame_rate_manager"), d.enable_frame_rate_manager),
            enable_fast_loader: coerce_bool(find_entry(props, "fast_loader"), d.enable_fast_loader),
            fast_loader_speed: coerce_i32(find_entry(props, "fast_loader_speed"), d.fast_loader_speed),
            enable_camera_controller: coerce_bool(find_entry(props, "camera_controller"), d.enable_camera_controller),
            enable_scaling: coerce_bool(find_entry(props, "scale_component"), d.enable_scaling),
            enable_dwgui: coerce_bool(find_entry(props, "debug_component"), d.enable_dwgui),
            enable_hold_transfer: coerce_bool(find_entry(props, "target_inspector"), d.enable_hold_transfer),
            enable_score_saving: coerce_bool(find_entry(props, "score_saver"), d.enable_score_saving),
            enable_pausing: coerce_bool(find_entry(props, "pause"), d.enable_pausing),
        }
    }
}

impl IniConfigWriteCtx for AppComponents {
    type Context = AppPatches;

    open spec fn body_entries(&self) -> Seq<(Seq<char>, Seq<char>)> {
        self.leading_entries() + self.trailing_entries()
    }

    /// Slider emulation runs unless the patches disable it, and the
    /// selection timer follows the patches' setting.
    open spec fn additional_entries(add: &AppPatches) -> Seq<(Seq<char>, Seq<char>)> {
        seq![
            ("touch_slider_emulator"@, bool_word(!add.disable_slider_emu)),
            ("sys_timer"@, bool_word(add.disable_selection_timer)),
        ]
    }

    #[verifier::rlimit(100)]
    fn write_body(&self) -> (r: Vec<(String, String)>) {
        let mut r: Vec<(String, String)> = Vec::new();
        r.push(("input_emulator".to_owned(), bool_word_text(self.enable_input_emulator)));
        r.push(("touch_panel_emulator".to_owned(), bool_word_text(self.enable_touch_emulator)));
        r.push(("player_data_manager".to_owned(), bool_word_text(self.enable_player_data_manager)));
        r.push(("frame_rate_manager".to_owned(), bool_word_text(self.enable_frame_rate_manager)));
        r.push(("fast_loader".to_owned(), bool_word_text(self.enable_fast_loader)));
        r.push(("fast_loader_speed".to_owned(), int_text(self.fast_loader_speed)));
        r.push(("camera_controller".to_owned(), bool_word_text(self.enable_camera_controller)));
        r.push(("scale_component".to_owned(), bool_word_text(self.enable_scaling)));
        r.push(("debug_component".to_owned(), bool_word_text(self.enable_dwgui)));
        r.push(("target_inspector".to_owned(), bool_word_text(self.enable_hold_transfer)));
        r.push(("score_saver".to_owned(), bool_word_text(self.enable_score_saving)));
        r.push(("pause".to_owned(), bool_word_text(self.enable_pausing)));
        assert(pairs_view(r@) =~= self.leading_entries() + self.trailing_entries());
        r
    }

    fn write_additional(add: &AppPatches) -> (r: Vec<(String, String)>) {
        let mut r: Vec<(String, String)> = Vec::new();
        r.push(("touch_slider_emulator".to_owned(), bool_word_text(!add.disable_slider_emu)));
        r.push(("sys_timer".to_owned(), bool_word_text(add.disable_selection_timer)));
        assert(pairs_view(r@) =~= Self::additional_entries(add));
        r
    }
}

/// The keys of the `components` section, by length and by a character that
/// tells apart keys of one length.
proof fn lemma_key_texts()
    ensures
        "input_emulator"@.len() == 14,
        "touch_panel_emulator"@.len() == 20,
        "player_data_manager"@.len() == 19,
        "frame_rate_manager"@.len() == 18,
        "fast_loader"@.len() == 11,
        "score_saver"@.len() == 11,
        "fast_loader"@[0] == 'f',
        "score_saver"@[0] == 's',
        "fast_loader_speed"@.len() == 17,
        "camera_controller"@.len() == 17,
        "fast_loader_speed"@[0] == 'f',
        "camera_controller"@[0] == 'c',
        "scale_component"@.len() == 15,
        "debug_component"@.len() == 15,
        "scale_component"@[0] == 's',
        "debug_component"@[0] == 'd',
        "target_inspector"@.len() == 16,
        "pause"@.len() == 5,
        "touch_slider_emulator"@.len() == 21,
        "sys_timer"@.len() == 9,
{
    reveal_strlit("input_emulator");
    reveal_strlit("touch_panel_emulator");
    reveal_strlit("player_data_manager");
    reveal_strlit("frame_rate_manager");
    reveal_strlit("fast_loader");
    reveal_strlit("fast_loader_speed");
    reveal_strlit("camera_controller");
    reveal_strlit("scale_component");
    reveal_strlit("debug_component");
    reveal_strlit("target_inspector");
    reveal_strlit("score_saver");
    reveal_strlit("pause");
    reveal_strlit("touch_slider_emulator");
    reveal_strlit("sys_timer");
}

/// The first six entries, once set, are found under their keys.
proof fn lemma_leading_lookups(c: AppComponents, e: Entries)
    ensures
        lookup(apply_entries(e, c.leading_entries()), "input_emulator"@) == Some(bool_word(c.enable_input_emulator)),
        lookup(apply_entries(e, c.leading_entries()), "touch_panel_emulator"@) == Some(bool_word(c.enable_touch_emulator)),
        lookup(apply_entries(e, c.leading_entries()), "player_data_manager"@) == Some(bool_word(c.enable_player_data_manager)),
        lookup(apply_entries(e, c.leading_entries()), "frame_rate_manager"@) == Some(bool_word(c.enable_frame_rate_manager)),
        lookup(apply_entries(e, c.leading_entries()), "fast_loader"@) == Some(bool_word(c.enable_fast_loader)),
        lookup(apply_entries(e, c.leading_entries()), "fast_loader_speed"@) == Some(decimal_text(c.fast_loader_speed as int)),
{
    lemma_key_texts();
    reveal_with_fuel(apply_entries, 7);
}

/// The remaining entries, once set, are found under their keys, and the
/// first six keys keep what they had.
proof fn lemma_trailing_lookups(c: AppComponents, m: Entries)
    ensures
        lookup(apply_entries(m, c.trailing_entries()), "camera_controller"@) == Some(bool_word(c.enable_camera_controller)),
        lookup(apply_entries(m, c.trailing_entries()), "scale_component"@) == Some(bool_word(c.enable_scaling)),
        lookup(apply_entries(m, c.trailing_entries()), "debug_component"@) == Some(bool_word(c.enable_dwgui)),
        lookup(apply_entries(m, c.trailing_entries()), "target_inspector"@) == Some(bool_word(c.enable_hold_transfer)),
        lookup(apply_entries(m, c.trailing_entries()), "score_saver"@) == Some(bool_word(c.enable_score_saving)),
        lookup(apply_entries(m, c.trailing_entries()), "pause"@) == Some(bool_word(c.enable_pausing)),
        lookup(apply_entries(m, c.trailing_entries()), "input_emulator"@) == lookup(m, "input_emulator"@),
        lookup(apply_entries(m, c.trailing_entries()), "touch_panel_emulator"@) == lookup(m, "touch_panel_emulator"@),
        lookup(apply_entries(m, c.trailing_entries()), "player_data_manager"@) == lookup(m, "player_data_manager"@),
        lookup(apply_entries(m, c.trailing_entries()), "frame_rate_manager"@) == lookup(m, "frame_rate_manager"@),
        lookup(apply_entries(m, c.trailing_entries()), "fast_loader"@) == lookup(m, "fast_loader"@),
        lookup(apply_entries(m, c.trailing_entries()), "fast_loader_speed"@) == lookup(m, "fast_loader_speed"@),
{
    lemma_key_texts();
    reveal_with_fuel(apply_entries, 7);
}

/// The derived entries, once set, are found under their keys, and the
/// record's own keys keep what they had.
proof fn lemma_additional_lookups(add: AppPatches, m: Entries)
    ensures
        lookup(apply_entries(m, AppComponents::additional_entries(&add)), "touch_slider_emulator"@) == Some(bool_word(!add.disable_slider_emu)),
        lookup(apply_entries(m, AppComponents::additional_entries(&add)), "sys_timer"@) == Some(bool_word(add.disable_selection_timer)),
        lookup(apply_entries(m, AppComponents::additional_entries(&add)), "input_emulator"@) == lookup(m, "input_emulator"@),
        lookup(apply_entries(m, AppComponents::additional_entries(&add)), "touch_panel_emulator"@) == lookup(m, "touch_panel_emulator"@),
        lookup(apply_entries(m, AppComponents::additional_entries(&add)), "player_data_manager"@) == lookup(m, "player_data_manager"@),
        lookup(apply_entries(m, AppComponents::additional_entries(&add)), "frame_rate_manager"@) == lookup(m, "frame_rate_manager"@),
        lookup(apply_entries(m, AppComponents::additional_entries(&add)), "fast_loader"@) == lookup(m, "fast_loader"@),
        lookup(apply_entries(m, AppComponents::additional_entries(&add)), "fast_loader_speed"@) == lookup(m, "fast_loader_speed"@),
        lookup(apply_entries(m, AppComponents::additional_entries(&add)), "camera_controller"@) == lookup(m, "camera_controller"@),
        lookup(apply_entries(m, AppComponents::additional_entries(&add)), "scale_component"@) == lookup(m, "scale_component"@),
        lookup(apply_entries(m, AppComponents::additional_entries(&add)), "debug_component"@) == lookup(m, "debug_component"@),
        lookup(apply_entries(m, AppComponents::additional_entries(&add)), "target_inspector"@) == lookup(m, "target_inspector"@),
        lookup(apply_entries(m, AppComponents::additional_entries(&add)), "score_saver"@) == lookup(m, "score_saver"@),
        lookup(apply_entries(m, AppComponents::additional_entries(&add)), "pause"@) == lookup(m, "pause"@),
{
    lemma_key_texts();
    reveal_with_fuel(apply_entries, 3);
}

/// Writing component toggles, with the entries derived from any patch
/// toggles, into any document and reading its `components` section back
/// gives the same component toggles.
pub proof fn lemma_components_round_trip(c: AppComponents, add: AppPatches, sections: Sections)
    ensures
        ({
            let name = AppComponents::section_name();
            let written = write_section(
                write_section(sections, name, c.body_entries()),
                name,
                AppComponents::additional_entries(&add),
            );
            &&& written.contains_key(name)
            &&& AppComponents::from_entries(written[name]) == c
        }),
{
    let name = AppComponents::section_name();
    let first = write_section(sections, name, c.body_entries());
    lemma_write_section(sections, name, c.body_entries());
    lemma_write_section(first, name, AppComponents::additional_entries(&add));
    let e = section_or_empty(sections, name);
    lemma_apply_entries_concat(e, c.leading_entries(), c.trailing_entries());
    let lead = apply_entries(e, c.leading_entries());
    let body = apply_entries(lead, c.trailing_entries());
    lemma_leading_lookups(c, e);
    lemma_trailing_lookups(c, lead);
    lemma_additional_lookups(add, body);
    lemma_bool_texts_read_back(c.enable_input_emulator, true);
    lemma_bool_texts_read_back(c.enable_touch_emulator, true);
    lemma_bool_texts_read_back(c.enable_player_data_manager, true);
    lemma_bool_texts_read_back(c.enable_frame_rate_manager, true);
    lemma_bool_texts_read_back(c.enable_fast_loader, true);
    lemma_i32_text_round_trip(c.fast_loader_speed);
    lemma_bool_texts_read_back(c.enable_camera_controller, true);
    lemma_bool_texts_read_back(c.enable_scaling, true);
    lemma_bool_texts_read_back(c.enable_dwgui, true);
    lemma_bool_texts_read_back(c.enable_hold_transfer, true);
    lemma_bool_texts_read_back(c.enable_score_saving, true);
    lemma_bool_texts_read_back(c.enable_pausing, true);
    let written = write_section(first, name, AppComponents::additional_entries(&add));
    assert(AppComponents::from_entries(written[name]) == c);
}

/// The `components` section written with patch toggles as context reads
/// back slider emulation as the negation of the patches' hardware-slider
/// toggle, and the system timer as the patches' selection-timer toggle.
pub proof fn lemma_components_derived_entries(c: AppComponents, add: AppPatches, sections: Sections)
    ensures
        ({
            let name = AppComponents::section_name();
            let written = write_section(
                write_section(sections, name, c.body_entries()),
                name,
                AppComponents::additional_entries(&add),
            );
            &&& lookup(written[name], "touch_slider_emulator"@) == Some(bool_word(!add.disable_slider_emu))
            &&& coerce_bool_spec(lookup(written[name], "touch_slider_emulator"@), true) == !add.disable_slider_emu
            &&& lookup(written[name], "sys_timer"@) == Some(bool_word(add.disable_selection_timer))
            &&& coerce_bool_spec(lookup(written[name], "sys_timer"@), true) == add.disable_selection_timer
        }),
{
    let name = AppComponents::section_name();
    let first = write_section(sections, name, c.body_entries());
    lemma_write_section(first, name, AppComponents::additional_entries(&add));
    lemma_additional_lookups(add, section_or_empty(first, name));
    lemma_bool_texts_read_back(!add.disable_slider_emu, true);
    lemma_bool_texts_read_back(add.disable_selection_timer, true);
}

} // verus!
