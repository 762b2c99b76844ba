//! Graphics settings, kept in the `Graphics` section with booleans written
//! as `1` / `0`.

use vstd::prelude::*;
use ini::Properties;
use crate::coerce::{
    bool_digit, bool_digit_text, coerce_bool, coerce_bool_spec, coerce_i32, coerce_i32_spec,
    int_text, lemma_bool_texts_read_back,
};
use crate::document::{
    apply_entries, find_entry, lemma_write_section, lookup, write_section,
    Entries, IniConfig, IniConfigWrite, Sections,
};
use crate::number::{decimal_text, lemma_i32_text_round_trip};

verus! {

/// Rendering options and the frame-rate limit.
#[derive(Clone, Copy, Debug, PartialEq, Eq, Structural)]
pub struct AppGraphics {
    pub taa_enabled: bool,
    pub mlaa_enabled: bool,
    pub glare_enabled: bool,
    pub depth_of_field_enabled: bool,
    pub frame_rate: i32,
    pub gamma: i32,
    pub reflections_enabled: bool,
    pub shadows_enabled: bool,
    pub transparency_enabled: bool,
    pub disable_3d: bool,
}

impl AppGraphics {
    pub open spec fn spec_default() -> AppGraphics {
        AppGraphics {
            taa_enabled: false,
            mlaa_enabled: true,
            glare_enabled: false,
            depth_of_field_enabled: true,
            frame_rate: 60,
            gamma: 100,
            reflections_enabled: true,
            shadows_enabled: true,
            transparency_enabled: true,
            disable_3d: false,
        }
    }
}

impl Default for AppGraphics {
    fn default() -> (r: AppGraphics)
        ensures
            r == AppGraphics::spec_default(),
    {
        AppGraphics {
            taa_enabled: false,
            mlaa_enabled: true,
            glare_enabled: false,
            depth_of_field_enabled: true,
            frame_rate: 60,
            gamma: 100,
            reflections_enabled: true,
            shadows_enabled: true,
            transparency_enabled: true,
            disable_3d: false,
        }
    }
}

impl IniConfig for AppGraphics {
    open spec fn section_name() -> Seq<char> {
        "Graphics"@
    }

    open spec fn from_entries(entries: Entries) -> AppGraphics {
        let d = AppGraphics::spec_default();
        AppGraphics {
            taa_enabled: coerce_bool_spec(lookup(entries, "TAA"@), d.taa_enabled),
            mlaa_enabled: coerce_bool_spec(lookup(entries, "MLAA"@), d.mlaa_enabled),
            glare_enabled: coerce_bool_spec(lookup(entries, "Glare"@), d.glare_enabled),
            depth_of_field_enabled: coerce_bool_spec(lookup(entries, "DOF"@), d.depth_of_field_enabled),
            frame_rate: coerce_i32_spec(lookup(entries, "FPS.Limit"@), d.frame_rate),
            gamma: coerce_i32_spec(lookup(entries, "Gamma"@), d.gamma),
            reflections_enabled: coerce_bool_spec(lookup(entries, "Reflections"@), d.reflections_enabled),
            shadows_enabled: coerce_bool_spec(lookup(entries, "Shadows"@), d.shadows_enabled),
            transparency_enabled: coerce_bool_spec(lookup(entries, "Punchthrough"@), d.transparency_enabled),
            disable_3d: coerce_bool_spec(lookup(entries, "2D"@), d.disable_3d),
        }
    }

    fn section() -> (r: &'static str) {
        "Graphics"
    }

    fn read_body(props: &Properties) -> (r: AppGraphics) {
        let d = AppGraphics::default();
        AppGraphics {
            taa_enabled: coerce_bool(find_entry(props, "TAA"), d.taa_enabled),
            mlaa_enabled: coerce_bool(find_entry(props, "MLAA"), d.mlaa_enabled),
            glare_enabled: coerce_bool(find_entry(props, "Glare"), d.glare_enabled),
            depth_of_field_enabled: coerce_bool(find_entry(props, "DOF"), d.depth_of_field_enabled),
            frame_rate: coerce_i32(find_entry(props, "FPS.Limit"), d.frame_rate),
            gamma: coerce_i32(find_entry(props, "Gamma"), d.gamma),
            reflections_enabled: coerce_bool(find_entry(props, "Reflections"), d.reflections_enabled),
            shadows_enabled: coerce_bool(find_entry(props, "Shadows"), d.shadows_enabled),
            transparency_enabled: coerce_bool(find_entry(props, "Punchthrough"), d.transparency_enabled),
            disable_3d: coerce_bool(find_entry(props, "2D"), d.disable_3d),
        }
    }
}

impl IniConfigWrite for AppGraphics {
    open spec fn body_entries(&self) -> Seq<(Seq<char>, Seq<char>)> {
        seq![
            ("TAA"@, bool_digit(self.taa_enabled)),
            ("MLAA"@, bool_digit(self.mlaa_enabled)),
            ("Glare"@, bool_digit(self.glare_enabled)),
            ("DOF"@, bool_digit(self.depth_of_field_enabled)),
            ("FPS.Limit"@, decimal_text(self.frame_rate as int)),
            ("Gamma"@, decimal_text(self.gamma as int)),
            ("Reflections"@, bool_digit(self.reflections_enabled)),
            ("Shadows"@, bool_digit(self.shadows_enabled)),
            ("Punchthrough"@, bool_digit(self.transparency_enabled)),
            ("2D"@, bool_digit(self.disable_3d)),
        ]
    }

    fn write_body(&self) -> (r: Vec<(String, String)>) {
        let mut r: Vec<(String, String)> = Vec::new();
        r.push(("TAA".to_owned(), bool_digit_text(self.taa_enabled)));
        r.push(("MLAA".to_owned(), bool_digit_text(self.mlaa_enabled)));
        r.push(("Glare".to_owned(), bool_digit_text(self.glare_enabled)));
        r.push(("DOF".to_owned(), bool_digit_text(self.depth_of_field_enabled)));
        r.push(("FPS.Limit".to_owned(), int_text(self.frame_rate)));
        r.push(("Gamma".to_owned(), int_text(self.gamma)));
        r.push(("Reflections".to_owned(), bool_digit_text(self.reflections_enabled)));
        r.push(("Shadows".to_owned(), bool_digit_text(self.shadows_enabled)));
        r.push(("Punchthrough".to_owned(), bool_digit_text(self.transparency_enabled)));
        r.push(("2D".to_owned(), bool_digit_text(self.disable_3d)));
        assert(crate::document::pairs_view(r@) =~= self.body_entries());
        r
    }
}

/// Writing graphics settings into any document and reading its `Graphics`
/// section back gives the same settings.
pub proof fn lemma_graphics_round_trip(g: AppGraphics, sections: Sections)
    ensures
        ({
            let written = write_section(sections, AppGraphics::section_name(), g.body_entries());
            &&& written.contains_key(AppGraphics::section_name())
            &&& AppGraphics::from_entries(written[AppGraphics::section_name()]) == g
        }),
{
    let name = AppGraphics::section_name();
    let pairs = g.body_entries();
    lemma_write_section(sections, name, pairs);
    reveal_with_fuel(apply_entries, 11);
    reveal_strlit("TAA");
    reveal_strlit("MLAA");
    reveal_strlit("Glare");
    reveal_strlit("DOF");
    reveal_strlit("FPS.Limit");
    reveal_strlit("Gamma");
    reveal_strlit("Reflections");
    reveal_strlit("Shadows");
    reveal_strlit("Punchthrough");
    reveal_strlit("2D");
    lemma_bool_texts_read_back(g.taa_enabled, false);
    lemma_bool_texts_read_back(g.mlaa_enabled, true);
    lemma_bool_texts_read_back(g.glare_enabled, false);
    lemma_bool_texts_read_back(g.depth_of_field_enabled, true);
    lemma_bool_texts_read_back(g.reflections_enabled, true);
    lemma_bool_texts_read_back(g.shadows_enabled, true);
    lemma_bool_texts_read_back(g.transparency_enabled, true);
    lemma_bool_texts_read_back(g.disable_3d, false);
    lemma_i32_text_round_trip(g.frame_rate);
    lemma_i32_text_round_trip(g.gamma);
    assert("TAA"@.len() == 3 && "DOF"@.len() == 3 && "TAA"@[0] != "DOF"@[0]);
    assert("MLAA"@.len() == 4 && "2D"@.len() == 2 && "Shadows"@.len() == 7);
    assert("Glare"@.len() == 5 && "Gamma"@.len() == 5 && "Glare"@[1] != "Gamma"@[1]);
    assert("FPS.Limit"@.len() == 9 && "Reflections"@.len() == 11 && "Punchthrough"@.len() == 12);
    let back = AppGraphics::from_entries(write_section(sections, name, pairs)[name]);
    assert(back == g);
}

} // verus!
