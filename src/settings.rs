//! All of the launcher's settings together: read from the two documents at
//! start-up and written back to them on exit.

use vstd::prelude::*;
use ini::Ini;
use crate::components::AppComponents;
use crate::components::lemma_components_round_trip;
use crate::document::{
    document_sections, lemma_write_section_other, write_section, IniConfig, IniConfigWrite,
    IniConfigWriteCtx, Sections,
};
use crate::graphics::lemma_graphics_round_trip;
use crate::patch::lemma_patches_round_trip;
use crate::video::lemma_video_round_trip;
use crate::graphics::AppGraphics;
use crate::patch::AppPatches;
use crate::video::AppVideo;

verus! {

/// The record that a document gives for `R`: the one its section holds, or
/// `default` when the section is missing.
pub open spec fn read_or<R: IniConfig>(sections: Sections, default: R) -> R {
    if sections.contains_key(R::section_name()) {
        R::from_entries(sections[R::section_name()])
    } else {
        default
    }
}

/// Every settings record of the launcher.
#[derive(Clone, Copy, Debug, PartialEq, Eq, Structural)]
pub struct Settings {
    pub video: AppVideo,
    pub graphics: AppGraphics,
    pub patches: AppPatches,
    pub components: AppComponents,
}

impl Settings {
    pub open spec fn spec_default() -> Settings {
        Settings {
            video: AppVideo::spec_default(),
            graphics: AppGraphics::spec_default(),
            patches: AppPatches::spec_default(),
            components: AppComponents::spec_default(),
        }
    }

    /// The sections of the main document after the settings are written:
    /// resolution (with the refresh rate), graphics, then patches.
    pub open spec fn config_after(&self, sections: Sections) -> Sections {
        let with_video = write_section(
            write_section(sections, AppVideo::section_name(), self.video.body_entries()),
            AppVideo::section_name(),
            AppVideo::additional_entries(&self.graphics),
        );
        let with_graphics = write_section(with_video, AppGraphics::section_name(), self.graphics.body_entries());
        write_section(with_graphics, AppPatches::section_name(), self.patches.body_entries())
    }

    /// The sections of the components document after the settings are
    /// written.
    pub open spec fn components_after(&self, sections: Sections) -> Sections {
        write_section(
            write_section(sections, AppComponents::section_name(), self.components.body_entries()),
            AppComponents::section_name(),
            AppComponents::additional_entries(&self.patches),
        )
    }

    /// Reads every record from its section; a record whose section is
    /// missing keeps its built-in defaults.
    pub fn load(config: &Ini, components: &Ini) -> (r: Settings)
        ensures
            r.video == read_or(document_sections(*config), AppVideo::spec_default()),
            r.graphics == read_or(document_sections(*config), AppGraphics::spec_default()),
            r.patches == read_or(document_sections(*config), AppPatches::spec_default()),
            r.components == read_or(document_sections(*components), AppComponents::spec_default()),
    {
        let mut r = Settings::default();
        if let Some(v) = AppVideo::read(config) {
            r.video = v;
        }
        if let Some(g) = AppGraphics::read(config) {
            r.graphics = g;
        }
        if let Some(p) = AppPatches::read(config) {
            r.patches = p;
        }
        if let Some(c) = AppComponents::read(components) {
            r.components = c;
        }
        r
    }

    /// Writes every record, with the entries derived from the others, to
    /// the two documents.
    pub fn store(&self, config: &mut Ini, components: &mut Ini)
        ensures
            document_sections(*final(config)) == self.config_after(document_sections(*old(config))),
            document_sections(*final(components)) == self.components_after(
                document_sections(*old(components)),
            ),
    {
        self.video.write(&self.graphics, config);
        self.graphics.write(config);
        self.patches.write(config);
        self.components.write(&self.patches, components);
    }
}

/// Storing settings into any two documents and loading them back gives
/// the same settings.
pub proof fn lemma_settings_round_trip(s: Settings, config: Sections, components: Sections)
    ensures
        ({
            let config_written = s.config_after(config);
            let components_written = s.components_after(components);
            &&& read_or(config_written, AppVideo::spec_default()) == s.video
            &&& read_or(config_written, AppGraphics::spec_default()) == s.graphics
            &&& read_or(config_written, AppPatches::spec_default()) == s.patches
            &&& read_or(components_written, AppComponents::spec_default()) == s.components
        }),
{
    let video = AppVideo::section_name();
    let graphics = AppGraphics::section_name();
    let patches = AppPatches::section_name();
    reveal_strlit("Resolution");
    reveal_strlit("Graphics");
    reveal_strlit("Patches");
    assert(video.len() == 10 && graphics.len() == 8 && patches.len() == 7);
    let v1 = write_section(config, video, s.video.body_entries());
    let with_video = write_section(v1, video, AppVideo::additional_entries(&s.graphics));
    let with_graphics = write_section(with_video, graphics, s.graphics.body_entries());
    lemma_video_round_trip(s.video, s.graphics, config);
    lemma_write_section_other(with_video, graphics, s.graphics.body_entries(), video);
    lemma_write_section_other(with_graphics, patches, s.patches.body_entries(), video);
    lemma_graphics_round_trip(s.graphics, with_video);
    lemma_write_section_other(with_graphics, patches, s.patches.body_entries(), graphics);
    lemma_patches_round_trip(s.patches, with_graphics);
    lemma_components_round_trip(s.components, s.patches, components);
}

impl Default for Settings {
    fn default() -> (r: Settings)
        ensures
            r == Settings::spec_default(),
    {
        Settings {
            video: AppVideo::default(),
            graphics: AppGraphics::default(),
            patches: AppPatches::default(),
            components: AppComponents::default(),
        }
    }
}

} // verus!
