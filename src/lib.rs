//! Typed settings records for the game launcher, read from and written to
//! section-based configuration documents.
//!
//! Each record lives in one named section. Reading never fails: a missing
//! or malformed entry gives the field's default. Writing emits every field
//! in a fixed order, and reading the written section back gives the record
//! unchanged.

pub mod coerce;
pub mod components;
pub mod document;
pub mod game_config;
pub mod game_files;
pub mod graphics;
pub mod number;
pub mod patch;
pub mod settings;
pub mod toml_doc;
pub mod video;

pub use crate::coerce::{coerce_bool, coerce_i32, coerce_ordinal, edit_i32};
pub use crate::components::AppComponents;
pub use crate::document::{IniConfig, IniConfigWrite, IniConfigWriteCtx};
pub use crate::game_files::DataKind;
pub use crate::game_config::{
    buttons_from_names, buttons_vec_to_string, AllConfig, Buttons, Config, DataTypes,
    InternalPatch, InternalTranslation, Keyconfig, Patch, SubGameStates, Translation,
    BINDING_COUNT,
};
pub use crate::graphics::AppGraphics;
pub use crate::number::{hex_text, parse_hex};
pub use crate::patch::{AppPatches, StatusIcons};
pub use crate::settings::Settings;
pub use crate::video::{AppVideo, DisplayFormat};
