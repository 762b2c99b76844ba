//! Reading the game's own configuration from its TOML documents and
//! writing it back.

use vstd::prelude::*;
use toml_edit::{Item, Table};
use crate::game_config::{
    buttons_from_names, buttons_vec_to_string, Buttons, Config, DataTypes, InternalPatch,
    InternalTranslation, Keyconfig, Patch, SubGameStates, Translation, BINDING_COUNT,
};
use crate::toml_doc::{
    array_integers, array_strings, bool_item, index_of, integer_item, integers_item, integers_of,
    key_bool, key_bool_of, key_integer, key_integer_of, key_of, key_str, key_string_of, new_table,
    put, str_item, strings_item, strings_of, table_entries, table_item, tables_item, tables_len,
    toml_index, toml_integer, toml_key, toml_str, toml_tables_len, base_table, has_key, toml_present,
    table_shows, item_is_table, table_get, table_of,
};

verus! {

/// How the data of a memory patch is stored.
#[derive(Clone, Copy, Debug, PartialEq, Eq, Structural)]
pub enum DataKind {
    Integer,
    IntegerArray,
    Text,
}

impl DataTypes {
    pub open spec fn spec_kind(self) -> DataKind {
        match self {
            DataTypes::i8 | DataTypes::u8 | DataTypes::i16 | DataTypes::u16 | DataTypes::i32
            | DataTypes::u32 | DataTypes::i64 => DataKind::Integer,
            DataTypes::string => DataKind::Text,
            _ => DataKind::IntegerArray,
        }
    }

    pub fn kind(self) -> (r: DataKind)
        ensures
            r == self.spec_kind(),
    {
        match self {
            DataTypes::i8 | DataTypes::u8 | DataTypes::i16 | DataTypes::u16 | DataTypes::i32
            | DataTypes::u32 | DataTypes::i64 => DataKind::Integer,
            DataTypes::string => DataKind::Text,
            _ => DataKind::IntegerArray,
        }
    }
}

/// The integer under `inner` of the item under `outer`.
pub open spec fn nested_integer(root: Item, outer: Seq<char>, inner: Seq<char>) -> Option<i64> {
    match toml_key(root, outer) {
        Some(t) => key_integer(t, inner),
        None => None,
    }
}

/// An integer setting narrowed to `i32` by truncation, zero when it is
/// missing or not an integer.
pub open spec fn int_or_zero(v: Option<i64>) -> i32 {
    match v {
        Some(n) => n as i32,
        None => 0,
    }
}

/// The settings that a config document holds: `fps`, `internalRes.x`,
/// `internalRes.y`, `fullscreen` and `rumbleIntensity`. A setting that is
/// missing or of the wrong type keeps its default (zero, or off).
pub open spec fn config_in(root: Item) -> Config {
    Config {
        fps: int_or_zero(key_integer(root, "fps"@)),
        internal_res_x: int_or_zero(nested_integer(root, "internalRes"@, "x"@)),
        internal_res_y: int_or_zero(nested_integer(root, "internalRes"@, "y"@)),
        fullscreen: match key_bool(root, "fullscreen"@) {
            Some(b) => b,
            None => false,
        },
        rumble_intensity: int_or_zero(key_integer(root, "rumbleIntensity"@)),
    }
}

fn int_setting(v: Option<i64>) -> (r: i32)
    ensures
        r == int_or_zero(v),
{
    match v {
        Some(n) => n as i32,
        None => 0,
    }
}

fn nested_integer_of(root: &Item, outer: &str, inner: &str) -> (r: Option<i64>)
    ensures
        r == nested_integer(*root, outer@, inner@),
{
    match key_of(root, outer) {
        Some(t) => key_integer_of(t, inner),
        None => None,
    }
}

impl Config {
    /// Reads the settings from a config document's root; a missing or
    /// malformed setting keeps its default.
    pub fn read(root: &Item) -> (r: Config)
        ensures
            r == config_in(*root),
    {
        Config {
            fps: int_setting(key_integer_of(root, "fps")),
            internal_res_x: int_setting(nested_integer_of(root, "internalRes", "x")),
            internal_res_y: int_setting(nested_integer_of(root, "internalRes", "y")),
            fullscreen: match key_bool_of(root, "fullscreen") {
                Some(b) => b,
                None => false,
            },
            rumble_intensity: int_setting(key_integer_of(root, "rumbleIntensity")),
        }
    }

    /// Writes the settings to a config document's root table. The other
    /// entries stay, and so do the other entries of an `internalRes` table.
    pub fn write(&self, root: &mut Table)
        ensures
            ({
                let e = table_entries(*final(root));
                &&& e.contains_key("fps"@) && toml_integer(e["fps"@]) == Some(self.fps as i64)
                &&& e.contains_key("internalRes"@)
                &&& key_integer(e["internalRes"@], "x"@) == Some(self.internal_res_x as i64)
                &&& key_integer(e["internalRes"@], "y"@) == Some(self.internal_res_y as i64)
                &&& e.contains_key("fullscreen"@) && crate::toml_doc::toml_bool(e["fullscreen"@]) == Some(self.fullscreen)
                &&& e.contains_key("rumbleIntensity"@)
                &&& toml_integer(e["rumbleIntensity"@]) == Some(self.rumble_intensity as i64)
            }),
            forall|k: Seq<char>|
                k != "fps"@ && k != "internalRes"@ && k != "fullscreen"@ && k != "rumbleIntensity"@
                    ==> (#[trigger] table_entries(*final(root)).contains_key(k) == table_entries(*old(root)).contains_key(k)
                    && table_entries(*final(root))[k] == table_entries(*old(root))[k]),
    {
        let mut res = base_table(root, "internalRes");
        put(&mut res, "x", integer_item(self.internal_res_x as i64));
        put(&mut res, "y", integer_item(self.internal_res_y as i64));
        proof {
            reveal_strlit("x");
            reveal_strlit("y");
            assert("x"@[0] != "y"@[0]);
        }
        put(root, "fps", integer_item(self.fps as i64));
        put(root, "internalRes", table_item(res));
        put(root, "fullscreen", bool_item(self.fullscreen));
        put(root, "rumbleIntensity", integer_item(self.rumble_intensity as i64));
        proof {
            reveal_strlit("fps");
            reveal_strlit("internalRes");
            reveal_strlit("fullscreen");
            reveal_strlit("rumbleIntensity");
            assert("fps"@.len() == 3 && "internalRes"@.len() == 11 && "fullscreen"@.len() == 10
                && "rumbleIntensity"@.len() == 15);
            let e = table_entries(*root)["internalRes"@];
            assert(toml_key(e, "x"@) is Some);
            assert(toml_key(e, "y"@) is Some);
        }
    }
}

/// The inputs that a keyconfig document binds to action `i`: the named
/// array of input names, each one known.
pub open spec fn binding_in(root: Item, i: int) -> Option<Seq<Buttons>> {
    match toml_key(root, Keyconfig::spec_binding_name(i)) {
        Some(a) => match array_strings(a) {
            Some(names) => if forall|j: int| 0 <= j < names.len() ==> #[trigger] Buttons::spec_from_name(names[j]) is Some {
                Some(Seq::new(names.len(), |j: int| Buttons::spec_from_name(names[j])->0))
            } else {
                None
            },
            None => None,
        },
        None => None,
    }
}

/// The inputs that a keyconfig document binds to action `i`, none when
/// the action is missing or names an unknown input.
pub open spec fn binding_or_empty(root: Item, i: int) -> Seq<Buttons> {
    match binding_in(root, i) {
        Some(b) => b,
        None => Seq::empty(),
    }
}

/// Whether `k` is the name of none of the actions.
pub open spec fn not_a_binding_name(k: Seq<char>) -> bool {
    forall|j: int| 0 <= j < BINDING_COUNT ==> k != #[trigger] Keyconfig::spec_binding_name(j)
}

/// The inputs of one action of a keyconfig document.
fn read_binding(root: &Item, i: usize) -> (r: Vec<Buttons>)
    requires
        i < BINDING_COUNT,
    ensures
        r@ == binding_or_empty(*root, i as int),
{
    let array = match key_of(root, Keyconfig::binding_name(i)) {
        Some(a) => a,
        None => return Vec::new(),
    };
    let names = match strings_of(array) {
        Some(n) => n,
        None => return Vec::new(),
    };
    proof {
        assert(names@.len() == array_strings(*array)->0.len());
        assert forall|j: int| 0 <= j < names@.len() implies names@[j]@ == array_strings(*array)->0[j] by {
            assert(names@.map_values(|s: String| s@)[j] == names@[j]@);
        }
    }
    match buttons_from_names(&names) {
        Some(b) => {
            proof {
                let names_in = array_strings(*array)->0;
                assert(b@ =~= Seq::new(names_in.len(), |j: int| Buttons::spec_from_name(names_in[j])->0));
            }
            b
        },
        None => {
            proof {
                let j = choose|j: int| 0 <= j < names@.len() && !(Buttons::spec_from_name(names@[j]@) is Some);
                assert(!(Buttons::spec_from_name(array_strings(*array)->0[j]) is Some));
            }
            Vec::new()
        },
    }
}

impl Keyconfig {
    /// Reads every action's inputs from a keyconfig document's root; an
    /// action that is missing or names an unknown input has none.
    pub fn read(root: &Item) -> (r: Keyconfig)
        ensures
            forall|i: int| 0 <= i < BINDING_COUNT ==> #[trigger] r.spec_binding(i) == binding_or_empty(*root, i),
    {
        let mut k = Keyconfig::default();
        let mut i: usize = 0;
        while i < BINDING_COUNT
            invariant
                i <= BINDING_COUNT,
                forall|j: int| 0 <= j < i ==> #[trigger] k.spec_binding(j) == binding_or_empty(*root, j),
            decreases BINDING_COUNT - i,
        {
            let buttons = read_binding(root, i);
            k.set_binding(i, buttons);
            i = i + 1;
        }
        k
    }

    /// Writes every action's inputs, by name, to a keyconfig document's
    /// root table; the other entries stay.
    pub fn write(&self, root: &mut Table)
        ensures
            forall|i: int| 0 <= i < BINDING_COUNT ==> {
                let e = #[trigger] table_entries(*final(root))[Keyconfig::spec_binding_name(i)];
                &&& table_entries(*final(root)).contains_key(Keyconfig::spec_binding_name(i))
                &&& array_strings(e) == Some(self.spec_binding(i).map_values(|b: Buttons| b.spec_name()))
            },
            forall|k: Seq<char>| not_a_binding_name(k) ==> (#[trigger] table_entries(*final(root)).contains_key(k)
                == table_entries(*old(root)).contains_key(k) && table_entries(*final(root))[k] == table_entries(
                *old(root),
            )[k]),
    {
        let mut i: usize = 0;
        while i < BINDING_COUNT
            invariant
                i <= BINDING_COUNT,
                forall|j: int| 0 <= j < i ==> {
                    let e = #[trigger] table_entries(*root)[Keyconfig::spec_binding_name(j)];
                    &&& table_entries(*root).contains_key(Keyconfig::spec_binding_name(j))
                    &&& array_strings(e) == Some(self.spec_binding(j).map_values(|b: Buttons| b.spec_name()))
                },
                forall|k: Seq<char>| not_a_binding_name(k) ==> (#[trigger] table_entries(*root).contains_key(k)
                    == table_entries(*old(root)).contains_key(k) && table_entries(*root)[k] == table_entries(
                    *old(root),
                )[k]),
            decreases BINDING_COUNT - i,
        {
            let names = buttons_vec_to_string(self.binding(i));
            let item = strings_item(&names);
            proof {
                assert(array_strings(item)->0 =~= self.spec_binding(i as int).map_values(|b: Buttons| b.spec_name()));
                lemma_binding_names_distinct(i as int);
            }
            put(root, Keyconfig::binding_name(i), item);
            proof {
                assert forall|k: Seq<char>| not_a_binding_name(k) implies k != Keyconfig::spec_binding_name(i as int) by {
                    assert(k != Keyconfig::spec_binding_name(i as int));
                }
            }
            i = i + 1;
        }
    }
}

/// Different actions are stored under different names.
proof fn lemma_binding_names_distinct(i: int)
    requires
        0 <= i < BINDING_COUNT,
    ensures
        forall|j: int| 0 <= j < BINDING_COUNT && j != i ==> #[trigger] Keyconfig::spec_binding_name(j) != Keyconfig::spec_binding_name(i),
{
    reveal_strlit("TEST");
    reveal_strlit("SERVICE");
    reveal_strlit("ADVERTISE");
    reveal_strlit("GAME");
    reveal_strlit("DATA_TEST");
    reveal_strlit("TEST_MODE");
    reveal_strlit("APP_ERROR");
    reveal_strlit("START");
    reveal_strlit("TRIANGLE");
    reveal_strlit("SQUARE");
    reveal_strlit("CROSS");
    reveal_strlit("CIRCLE");
    reveal_strlit("LEFT_LEFT");
    reveal_strlit("LEFT_RIGHT");
    reveal_strlit("RIGHT_LEFT");
    reveal_strlit("RIGHT_RIGHT");
    reveal_strlit("CAMERA_UNLOCK_TOGGLE");
    reveal_strlit("CAMERA_MOVE_FORWARD");
    reveal_strlit("CAMERA_MOVE_BACKWARD");
    reveal_strlit("CAMERA_MOVE_LEFT");
    reveal_strlit("CAMERA_MOVE_RIGHT");
    reveal_strlit("CAMERA_MOVE_UP");
    reveal_strlit("CAMERA_MOVE_DOWN");
    reveal_strlit("CAMERA_ROTATE_CW");
    reveal_strlit("CAMERA_ROTATE_CCW");
    reveal_strlit("CAMERA_ZOOM_IN");
    reveal_strlit("CAMERA_ZOOM_OUT");
    reveal_strlit("CAMERA_MOVE_FAST");
    reveal_strlit("CAMERA_MOVE_SLOW");
    assert("TEST"@.len() == 4 && "GAME"@.len() == 4);
    assert("GAME"@[0] == 'G' && "TEST"@[0] == 'T');
    assert("START"@.len() == 5 && "CROSS"@.len() == 5);
    assert("CROSS"@[0] == 'C' && "START"@[0] == 'S');
    assert("SQUARE"@.len() == 6 && "CIRCLE"@.len() == 6);
    assert("CIRCLE"@[0] == 'C' && "SQUARE"@[0] == 'S');
    assert("SERVICE"@.len() == 7);
    assert("TRIANGLE"@.len() == 8);
    assert("ADVERTISE"@.len() == 9 && "DATA_TEST"@.len() == 9 && "TEST_MODE"@.len() == 9 && "APP_ERROR"@.len() == 9 && "LEFT_LEFT"@.len() == 9);
    assert("ADVERTISE"@[0] == 'A' && "ADVERTISE"@[1] == 'D' && "APP_ERROR"@[0] == 'A' && "APP_ERROR"@[1] == 'P' && "DATA_TEST"@[0] == 'D' && "LEFT_LEFT"@[0] == 'L' && "TEST_MODE"@[0] == 'T');
    assert("LEFT_RIGHT"@.len() == 10 && "RIGHT_LEFT"@.len() == 10);
    assert("LEFT_RIGHT"@[0] == 'L' && "RIGHT_LEFT"@[0] == 'R');
    assert("RIGHT_RIGHT"@.len() == 11);
    assert("CAMERA_MOVE_UP"@.len() == 14 && "CAMERA_ZOOM_IN"@.len() == 14);
    assert("CAMERA_MOVE_UP"@[7] == 'M' && "CAMERA_ZOOM_IN"@[7] == 'Z');
    assert("CAMERA_ZOOM_OUT"@.len() == 15);
    assert("CAMERA_MOVE_LEFT"@.len() == 16 && "CAMERA_MOVE_DOWN"@.len() == 16 && "CAMERA_ROTATE_CW"@.len() == 16 && "CAMERA_MOVE_FAST"@.len() == 16 && "CAMERA_MOVE_SLOW"@.len() == 16);
    assert("CAMERA_MOVE_DOWN"@[7] == 'M' && "CAMERA_MOVE_DOWN"@[12] == 'D' && "CAMERA_MOVE_FAST"@[7] == 'M' && "CAMERA_MOVE_FAST"@[12] == 'F' && "CAMERA_MOVE_LEFT"@[7] == 'M' && "CAMERA_MOVE_LEFT"@[12] == 'L' && "CAMERA_MOVE_SLOW"@[7] == 'M' && "CAMERA_MOVE_SLOW"@[12] == 'S' && "CAMERA_ROTATE_CW"@[7] == 'R');
    assert("CAMERA_MOVE_RIGHT"@.len() == 17 && "CAMERA_ROTATE_CCW"@.len() == 17);
    assert("CAMERA_MOVE_RIGHT"@[7] == 'M' && "CAMERA_ROTATE_CCW"@[7] == 'R');
    assert("CAMERA_MOVE_FORWARD"@.len() == 19);
    assert("CAMERA_UNLOCK_TOGGLE"@.len() == 20 && "CAMERA_MOVE_BACKWARD"@.len() == 20);
    assert("CAMERA_MOVE_BACKWARD"@[7] == 'M' && "CAMERA_UNLOCK_TOGGLE"@[7] == 'U');
}

/// What an `InternalPatch` holds, as values.
pub struct InternalPatchView {
    pub address: i64,
    pub data_type: DataTypes,
    pub data_int: i64,
    pub data_int_arr: Seq<i64>,
    pub data_string: Seq<char>,
}

impl View for InternalPatch {
    type V = InternalPatchView;

    open spec fn view(&self) -> InternalPatchView {
        InternalPatchView {
            address: self.address,
            data_type: self.data_type,
            data_int: self.data_int,
            data_int_arr: self.data_int_arr@,
            data_string: self.data_string@,
        }
    }
}

/// What a `Patch` holds, as values.
pub struct PatchView {
    pub name: Seq<char>,
    pub author: Seq<char>,
    pub enabled: bool,
    pub patches: Seq<InternalPatchView>,
}

impl View for Patch {
    type V = PatchView;

    open spec fn view(&self) -> PatchView {
        PatchView {
            name: self.name@,
            author: self.author@,
            enabled: self.enabled,
            patches: self.patches@.map_values(|p: InternalPatch| p@),
        }
    }
}

/// What an `InternalTranslation` holds, as values.
pub struct InternalTranslationView {
    pub original: Seq<char>,
    pub replacement: Seq<char>,
    pub state: SubGameStates,
}

impl View for InternalTranslation {
    type V = InternalTranslationView;

    open spec fn view(&self) -> InternalTranslationView {
        InternalTranslationView {
            original: self.original@,
            replacement: self.replacement@,
            state: self.state,
        }
    }
}

/// What a `Translation` holds, as values.
pub struct TranslationView {
    pub language: Seq<char>,
    pub author: Seq<char>,
    pub enabled: bool,
    pub translations: Seq<InternalTranslationView>,
}

impl View for Translation {
    type V = TranslationView;

    open spec fn view(&self) -> TranslationView {
        TranslationView {
            language: self.language@,
            author: self.author@,
            enabled: self.enabled,
            translations: self.translations@.map_values(|t: InternalTranslation| t@),
        }
    }
}

/// The memory write that a patch table describes: its `address`, its
/// `data_type` by name, and its `data` in the form that the type asks for.
/// The fields that the form does not use are zero or empty.
pub open spec fn internal_patch_in(t: Item) -> Option<InternalPatchView> {
    match (key_integer(t, "address"@), key_str(t, "data_type"@)) {
        (Some(address), Some(name)) => match DataTypes::spec_from_name(name) {
            Some(data_type) => match data_type.spec_kind() {
                DataKind::Integer => match key_integer(t, "data"@) {
                    Some(v) => Some(
                        InternalPatchView {
                            address,
                            data_type,
                            data_int: v,
                            data_int_arr: Seq::empty(),
                            data_string: Seq::empty(),
                        },
                    ),
                    None => None,
                },
                DataKind::IntegerArray => match toml_key(t, "data"@) {
                    Some(d) => match array_integers(d) {
                        Some(a) => Some(
                            InternalPatchView {
                                address,
                                data_type,
                                data_int: 0,
                                data_int_arr: a,
                                data_string: Seq::empty(),
                            },
                        ),
                        None => None,
                    },
                    None => None,
                },
                DataKind::Text => match key_str(t, "data"@) {
                    Some(text) => Some(
                        InternalPatchView {
                            address,
                            data_type,
                            data_int: 0,
                            data_int_arr: Seq::empty(),
                            data_string: text,
                        },
                    ),
                    None => None,
                },
            },
            None => None,
        },
        _ => None,
    }
}

/// The patch that a patch document describes: its `name`, `author` and
/// `enabled` flag, and one memory write per table of `patch`.
pub open spec fn patch_in(root: Item) -> Option<PatchView> {
    match (key_str(root, "name"@), key_str(root, "author"@), key_bool(root, "enabled"@), toml_key(root, "patch"@)) {
        (Some(name), Some(author), Some(enabled), Some(list)) => match toml_tables_len(list) {
            Some(n) => if forall|i: int| 0 <= i < n ==> #[trigger] toml_index(list, i) is Some
                && internal_patch_in(toml_index(list, i)->0) is Some {
                Some(
                    PatchView {
                        name,
                        author,
                        enabled,
                        patches: Seq::new(n, |i: int| internal_patch_in(toml_index(list, i)->0)->0),
                    },
                )
            } else {
                None
            },
            None => None,
        },
        _ => None,
    }
}

/// The text replacement that a table of a language pack describes. A table
/// without `state` applies in every state (`SUB_MAX`).
pub open spec fn internal_translation_in(t: Item) -> Option<InternalTranslationView> {
    match (key_str(t, "old"@), key_str(t, "new"@)) {
        (Some(original), Some(replacement)) => match toml_key(t, "state"@) {
            Some(st) => match toml_str(st) {
                Some(name) => match SubGameStates::spec_from_name(name) {
                    Some(state) => Some(InternalTranslationView { original, replacement, state }),
                    None => None,
                },
                None => None,
            },
            None => Some(InternalTranslationView { original, replacement, state: SubGameStates::SUB_MAX }),
        },
        _ => None,
    }
}

/// The language pack that its document describes: its
/// `language`, `author` and `enabled` flag, and one replacement per table
/// of `translation`.
pub open spec fn translation_in(root: Item) -> Option<TranslationView> {
    match (
        key_str(root, "language"@),
        key_str(root, "author"@),
        key_bool(root, "enabled"@),
        toml_key(root, "translation"@),
    ) {
        (Some(language), Some(author), Some(enabled), Some(list)) => match toml_tables_len(list) {
            Some(n) => if forall|i: int| 0 <= i < n ==> #[trigger] toml_index(list, i) is Some
                && internal_translation_in(toml_index(list, i)->0) is Some {
                Some(
                    TranslationView {
                        language,
                        author,
                        enabled,
                        translations: Seq::new(
                            n,
                            |i: int| internal_translation_in(toml_index(list, i)->0)->0,
                        ),
                    },
                )
            } else {
                None
            },
            None => None,
        },
        _ => None,
    }
}

impl InternalPatch {
    /// Reads one memory write from a patch table.
    pub fn read(t: &Item) -> (r: Option<InternalPatch>)
        ensures
            r is Some <==> internal_patch_in(*t) is Some,
            r matches Some(p) ==> internal_patch_in(*t) == Some(p@),
    {
        let address = match key_integer_of(t, "address") {
            Some(v) => v,
            None => return None,
        };
        let kind_name = match key_string_of(t, "data_type") {
            Some(v) => v,
            None => return None,
        };
        let data_type = match DataTypes::from_name(kind_name.as_str()) {
            Some(v) => v,
            None => return None,
        };
        let mut p = InternalPatch::default();
        p.address = address;
        p.data_type = data_type;
        match data_type.kind() {
            DataKind::Integer => match key_integer_of(t, "data") {
                Some(v) => p.data_int = v,
                None => return None,
            },
            DataKind::IntegerArray => {
                let d = match key_of(t, "data") {
                    Some(d) => d,
                    None => return None,
                };
                match integers_of(d) {
                    Some(a) => p.data_int_arr = a,
                    None => return None,
                }
            },
            DataKind::Text => match key_string_of(t, "data") {
                Some(text) => p.data_string = text,
                None => return None,
            },
        }
        proof {
            assert(p@.data_int_arr =~= internal_patch_in(*t)->0.data_int_arr);
            assert(p@.data_string =~= internal_patch_in(*t)->0.data_string);
        }
        Some(p)
    }
}

impl Patch {
    /// Reads a patch from its document's root; `None` when an entry is
    /// missing or malformed.
    pub fn read(root: &Item) -> (r: Option<Patch>)
        ensures
            r is Some <==> patch_in(*root) is Some,
            r matches Some(p) ==> patch_in(*root) == Some(p@),
    {
        let name = match key_string_of(root, "name") {
            Some(v) => v,
            None => return None,
        };
        let author = match key_string_of(root, "author") {
            Some(v) => v,
            None => return None,
        };
        let enabled = match key_bool_of(root, "enabled") {
            Some(v) => v,
            None => return None,
        };
        let list = match key_of(root, "patch") {
            Some(v) => v,
            None => return None,
        };
        let n = match tables_len(list) {
            Some(n) => n,
            None => return None,
        };
        let mut patches: Vec<InternalPatch> = Vec::new();
        let mut i: usize = 0;
        while i < n
            invariant
                i <= n,
                toml_tables_len(*list) == Some(n as nat),
                key_str(*root, "name"@) == Some(name@),
                key_str(*root, "author"@) == Some(author@),
                key_bool(*root, "enabled"@) == Some(enabled),
                toml_key(*root, "patch"@) == Some(*list),
                patches@.len() == i,
                forall|j: int| 0 <= j < i ==> #[trigger] toml_index(*list, j) is Some
                    && internal_patch_in(toml_index(*list, j)->0) == Some(patches@[j]@),
            decreases n - i,
        {
            let t = match index_of(list, i) {
                Some(t) => t,
                None => {
                    assert(!(toml_index(*list, i as int) is Some));
                    return None;
                },
            };
            match InternalPatch::read(t) {
                Some(p) => patches.push(p),
                None => {
                    assert(!(internal_patch_in(toml_index(*list, i as int)->0) is Some));
                    return None;
                },
            }
            i = i + 1;
        }
        let r = Patch { name, author, enabled, patches };
        proof {
            assert(r@.patches =~= patch_in(*root)->0.patches);
        }
        Some(r)
    }
}

impl InternalTranslation {
    /// Reads one text replacement from a table of a language pack.
    pub fn read(t: &Item) -> (r: Option<InternalTranslation>)
        ensures
            r is Some <==> internal_translation_in(*t) is Some,
            r matches Some(x) ==> internal_translation_in(*t) == Some(x@),
    {
        let original = match key_string_of(t, "old") {
            Some(v) => v,
            None => return None,
        };
        let replacement = match key_string_of(t, "new") {
            Some(v) => v,
            None => return None,
        };
        let state = match key_of(t, "state") {
            Some(st) => match crate::toml_doc::str_of(st) {
                Some(name) => match SubGameStates::from_name(name) {
                    Some(v) => v,
                    None => return None,
                },
                None => return None,
            },
            None => SubGameStates::SUB_MAX,
        };
        Some(InternalTranslation { original, replacement, state })
    }
}

impl Translation {
    /// Reads a language pack from its document's root; `None` when an entry
    /// is missing or malformed.
    pub fn read(root: &Item) -> (r: Option<Translation>)
        ensures
            r is Some <==> translation_in(*root) is Some,
            r matches Some(x) ==> translation_in(*root) == Some(x@),
    {
        let language = match key_string_of(root, "language") {
            Some(v) => v,
            None => return None,
        };
        let author = match key_string_of(root, "author") {
            Some(v) => v,
            None => return None,
        };
        let enabled = match key_bool_of(root, "enabled") {
            Some(v) => v,
            None => return None,
        };
        let list = match key_of(root, "translation") {
            Some(v) => v,
            None => return None,
        };
        let n = match tables_len(list) {
            Some(n) => n,
            None => return None,
        };
        let mut translations: Vec<InternalTranslation> = Vec::new();
        let mut i: usize = 0;
        while i < n
            invariant
                i <= n,
                toml_tables_len(*list) == Some(n as nat),
                key_str(*root, "language"@) == Some(language@),
                key_str(*root, "author"@) == Some(author@),
                key_bool(*root, "enabled"@) == Some(enabled),
                toml_key(*root, "translation"@) == Some(*list),
                translations@.len() == i,
                forall|j: int| 0 <= j < i ==> #[trigger] toml_index(*list, j) is Some
                    && internal_translation_in(toml_index(*list, j)->0) == Some(translations@[j]@),
            decreases n - i,
        {
            let t = match index_of(list, i) {
                Some(t) => t,
                None => {
                    assert(!(toml_index(*list, i as int) is Some));
                    return None;
                },
            };
            match InternalTranslation::read(t) {
                Some(x) => translations.push(x),
                None => {
                    assert(!(internal_translation_in(toml_index(*list, i as int)->0) is Some));
                    return None;
                },
            }
            i = i + 1;
        }
        let r = Translation { language, author, enabled, translations };
        proof {
            assert(r@.translations =~= translation_in(*root)->0.translations);
        }
        Some(r)
    }
}

/// Entries that describe memory write `p`: `address`, `data_type` by name,
/// and `data` in the form that the type asks for.
pub open spec fn patch_entries_hold(e: Map<Seq<char>, Item>, p: InternalPatchView) -> bool {
    &&& e.contains_key("address"@) && toml_present(e["address"@])
    &&& toml_integer(e["address"@]) == Some(p.address)
    &&& e.contains_key("data_type"@) && toml_present(e["data_type"@])
    &&& toml_str(e["data_type"@]) == Some(p.data_type.spec_name())
    &&& e.contains_key("data"@) && toml_present(e["data"@])
    &&& p.data_type.spec_kind() == DataKind::Integer ==> toml_integer(e["data"@]) == Some(p.data_int)
    &&& p.data_type.spec_kind() == DataKind::IntegerArray ==> array_integers(e["data"@]) == Some(p.data_int_arr)
    &&& p.data_type.spec_kind() == DataKind::Text ==> toml_str(e["data"@]) == Some(p.data_string)
}

/// A table item that describes memory write `p`, as a reader sees it.
pub open spec fn patch_item_holds(t: Item, p: InternalPatchView) -> bool {
    &&& key_integer(t, "address"@) == Some(p.address)
    &&& key_str(t, "data_type"@) == Some(p.data_type.spec_name())
    &&& p.data_type.spec_kind() == DataKind::Integer ==> key_integer(t, "data"@) == Some(p.data_int)
    &&& p.data_type.spec_kind() == DataKind::IntegerArray ==> toml_key(t, "data"@) is Some && array_integers(
        toml_key(t, "data"@)->0,
    ) == Some(p.data_int_arr)
    &&& p.data_type.spec_kind() == DataKind::Text ==> key_str(t, "data"@) == Some(p.data_string)
}

/// Entries that describe text replacement `x`: `old` and `new`, and
/// `state` by name whenever the replacement is limited to a state or a
/// `state` entry is shown.
pub open spec fn translation_entries_hold(e: Map<Seq<char>, Item>, x: InternalTranslationView) -> bool {
    &&& e.contains_key("old"@) && toml_present(e["old"@]) && toml_str(e["old"@]) == Some(x.original)
    &&& e.contains_key("new"@) && toml_present(e["new"@]) && toml_str(e["new"@]) == Some(x.replacement)
    &&& x.state != SubGameStates::SUB_MAX ==> e.contains_key("state"@) && toml_present(e["state"@])
    &&& e.contains_key("state"@) && toml_present(e["state"@]) ==> toml_str(e["state"@]) == Some(x.state.spec_name())
}

/// A table item that describes text replacement `x`, as a reader sees it.
pub open spec fn translation_item_holds(t: Item, x: InternalTranslationView) -> bool {
    &&& key_str(t, "old"@) == Some(x.original)
    &&& key_str(t, "new"@) == Some(x.replacement)
    &&& x.state != SubGameStates::SUB_MAX ==> toml_key(t, "state"@) is Some
    &&& toml_key(t, "state"@) is Some ==> toml_str(toml_key(t, "state"@)->0) == Some(x.state.spec_name())
}

/// The table shown at position `i` of the array of tables under `key`, or
/// a new one.
fn base_element(root: &Table, key: &str, i: usize) -> Table {
    match table_get(root, key) {
        Some(list) => match index_of(list, i) {
            Some(t) => match table_of(t) {
                Some(tb) => tb,
                None => new_table(),
            },
            None => new_table(),
        },
        None => new_table(),
    }
}

impl InternalPatch {
    /// Sets, in `base`, the entries that describe the memory write:
    /// `address`, `data_type` by name, and `data` in the form that the type
    /// asks for. The other entries of `base` stay.
    pub fn to_table(&self, base: Table) -> (r: Table)
        ensures
            patch_entries_hold(table_entries(r), self@),
            forall|k: Seq<char>|
                k != "address"@ && k != "data_type"@ && k != "data"@ ==> (#[trigger] table_entries(r).contains_key(k)
                    == table_entries(base).contains_key(k) && table_entries(r)[k] == table_entries(base)[k]),
    {
        let mut t = base;
        put(&mut t, "address", integer_item(self.address));
        put(&mut t, "data_type", str_item(self.data_type.name()));
        let data = match self.data_type.kind() {
            DataKind::Integer => integer_item(self.data_int),
            DataKind::IntegerArray => integers_item(&self.data_int_arr),
            DataKind::Text => str_item(self.data_string.as_str()),
        };
        proof {
            if self.data_type.spec_kind() == DataKind::IntegerArray {
                assert(array_integers(data)->0 =~= self.data_int_arr@);
            }
        }
        put(&mut t, "data", data);
        proof {
            reveal_strlit("address");
            reveal_strlit("data_type");
            reveal_strlit("data");
            assert("address"@.len() == 7 && "data_type"@.len() == 9 && "data"@.len() == 4);
        }
        t
    }
}

impl Patch {
    /// Writes the patch to its document's root table: `name`, `author`,
    /// `enabled`, and under `patch` one table per memory write, in order,
    /// each edited in place of the table at its position. The other entries
    /// stay.
    pub fn write(&self, root: &mut Table)
        ensures
            ({
                let e = table_entries(*final(root));
                &&& e.contains_key("name"@) && toml_str(e["name"@]) == Some(self.name@)
                &&& e.contains_key("author"@) && toml_str(e["author"@]) == Some(self.author@)
                &&& e.contains_key("enabled"@) && crate::toml_doc::toml_bool(e["enabled"@]) == Some(self.enabled)
                &&& e.contains_key("patch"@) && toml_tables_len(e["patch"@]) == Some(self.patches@.len())
                &&& forall|i: int| 0 <= i < self.patches@.len() ==> #[trigger] toml_index(e["patch"@], i) is Some
                    && patch_item_holds(toml_index(e["patch"@], i)->0, self.patches@[i]@)
            }),
            forall|k: Seq<char>|
                k != "name"@ && k != "author"@ && k != "enabled"@ && k != "patch"@
                    ==> (#[trigger] table_entries(*final(root)).contains_key(k) == table_entries(*old(root)).contains_key(k)
                    && table_entries(*final(root))[k] == table_entries(*old(root))[k]),
    {
        let mut tables: Vec<Table> = Vec::new();
        let mut i: usize = 0;
        while i < self.patches.len()
            invariant
                i <= self.patches@.len(),
                tables@.len() == i,
                forall|j: int| 0 <= j < i ==> patch_entries_hold(table_entries(#[trigger] tables@[j]), self.patches@[j]@),
            decreases self.patches@.len() - i,
        {
            let base = base_element(root, "patch", i);
            tables.push(self.patches[i].to_table(base));
            i = i + 1;
        }
        let list = tables_item(tables);
        proof {
            assert forall|i: int| 0 <= i < self.patches@.len() implies #[trigger] toml_index(list, i) is Some
                && patch_item_holds(toml_index(list, i)->0, self.patches@[i]@) by {
                let t = toml_index(list, i)->0;
                assert(patch_entries_hold(table_entries(tables@[i]), self.patches@[i]@));
                assert(item_is_table(t, tables@[i]));
                assert(toml_key(t, "address"@) is Some);
                assert(toml_key(t, "data_type"@) is Some);
                assert(toml_key(t, "data"@) is Some);
            }
        }
        put(root, "name", str_item(self.name.as_str()));
        put(root, "author", str_item(self.author.as_str()));
        put(root, "enabled", bool_item(self.enabled));
        put(root, "patch", list);
        proof {
            reveal_strlit("name");
            reveal_strlit("author");
            reveal_strlit("enabled");
            reveal_strlit("patch");
            assert("name"@.len() == 4 && "author"@.len() == 6 && "enabled"@.len() == 7 && "patch"@.len() == 5);
        }
    }
}

impl InternalTranslation {
    /// Sets, in `base`, the entries that describe the replacement: `old`,
    /// `new`, and `state` by name when the replacement is limited to a state
    /// or `base` already shows a `state`. The other entries of `base` stay.
    pub fn to_table(&self, base: Table) -> (r: Table)
        ensures
            translation_entries_hold(table_entries(r), self@),
            forall|k: Seq<char>|
                k != "old"@ && k != "new"@ && k != "state"@ ==> (#[trigger] table_entries(r).contains_key(k)
                    == table_entries(base).contains_key(k) && table_entries(r)[k] == table_entries(base)[k]),
    {
        let had_state = has_key(&base, "state");
        let mut t = base;
        put(&mut t, "old", str_item(self.original.as_str()));
        put(&mut t, "new", str_item(self.replacement.as_str()));
        proof {
            reveal_strlit("old");
            reveal_strlit("new");
            reveal_strlit("state");
            assert("old"@[0] != "new"@[0] && "state"@.len() == 5 && "old"@.len() == 3);
        }
        if had_state || self.state != SubGameStates::SUB_MAX {
            put(&mut t, "state", str_item(self.state.name()));
        }
        t
    }
}

impl Translation {
    /// Writes the language pack to its document's root table: `language`,
    /// `author`, `enabled`, and under `translation` one table per
    /// replacement, in order, each edited in place of the table at its
    /// position. The other entries stay.
    pub fn write(&self, root: &mut Table)
        ensures
            ({
                let e = table_entries(*final(root));
                &&& e.contains_key("language"@) && toml_str(e["language"@]) == Some(self.language@)
                &&& e.contains_key("author"@) && toml_str(e["author"@]) == Some(self.author@)
                &&& e.contains_key("enabled"@) && crate::toml_doc::toml_bool(e["enabled"@]) == Some(self.enabled)
                &&& e.contains_key("translation"@)
                &&& toml_tables_len(e["translation"@]) == Some(self.translations@.len())
                &&& forall|i: int| 0 <= i < self.translations@.len() ==> #[trigger] toml_index(e["translation"@], i) is Some
                    && translation_item_holds(toml_index(e["translation"@], i)->0, self.translations@[i]@)
            }),
            forall|k: Seq<char>|
                k != "language"@ && k != "author"@ && k != "enabled"@ && k != "translation"@
                    ==> (#[trigger] table_entries(*final(root)).contains_key(k) == table_entries(*old(root)).contains_key(k)
                    && table_entries(*final(root))[k] == table_entries(*old(root))[k]),
    {
        let mut tables: Vec<Table> = Vec::new();
        let mut i: usize = 0;
        while i < self.translations.len()
            invariant
                i <= self.translations@.len(),
                tables@.len() == i,
                forall|j: int| 0 <= j < i ==> translation_entries_hold(table_entries(#[trigger] tables@[j]), self.translations@[j]@),
            decreases self.translations@.len() - i,
        {
            let base = base_element(root, "translation", i);
            tables.push(self.translations[i].to_table(base));
            i = i + 1;
        }
        let list = tables_item(tables);
        proof {
            assert forall|i: int| 0 <= i < self.translations@.len() implies #[trigger] toml_index(list, i) is Some
                && translation_item_holds(toml_index(list, i)->0, self.translations@[i]@) by {
                let t = toml_index(list, i)->0;
                assert(translation_entries_hold(table_entries(tables@[i]), self.translations@[i]@));
                assert(item_is_table(t, tables@[i]));
                assert(toml_key(t, "old"@) is Some);
                assert(toml_key(t, "new"@) is Some);
                assert(toml_key(t, "state"@) is Some ==> table_shows(tables@[i], "state"@));
            }
        }
        put(root, "language", str_item(self.language.as_str()));
        put(root, "author", str_item(self.author.as_str()));
        put(root, "enabled", bool_item(self.enabled));
        put(root, "translation", list);
        proof {
            reveal_strlit("language");
            reveal_strlit("author");
            reveal_strlit("enabled");
            reveal_strlit("translation");
            assert("language"@.len() == 8 && "author"@.len() == 6 && "enabled"@.len() == 7
                && "translation"@.len() == 11);
        }
    }
}

} // verus!
