use launcher::{
    Buttons, Config, DataTypes, InternalPatch, InternalTranslation, Keyconfig, Patch,
    SubGameStates, Translation, BINDING_COUNT,
};
use toml_edit::Document;

fn doc(text: &str) -> Document {
    text.parse::<Document>().unwrap()
}

const CONFIG: &str = "fps = 144\nfullscreen = true\nrumbleIntensity = 50\n\n[internalRes]\nx = 2560\ny = 1440\n";

#[test]
fn config_reads_every_setting() {
    let d = doc(CONFIG);
    assert_eq!(
        Config::read(d.as_item()),
        Config { fps: 144, internal_res_x: 2560, internal_res_y: 1440, fullscreen: true, rumble_intensity: 50 }
    );
}

#[test]
fn config_with_inline_resolution() {
    let d = doc("fps = 60\ninternalRes = { x = 1280, y = 720 }\nfullscreen = false\nrumbleIntensity = 0\n");
    let c = Config::read(d.as_item());
    assert_eq!((c.internal_res_x, c.internal_res_y), (1280, 720));
}

#[test]
fn config_missing_or_mistyped_setting() {
    let c = Config::read(doc("fps = 60\nfullscreen = true\nrumbleIntensity = 1\n").as_item());
    assert_eq!(c, Config { fps: 60, internal_res_x: 0, internal_res_y: 0, fullscreen: true, rumble_intensity: 1 });
    let wrong = CONFIG.replace("fullscreen = true", "fullscreen = 1").replace("fps = 144", "fps = \"fast\"");
    let c = Config::read(doc(&wrong).as_item());
    assert_eq!(c.fps, 0);
    assert!(!c.fullscreen);
    assert_eq!(c.internal_res_x, 2560);
}

#[test]
fn config_write_then_read() {
    let mut d = doc("# settings\nfps = 60\nother = \"kept\"\ninternalRes = { x = 1, y = 2 }\nfullscreen = false\nrumbleIntensity = 3\n");
    let c = Config { fps: -1, internal_res_x: 1920, internal_res_y: 1080, fullscreen: true, rumble_intensity: 75 };
    c.write(d.as_table_mut());
    assert_eq!(Config::read(d.as_item()), c);
    assert_eq!(d["other"].as_str(), Some("kept"));
}

fn keyconfig_text(extra: &str) -> String {
    let mut text = String::new();
    for i in 0..BINDING_COUNT {
        let name = Keyconfig::binding_name(i);
        if name == "START" {
            text.push_str(&format!("{name} = [\"ENTER\", \"SDL_START\"{extra}]\n"));
        } else {
            text.push_str(&format!("{name} = []\n"));
        }
    }
    text
}

#[test]
fn keyconfig_reads_bindings() {
    let d = doc(&keyconfig_text(""));
    let k = Keyconfig::read(d.as_item());
    assert_eq!(k.start, vec![Buttons::ENTER, Buttons::SDL_START]);
    assert!(k.test.is_empty());
    assert!(k.camera_move_slow.is_empty());
}

#[test]
fn keyconfig_unknown_button() {
    let d = doc(&keyconfig_text(", \"NOPE\""));
    let mut k = Keyconfig::read(d.as_item());
    assert!(k.start.is_empty());
    k.start = vec![];
    assert_eq!(k, Keyconfig::default());
}

#[test]
fn keyconfig_missing_action() {
    let d = doc("TEST = [\"F2\"]\n");
    let k = Keyconfig::read(d.as_item());
    assert_eq!(k.test, vec![Buttons::F2]);
    assert!(k.start.is_empty());
}

#[test]
fn keyconfig_write_then_read() {
    let mut d = doc(&keyconfig_text(""));
    let mut k = Keyconfig::default();
    k.camera_zoom_in = vec![Buttons::SDL_RSHOULDER, Buttons::Q];
    k.test = vec![Buttons::F1];
    k.write(d.as_table_mut());
    assert_eq!(Keyconfig::read(d.as_item()), k);
}

const PATCH: &str = r#"name = "Widescreen"
author = "someone"
enabled = true

[[patch]]
address = 0x1405E5A4C
data_type = "u8"
data = 1

[[patch]]
address = 16
data_type = "u8_arr"
data = [0x90, 0x90, 0x90]

[[patch]]
address = 32
data_type = "string"
data = "hello"
"#;

#[test]
fn patch_reads_each_data_form() {
    let d = doc(PATCH);
    let p = Patch::read(d.as_item()).unwrap();
    assert_eq!(p.name, "Widescreen");
    assert_eq!(p.author, "someone");
    assert!(p.enabled);
    assert_eq!(p.patches.len(), 3);
    assert_eq!(p.patches[0].address, 0x1405E5A4C);
    assert_eq!(p.patches[0].data_type, DataTypes::u8);
    assert_eq!(p.patches[0].data_int, 1);
    assert_eq!(p.patches[1].data_type, DataTypes::u8_arr);
    assert_eq!(p.patches[1].data_int_arr, vec![0x90, 0x90, 0x90]);
    assert_eq!(p.patches[2].data_string, "hello");
}

#[test]
fn patch_with_unknown_data_type() {
    let d = doc(&PATCH.replace("\"string\"", "\"float\""));
    assert_eq!(Patch::read(d.as_item()), None);
}

#[test]
fn patch_with_data_of_the_wrong_form() {
    let d = doc(&PATCH.replace("data = 1", "data = \"one\""));
    assert_eq!(Patch::read(d.as_item()), None);
}

#[test]
fn patch_write_then_read() {
    let mut d = doc(PATCH);
    let mut p = Patch::read(d.as_item()).unwrap();
    p.enabled = false;
    p.patches[0].data_int = 7;
    let mut extra = InternalPatch::default();
    extra.address = 48;
    extra.data_type = DataTypes::i64;
    extra.data_int = -5;
    p.patches.push(extra);
    p.write(d.as_table_mut());
    assert_eq!(Patch::read(d.as_item()), Some(p));
}

const TRANSLATION: &str = r#"language = "English"
author = "someone"
enabled = false

[[translation]]
old = "はい"
new = "Yes"

[[translation]]
old = "いいえ"
new = "No"
state = "SUB_TITLE"
"#;

#[test]
fn translation_reads_states() {
    let d = doc(TRANSLATION);
    let t = Translation::read(d.as_item()).unwrap();
    assert_eq!(t.language, "English");
    assert!(!t.enabled);
    assert_eq!(t.translations.len(), 2);
    assert_eq!(t.translations[0].state, SubGameStates::SUB_MAX);
    assert_eq!(t.translations[0].replacement, "Yes");
    assert_eq!(t.translations[1].original, "いいえ");
    assert_eq!(t.translations[1].state, SubGameStates::SUB_TITLE);
}

#[test]
fn translation_with_unknown_state() {
    let d = doc(&TRANSLATION.replace("SUB_TITLE", "SUB_NOWHERE"));
    assert_eq!(Translation::read(d.as_item()), None);
}

#[test]
fn translation_write_then_read() {
    let mut d = doc(TRANSLATION);
    let mut t = Translation::read(d.as_item()).unwrap();
    t.enabled = true;
    t.translations.push(InternalTranslation {
        original: "a".to_string(),
        replacement: "b".to_string(),
        state: SubGameStates::SUB_GAME_MAIN,
    });
    t.write(d.as_table_mut());
    assert_eq!(Translation::read(d.as_item()), Some(t));
}

#[test]
fn keyconfig_write_keeps_other_entries() {
    let mut d = doc("OTHER = 1\n");
    Keyconfig::default().write(d.as_table_mut());
    assert_eq!(d["OTHER"].as_integer(), Some(1));
    assert_eq!(d["TEST"].as_array().map(|a| a.len()), Some(0));
}

#[test]
fn patch_write_fills_each_table() {
    let mut d = doc(&PATCH.replace("data = 1", "data = 1\ncomment = \"kept\""));
    let mut p = Patch::read(d.as_item()).unwrap();
    p.patches[0].address = 99;
    p.patches[2].data_string = "bye".to_string();
    p.write(d.as_table_mut());
    let tables = d["patch"].as_array_of_tables().unwrap();
    assert_eq!(tables.len(), 3);
    let first = tables.get(0).unwrap();
    assert_eq!(first["address"].as_integer(), Some(99));
    assert_eq!(first["data_type"].as_str(), Some("u8"));
    assert_eq!(first["data"].as_integer(), Some(1));
    assert_eq!(first["comment"].as_str(), Some("kept"));
    assert_eq!(tables.get(1).unwrap()["data"].as_array().map(|a| a.len()), Some(3));
    assert_eq!(tables.get(2).unwrap()["data"].as_str(), Some("bye"));
}

#[test]
fn patch_write_drops_extra_tables() {
    let mut d = doc(PATCH);
    let mut p = Patch::read(d.as_item()).unwrap();
    p.patches.truncate(1);
    p.write(d.as_table_mut());
    assert_eq!(d["patch"].as_array_of_tables().unwrap().len(), 1);
    assert_eq!(Patch::read(d.as_item()), Some(p));
}

#[test]
fn translation_write_keeps_present_state() {
    let mut d = doc(TRANSLATION);
    let mut t = Translation::read(d.as_item()).unwrap();
    t.translations[1].state = SubGameStates::SUB_MAX;
    t.write(d.as_table_mut());
    let tables = d["translation"].as_array_of_tables().unwrap();
    assert!(!tables.get(0).unwrap().contains_key("state"));
    assert_eq!(tables.get(1).unwrap()["state"].as_str(), Some("SUB_MAX"));
    assert_eq!(Translation::read(d.as_item()), Some(t));
}
