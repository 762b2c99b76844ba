use launcher::{
    buttons_from_names, buttons_vec_to_string, Buttons, DataTypes, Keyconfig, SubGameStates,
    BINDING_COUNT,
};

#[test]
fn button_names_in_order() {
    let v = vec![Buttons::F1, Buttons::SDL_DPAD_UP, Buttons::NUM0, Buttons::Q];
    assert_eq!(buttons_vec_to_string(&v), vec!["F1", "SDL_DPAD_UP", "NUM0", "Q"]);
    assert!(buttons_vec_to_string(&vec![]).is_empty());
}

#[test]
fn button_names_parse_back() {
    let v = vec![Buttons::SDL_RSTICK_PRESS, Buttons::ENTER, Buttons::F12];
    assert_eq!(buttons_from_names(&buttons_vec_to_string(&v)), Some(v));
}

#[test]
fn unknown_button_name() {
    let names = vec!["F1".to_string(), "f1".to_string()];
    assert_eq!(buttons_from_names(&names), None);
    assert_eq!(Buttons::from_name("SDL_NOTHING"), None);
}

#[test]
fn data_type_names() {
    assert_eq!(DataTypes::from_name("i16_arr"), Some(DataTypes::i16_arr));
    assert_eq!(DataTypes::string.name(), "string");
    assert_eq!(DataTypes::default(), DataTypes::u8_arr);
    assert_eq!(DataTypes::from_name("float"), None);
}

#[test]
fn game_state_names() {
    assert_eq!(SubGameStates::from_name("SUB_TITLE"), Some(SubGameStates::SUB_TITLE));
    assert_eq!(SubGameStates::SUB_APP_ERROR.name(), "SUB_APP_ERROR");
    assert_eq!(SubGameStates::default(), SubGameStates::SUB_MAX);
}

#[test]
fn keyconfig_bindings() {
    let mut k = Keyconfig::default();
    assert_eq!(Keyconfig::binding_name(0), "TEST");
    assert_eq!(Keyconfig::binding_name(BINDING_COUNT - 1), "CAMERA_MOVE_SLOW");
    k.set_binding(7, vec![Buttons::ENTER]);
    assert_eq!(k.start, vec![Buttons::ENTER]);
    assert_eq!(k.binding(7), &vec![Buttons::ENTER]);
    assert!(k.binding(8).is_empty());
}
