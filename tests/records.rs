use ini::Ini;
use launcher::{
    AppComponents, AppGraphics, AppPatches, AppVideo, DisplayFormat, IniConfig, IniConfigWrite,
    IniConfigWriteCtx, Settings, StatusIcons,
};

fn pairs(list: &[(&str, &str)]) -> Vec<(String, String)> {
    list.iter().map(|(k, v)| (k.to_string(), v.to_string())).collect()
}

fn sample_graphics() -> AppGraphics {
    AppGraphics {
        taa_enabled: true,
        mlaa_enabled: false,
        glare_enabled: true,
        depth_of_field_enabled: false,
        frame_rate: -1,
        gamma: 150,
        reflections_enabled: false,
        shadows_enabled: false,
        transparency_enabled: false,
        disable_3d: true,
    }
}

fn sample_patches() -> AppPatches {
    AppPatches {
        disable_movies: true,
        show_cursor: true,
        disable_slider_emu: true,
        stage_count: 4,
        disable_volume_buttons: false,
        disable_photo_ui: false,
        disable_watermark: false,
        status_icons: StatusIcons::PartialOk,
        disable_lyrics: true,
        disable_error_banner: false,
        disable_credits_text: false,
        show_pdloader_text: false,
        disable_credits: false,
        disable_selection_timer: false,
        disable_timer_sprite: false,
    }
}

fn sample_components() -> AppComponents {
    AppComponents {
        enable_input_emulator: false,
        enable_touch_emulator: false,
        enable_player_data_manager: true,
        enable_frame_rate_manager: false,
        enable_fast_loader: false,
        fast_loader_speed: 3,
        enable_camera_controller: false,
        enable_scaling: true,
        enable_dwgui: false,
        enable_hold_transfer: true,
        enable_score_saving: false,
        enable_pausing: false,
    }
}

fn sample_video() -> AppVideo {
    AppVideo {
        display_format: DisplayFormat::Borderless,
        window_size_x: 1280,
        window_size_y: 720,
        internal_resolution_enabled: false,
        internal_resolution_x: -1,
        internal_resolution_y: -1,
    }
}

#[test]
fn graphics_body_is_numeric_in_order() {
    let g = sample_graphics();
    assert_eq!(
        g.write_body(),
        pairs(&[
            ("TAA", "1"),
            ("MLAA", "0"),
            ("Glare", "1"),
            ("DOF", "0"),
            ("FPS.Limit", "-1"),
            ("Gamma", "150"),
            ("Reflections", "0"),
            ("Shadows", "0"),
            ("Punchthrough", "0"),
            ("2D", "1"),
        ])
    );
}

#[test]
fn components_body_is_textual_in_order() {
    let c = sample_components();
    assert_eq!(
        c.write_body(),
        pairs(&[
            ("input_emulator", "false"),
            ("touch_panel_emulator", "false"),
            ("player_data_manager", "true"),
            ("frame_rate_manager", "false"),
            ("fast_loader", "false"),
            ("fast_loader_speed", "3"),
            ("camera_controller", "false"),
            ("scale_component", "true"),
            ("debug_component", "false"),
            ("target_inspector", "true"),
            ("score_saver", "false"),
            ("pause", "false"),
        ])
    );
}

#[test]
fn video_body_and_refresh_rate() {
    let v = sample_video();
    assert_eq!(
        v.write_body(),
        pairs(&[
            ("Display", "3"),
            ("Width", "1280"),
            ("Height", "720"),
            ("r.Enable", "0"),
            ("r.Width", "-1"),
            ("r.Height", "-1"),
        ])
    );
    let g = sample_graphics();
    assert_eq!(AppVideo::write_additional(&g), pairs(&[("RefreshRate", "-1")]));
}

#[test]
fn patches_status_icons_written_as_ordinal() {
    let body = sample_patches().write_body();
    assert_eq!(body.len(), 15);
    assert_eq!(body[7], ("Status_Icons".to_string(), "4".to_string()));
    assert_eq!(body[0], ("No_Movies".to_string(), "1".to_string()));
    assert_eq!(body[14], ("No_Timer_Sprite".to_string(), "0".to_string()));
}

#[test]
fn slider_emulation_is_negated() {
    let mut p = AppPatches::default();
    p.disable_slider_emu = true;
    p.disable_selection_timer = false;
    assert_eq!(
        AppComponents::write_additional(&p),
        pairs(&[("touch_slider_emulator", "false"), ("sys_timer", "false")])
    );
    p.disable_slider_emu = false;
    p.disable_selection_timer = true;
    assert_eq!(
        AppComponents::write_additional(&p),
        pairs(&[("touch_slider_emulator", "true"), ("sys_timer", "true")])
    );
}

#[test]
fn derived_key_lands_in_components_section() {
    let mut doc = Ini::new();
    let p = sample_patches();
    sample_components().write(&p, &mut doc);
    let section = doc.section(Some("components")).unwrap();
    assert_eq!(section.get("touch_slider_emulator"), Some("false"));
    assert_eq!(section.get("sys_timer"), Some("false"));
    assert_eq!(section.get("fast_loader_speed"), Some("3"));
}

#[test]
fn graphics_round_trip() {
    let mut doc = Ini::load_from_str("[Graphics]\nFPS.Limit=999\nExtra=kept\n").unwrap();
    let g = sample_graphics();
    g.write(&mut doc);
    assert_eq!(AppGraphics::read(&doc), Some(g));
    assert_eq!(doc.get_from(Some("Graphics"), "Extra"), Some("kept"));
}

#[test]
fn patches_round_trip() {
    let mut doc = Ini::new();
    let p = sample_patches();
    p.write(&mut doc);
    assert_eq!(AppPatches::read(&doc), Some(p));
    let d = AppPatches::default();
    d.write(&mut doc);
    assert_eq!(AppPatches::read(&doc), Some(d));
}

#[test]
fn components_round_trip() {
    let mut doc = Ini::new();
    let c = sample_components();
    c.write(&sample_patches(), &mut doc);
    assert_eq!(AppComponents::read(&doc), Some(c));
}

#[test]
fn video_round_trip() {
    let mut doc = Ini::new();
    let v = sample_video();
    v.write(&sample_graphics(), &mut doc);
    assert_eq!(AppVideo::read(&doc), Some(v));
    assert_eq!(doc.get_from(Some("Resolution"), "RefreshRate"), Some("-1"));
}

#[test]
fn missing_section_reads_nothing() {
    let doc = Ini::load_from_str("[Other]\nTAA=1\n").unwrap();
    assert_eq!(AppGraphics::read(&doc), None);
    assert_eq!(AppComponents::read(&doc), None);
}

#[test]
fn empty_section_gives_field_defaults() {
    let doc = Ini::load_from_str("[components]\n").unwrap();
    assert_eq!(AppComponents::read(&doc), Some(AppComponents::default()));
}

#[test]
fn malformed_values_give_field_defaults() {
    let doc = Ini::load_from_str("[Graphics]\nFPS.Limit=fast\nGamma=\nTAA=yes\nMLAA=true\n").unwrap();
    let g = AppGraphics::read(&doc).unwrap();
    assert_eq!(g.frame_rate, 60);
    assert_eq!(g.gamma, 100);
    assert!(!g.taa_enabled);
    assert!(g.mlaa_enabled);
}

#[test]
fn frame_rate_read_with_components_defaulted() {
    let config = Ini::load_from_str("[Graphics]\nFPS.Limit=30\n").unwrap();
    let components = Ini::load_from_str("[other]\nx=1\n").unwrap();
    let s = Settings::load(&config, &components);
    assert_eq!(s.graphics.frame_rate, 30);
    assert_eq!(s.components, AppComponents::default());
    assert!(s.components.enable_input_emulator);
    assert_eq!(s.components.fast_loader_speed, 39);
    assert_eq!(s.video, AppVideo::default());
    assert_eq!(s.patches, AppPatches::default());

    let empty = Ini::load_from_str("[components]\n").unwrap();
    let s = Settings::load(&config, &empty);
    assert_eq!(s.components, AppComponents::default());
}

#[test]
fn status_icons_out_of_range_reads_default() {
    let doc = Ini::load_from_str("[Patches]\nStatus_Icons=7\n").unwrap();
    let p = AppPatches::read(&doc).unwrap();
    assert_eq!(p.status_icons, StatusIcons::Default);
}

#[test]
fn settings_store_then_load() {
    let s = Settings {
        video: sample_video(),
        graphics: sample_graphics(),
        patches: sample_patches(),
        components: sample_components(),
    };
    let mut config = Ini::new();
    let mut components = Ini::new();
    s.store(&mut config, &mut components);
    assert_eq!(Settings::load(&config, &components), s);
    assert_eq!(config.get_from(Some("Resolution"), "RefreshRate"), Some("-1"));
    assert_eq!(components.get_from(Some("components"), "touch_slider_emulator"), Some("false"));
}

#[test]
fn defaults_match_built_in_values() {
    let v = AppVideo::default();
    assert_eq!(v.display_format, DisplayFormat::Windowed);
    assert_eq!((v.window_size_x, v.window_size_y), (-1, -1));
    assert_eq!((v.internal_resolution_x, v.internal_resolution_y), (1920, 1080));
    let g = AppGraphics::default();
    assert_eq!((g.frame_rate, g.gamma), (60, 100));
    assert_eq!(AppPatches::default().status_icons, StatusIcons::Default);
    assert_eq!(AppComponents::default().fast_loader_speed, 39);
}

#[test]
fn section_names() {
    assert_eq!(AppVideo::section(), "Resolution");
    assert_eq!(AppGraphics::section(), "Graphics");
    assert_eq!(AppPatches::section(), "Patches");
    assert_eq!(AppComponents::section(), "components");
}
