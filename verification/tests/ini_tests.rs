use mhf::config::MhfVersion;
use mhf::ini::{resolve_settings, IniValues};

#[test]
fn absent_keys_take_documented_defaults() {
    let ini = IniValues::all_absent();
    let st = resolve_settings(MhfVersion::ZZ, &ini);
    assert_eq!(st.preset_level, 0);
    assert_eq!(st.custom, 1);
    assert_eq!(st.fullscreen_mode, 1);
    assert_eq!(st.window_resolution_w, 1920);
    assert_eq!(st.window_resolution_h, 1080);
    assert_eq!(st.fullscreen_resolution_w, 1920);
    assert_eq!(st.fullscreen_resolution_h, 1080);
    assert_eq!(st.disp_max_char, 100);
    assert_eq!(st.texture_dxt_use, 0);
    assert_eq!(st.now_monitor_wh, 0);
    assert_eq!(st.graphics_ver, 1);
    assert_eq!(st.sound_notuse, 0);
    assert_eq!(st.sound_volume, 0);
    assert_eq!(st.sound_volume_inactivity, 0);
    assert_eq!(st.sound_volume_minimize, 0);
    assert_eq!(st.sound_frequency, 48000);
    assert_eq!(st.sound_buffernum, 2048);
    assert_eq!(st.language, 0);
    assert_eq!(st.font_quality, 4);
    assert_eq!(st.font_weight, 700);
    assert_eq!(st.font_name, b"MS ????".to_vec());
    assert_eq!(st.drawskip, 1);
    assert_eq!(st.clogdis, 0);
    assert_eq!(st.proxy_use, 0);
    assert_eq!(st.proxy_ie, 0);
    assert_eq!(st.proxy_set, 1);
    assert_eq!(st.proxy_addr, b"127.0.0.1".to_vec());
    assert_eq!(st.proxy_port, 8888);
    assert_eq!(st.server_sel, 1);
}

#[test]
fn present_keys_keep_their_values() {
    let mut ini = IniValues::all_absent();
    ini.preset_level = Some(3);
    ini.window_resolution_w = Some(1280);
    ini.window_resolution_h = Some(720);
    ini.sound_frequency = Some(44100);
    ini.font_name = Some(b"Tahoma".to_vec());
    ini.proxy_addr = Some(b"10.0.0.2".to_vec());
    ini.proxy_port = Some(9000);
    ini.graphics_ver = Some(2);
    let st = resolve_settings(MhfVersion::ZZ, &ini);
    assert_eq!(st.preset_level, 3);
    assert_eq!(st.window_resolution_w, 1280);
    assert_eq!(st.window_resolution_h, 720);
    assert_eq!(st.sound_frequency, 44100);
    assert_eq!(st.font_name, b"Tahoma".to_vec());
    assert_eq!(st.proxy_addr, b"10.0.0.2".to_vec());
    assert_eq!(st.proxy_port, 9000);
    assert_eq!(st.graphics_ver, 2);
}

#[test]
fn graphics_version_is_fixed_for_f5() {
    let mut ini = IniValues::all_absent();
    ini.graphics_ver = Some(2);
    let st = resolve_settings(MhfVersion::F5, &ini);
    assert_eq!(st.graphics_ver, 0);
    let st2 = resolve_settings(MhfVersion::F5, &IniValues::all_absent());
    assert_eq!(st2.graphics_ver, 0);
}
