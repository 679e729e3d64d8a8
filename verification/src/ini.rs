//! Ini-style settings: the raw key readings handed in by the configuration
//! loader (one `Option` per recognized key, `None` for an absent key) and
//! their resolution against the documented defaults.

use vstd::prelude::*;
use crate::config::MhfVersion;
use crate::naming::copy_bytes;

verus! {

/// Documented default of `FONT.NAME`: ASCII bytes of `"MS ????"`.
pub open spec fn default_font_name_bytes() -> Seq<u8> {
    seq![77u8, 83u8, 32u8, 63u8, 63u8, 63u8, 63u8]
}

/// Documented default of `LAUNCH.PROXY_ADDR`: ASCII bytes of `"127.0.0.1"`.
pub open spec fn default_proxy_addr_bytes() -> Seq<u8> {
    seq![49u8, 50u8, 55u8, 46u8, 48u8, 46u8, 48u8, 46u8, 49u8]
}

/// Raw readings of the recognized ini keys; `None` stands for an absent key.
pub struct IniValues {
    pub preset_level: Option<u32>,
    pub custom: Option<u32>,
    pub fullscreen_mode: Option<u32>,
    pub window_resolution_w: Option<u32>,
    pub window_resolution_h: Option<u32>,
    pub fullscreen_resolution_w: Option<u32>,
    pub fullscreen_resolution_h: Option<u32>,
    pub disp_max_char: Option<u32>,
    pub texture_dxt_use: Option<u32>,
    pub now_monitor_wh: Option<u32>,
    pub graphics_ver: Option<u32>,
    pub sound_notuse: Option<u32>,
    pub sound_volume: Option<u32>,
    pub sound_volume_inactivity: Option<u32>,
    pub sound_volume_minimize: Option<u32>,
    pub sound_frequency: Option<u32>,
    pub sound_buffernum: Option<u32>,
    pub language: Option<u32>,
    pub font_quality: Option<u32>,
    pub font_weight: Option<u32>,
    pub font_name: Option<Vec<u8>>,
    pub drawskip: Option<u32>,
    pub clogdis: Option<u32>,
    pub proxy_use: Option<u32>,
    pub proxy_ie: Option<u32>,
    pub proxy_set: Option<u32>,
    pub proxy_addr: Option<Vec<u8>>,
    pub proxy_port: Option<u32>,
    pub server_sel: Option<u32>,
}

impl IniValues {
    /// Readings with every key absent: resolution yields the documented
    /// defaults.
    pub fn all_absent() -> (r: IniValues)
        ensures
            r.preset_level is None,
            r.custom is None,
            r.fullscreen_mode is None,
            r.window_resolution_w is None,
            r.window_resolution_h is None,
            r.fullscreen_resolution_w is None,
            r.fullscreen_resolution_h is None,
            r.disp_max_char is None,
            r.texture_dxt_use is None,
            r.now_monitor_wh is None,
            r.graphics_ver is None,
            r.sound_notuse is None,
            r.sound_volume is None,
            r.sound_volume_inactivity is None,
            r.sound_volume_minimize is None,
            r.sound_frequency is None,
            r.sound_buffernum is None,
            r.language is None,
            r.font_quality is None,
            r.font_weight is None,
            r.font_name is None,
            r.drawskip is None,
            r.clogdis is None,
            r.proxy_use is None,
            r.proxy_ie is None,
            r.proxy_set is None,
            r.proxy_addr is None,
            r.proxy_port is None,
            r.server_sel is None,
    {
        IniValues {
            preset_level: None,
            custom: None,
            fullscreen_mode: None,
            window_resolution_w: None,
            window_resolution_h: None,
            fullscreen_resolution_w: None,
            fullscreen_resolution_h: None,
            disp_max_char: None,
            texture_dxt_use: None,
            now_monitor_wh: None,
            graphics_ver: None,
            sound_notuse: None,
            sound_volume: None,
            sound_volume_inactivity: None,
            sound_volume_minimize: None,
            sound_frequency: None,
            sound_buffernum: None,
            language: None,
            font_quality: None,
            font_weight: None,
            font_name: None,
            drawskip: None,
            clogdis: None,
            proxy_use: None,
            proxy_ie: None,
            proxy_set: None,
            proxy_addr: None,
            proxy_port: None,
            server_sel: None,
        }
    }
}

/// A present key's parsed value, or the documented default.
pub open spec fn or_default(v: Option<u32>, d: u32) -> u32 {
    match v {
        Option::Some(x) => x,
        Option::None => d,
    }
}

/// Resolved settings written into the display, audio and runtime segments.
pub struct Settings {
    pub preset_level: u32,
    pub custom: u32,
    pub fullscreen_mode: u32,
    pub window_resolution_w: u32,
    pub window_resolution_h: u32,
    pub fullscreen_resolution_w: u32,
    pub fullscreen_resolution_h: u32,
    pub disp_max_char: u32,
    pub texture_dxt_use: u32,
    pub now_monitor_wh: u32,
    /// Graphics selector: read (default 1) for `ZZ`, fixed 0 for `F5`.
    pub graphics_ver: u32,
    pub sound_notuse: u32,
    pub sound_volume: u32,
    pub sound_volume_inactivity: u32,
    pub sound_volume_minimize: u32,
    pub sound_frequency: u32,
    pub sound_buffernum: u32,
    pub language: u32,
    pub font_quality: u32,
    pub font_weight: u32,
    pub font_name: Vec<u8>,
    pub drawskip: u32,
    pub clogdis: u32,
    pub proxy_use: u32,
    pub proxy_ie: u32,
    pub proxy_set: u32,
    pub proxy_addr: Vec<u8>,
    pub proxy_port: u32,
    pub server_sel: u32,
}

/// The graphics selector for a variant: the `F5` variant fixes it at 0, the
/// `ZZ` variant reads it with a default of 1.
pub open spec fn spec_graphics_ver(version: MhfVersion, read: Option<u32>) -> u32 {
    match version {
        MhfVersion::F5 => 0u32,
        MhfVersion::ZZ => or_default(read, 1),
    }
}

/// Resolves every recognized key against its documented default: a present
/// key keeps its parsed value, an absent key falls back to the default.
pub fn resolve_settings(version: MhfVersion, ini: &IniValues) -> (r: Settings)
    ensures
        r.preset_level == or_default(ini.preset_level, 0),
        r.custom == or_default(ini.custom, 1),
        r.fullscreen_mode == or_default(ini.fullscreen_mode, 1),
        r.window_resolution_w == or_default(ini.window_resolution_w, 1920),
        r.window_resolution_h == or_default(ini.window_resolution_h, 1080),
        r.fullscreen_resolution_w == or_default(ini.fullscreen_resolution_w, 1920),
        r.fullscreen_resolution_h == or_default(ini.fullscreen_resolution_h, 1080),
        r.disp_max_char == or_default(ini.disp_max_char, 100),
        r.texture_dxt_use == or_default(ini.texture_dxt_use, 0),
        r.now_monitor_wh == or_default(ini.now_monitor_wh, 0),
        r.graphics_ver == spec_graphics_ver(version, ini.graphics_ver),
        r.sound_notuse == or_default(ini.sound_notuse, 0),
        r.sound_volume == or_default(ini.sound_volume, 0),
        r.sound_volume_inactivity == or_default(ini.sound_volume_inactivity, 0),
        r.sound_volume_minimize == or_default(ini.sound_volume_minimize, 0),
        r.sound_frequency == or_default(ini.sound_frequency, 48000),
        r.sound_buffernum == or_default(ini.sound_buffernum, 2048),
        r.language == or_default(ini.language, 0),
        r.font_quality == or_default(ini.font_quality, 4),
        r.font_weight == or_default(ini.font_weight, 700),
        ini.font_name is Some ==> r.font_name@ == ini.font_name->0@,
        ini.font_name is None ==> r.font_name@ == default_font_name_bytes(),
        r.drawskip == or_default(ini.drawskip, 1),
        r.clogdis == or_default(ini.clogdis, 0),
        r.proxy_use == or_default(ini.proxy_use, 0),
        r.proxy_ie == or_default(ini.proxy_ie, 0),
        r.proxy_set == or_default(ini.proxy_set, 1),
        ini.proxy_addr is Some ==> r.proxy_addr@ == ini.proxy_addr->0@,
        ini.proxy_addr is None ==> r.proxy_addr@ == default_proxy_addr_bytes(),
        r.proxy_port == or_default(ini.proxy_port, 8888),
        r.server_sel == or_default(ini.server_sel, 1),
{
    let font_name: Vec<u8> = match &ini.font_name {
        Option::Some(v) => copy_bytes(v.as_slice()),
        Option::None => {
            let mut d: Vec<u8> = Vec::new();
            d.push(77);
            d.push(83);
            d.push(32);
            d.push(63);
            d.push(63);
            d.push(63);
            d.push(63);
            proof {
                assert(d@ =~= default_font_name_bytes());
            }
            d
        },
    };
    let proxy_addr: Vec<u8> = match &ini.proxy_addr {
        Option::Some(v) => copy_bytes(v.as_slice()),
        Option::None => {
            let mut d: Vec<u8> = Vec::new();
            d.push(49);
            d.push(50);
            d.push(55);
            d.push(46);
            d.push(48);
            d.push(46);
            d.push(48);
            d.push(46);
            d.push(49);
            proof {
                assert(d@ =~= default_proxy_addr_bytes());
            }
            d
        },
    };
    let graphics_ver: u32 = match version {
        MhfVersion::F5 => 0,
        MhfVersion::ZZ => unwrap_or(&ini.graphics_ver, 1),
    };
    Settings {
        preset_level: unwrap_or(&ini.preset_level, 0),
        custom: unwrap_or(&ini.custom, 1),
        fullscreen_mode: unwrap_or(&ini.fullscreen_mode, 1),
        window_resolution_w: unwrap_or(&ini.window_resolution_w, 1920),
        window_resolution_h: unwrap_or(&ini.window_resolution_h, 1080),
        fullscreen_resolution_w: unwrap_or(&ini.fullscreen_resolution_w, 1920),
        fullscreen_resolution_h: unwrap_or(&ini.fullscreen_resolution_h, 1080),
        disp_max_char: unwrap_or(&ini.disp_max_char, 100),
        texture_dxt_use: unwrap_or(&ini.texture_dxt_use, 0),
        now_monitor_wh: unwrap_or(&ini.now_monitor_wh, 0),
        graphics_ver,
        sound_notuse: unwrap_or(&ini.sound_notuse, 0),
        sound_volume: unwrap_or(&ini.sound_volume, 0),
        sound_volume_inactivity: unwrap_or(&ini.sound_volume_inactivity, 0),
        sound_volume_minimize: unwrap_or(&ini.sound_volume_minimize, 0),
        sound_frequency: unwrap_or(&ini.sound_frequency, 48000),
        sound_buffernum: unwrap_or(&ini.sound_buffernum, 2048),
        language: unwrap_or(&ini.language, 0),
        font_quality: unwrap_or(&ini.font_quality, 4),
        font_weight: unwrap_or(&ini.font_weight, 700),
        font_name,
        drawskip: unwrap_or(&ini.drawskip, 1),
        clogdis: unwrap_or(&ini.clogdis, 0),
        proxy_use: unwrap_or(&ini.proxy_use, 0),
        proxy_ie: unwrap_or(&ini.proxy_ie, 0),
        proxy_set: unwrap_or(&ini.proxy_set, 1),
        proxy_addr,
        proxy_port: unwrap_or(&ini.proxy_port, 8888),
        server_sel: unwrap_or(&ini.server_sel, 1),
    }
}

/// A present reading's value, or the given default.
pub fn unwrap_or(v: &Option<u32>, d: u32) -> (r: u32)
    ensures
        r == or_default(*v, d),
{
    match v {
        Option::Some(x) => *x,
        Option::None => d,
    }
}

} // verus!
