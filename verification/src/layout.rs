//! Layout schema: byte offsets and widths of every field of the two image
//! variants, and of the shared memory block. Both variants are the five
//! common segments in fixed order; the `ZZ` variant interleaves its extra
//! fields between and after them. All offsets of a segment's fields are
//! relative to the segment start; segment starts depend on the variant.

use vstd::prelude::*;
use crate::config::MhfVersion;

verus! {

// ---- Identity/session segment (common segment 1) ----
pub const C1_MAIN_MODULE: usize = 0x0;
pub const C1_CMD_FLAGS_1: usize = 0xc;
pub const C1_CMD_FLAGS_2: usize = 0x10;
pub const C1_PATH1: usize = 0x14;
pub const C1_PATH2: usize = 0x414;
pub const C1_USER_NAME: usize = 0x814;
pub const C1_USER_PASSWORD: usize = 0x1014;
pub const C1_CMD_NUMBER: usize = 0x1814;
pub const C1_CMD_NETFCUP: usize = 0x1818;
pub const C1_CMD_DMM: usize = 0x181c;
pub const C1_MUTEX_MASTER: usize = 0x1824;
pub const C1_MUTEX_MASTER_READY: usize = 0x1828;
pub const C1_MUTEX_MASTER_NAME: usize = 0x182c;
pub const C1_INI_FILE: usize = 0x186c;
pub const C1_PROC_1: usize = 0x18ac;
pub const C1_PROC_2: usize = 0x18b0;
pub const C1_PROC_3: usize = 0x18b4;
pub const C1_SELECTED_CHAR_ID_1: usize = 0x18c4;
pub const C1_SELECTED_CHAR_ID_2: usize = 0x18c8;
pub const C1_USER_TOKEN_ID: usize = 0x18cc;
pub const C1_USER_TOKEN: usize = 0x18d0;
pub const C1_SERVER_CURRENT_TS: usize = 0x18e8;
pub const C1_SENTINEL_ZERO: usize = 0x18ec;
pub const C1_REMOTE_ADDR: usize = 0x1af0;
pub const C1_REMOTE_HOST: usize = 0x1bf0;
pub const C1_REMOTE_PATCH_COUNT: usize = 0x1cf0;
pub const C1_SERVER_ENTRANCE_COUNT: usize = 0x1cf4;
pub const C1_SELECTED_CHAR_STATUS: usize = 0x1cf8;
pub const C1_USER_RIGHTS: usize = 0x1cfc;
pub const C1_SELECTED_CHAR_HR: usize = 0x1d00;
pub const C1_SELECTED_CHAR_NAME: usize = 0x1d04;
pub const C1_SIZE: usize = 0x1d14;

pub const PATH_CAP: usize = 0x400;
pub const CRED_CAP: usize = 0x800;
pub const MUTEX_NAME_CAP: usize = 0x40;
pub const INI_FILE_CAP: usize = 0x40;
pub const TOKEN_CAP: usize = 0x10;
pub const REMOTE_CAP: usize = 0x100;
pub const CHAR_NAME_CAP: usize = 0x10;

// ---- Display/preset segment (common segment 2) ----
pub const C2_GLOBAL_ALLOC: usize = 0x0;
pub const C2_SENTINEL_ONE: usize = 0x4;
pub const C2_SELECTED_CHAR_GR: usize = 0xc;
pub const C2_PRESET_LEVEL: usize = 0x18;
pub const C2_CUSTOM: usize = 0x1c;
pub const C2_FULLSCREEN_MODE: usize = 0x20;
pub const C2_WINDOW_RESOLUTION_W: usize = 0x24;
pub const C2_WINDOW_RESOLUTION_H: usize = 0x28;
pub const C2_FULLSCREEN_RESOLUTION_W: usize = 0x2c;
pub const C2_FULLSCREEN_RESOLUTION_H: usize = 0x30;
pub const C2_DISP_MAX_CHAR: usize = 0x34;
pub const C2_TEXTURE_DXT_USE: usize = 0x38;
pub const C2_NOW_MONITOR_WH: usize = 0x3c;
pub const C2_SIZE: usize = 0x40;

// ---- Audio/font/locale segment (common segment 3) ----
pub const C3_SOUND_NOTUSE: usize = 0x0;
pub const C3_SOUND_VOLUME: usize = 0x4;
pub const C3_SOUND_VOLUME_INACTIVITY: usize = 0x8;
pub const C3_SOUND_VOLUME_MINIMIZE: usize = 0xc;
pub const C3_SOUND_FREQUENCY: usize = 0x10;
pub const C3_SOUND_BUFFERNUM: usize = 0x14;
pub const C3_LANGUAGE: usize = 0x18;
pub const C3_FONT_QUALITY: usize = 0x1c;
pub const C3_FONT_WEIGHT: usize = 0x20;
pub const C3_FONT_NAME: usize = 0x24;
pub const C3_SIZE: usize = 0x88;

pub const FONT_NAME_CAP: usize = 0x60;

// ---- Runtime-option segment (common segment 4) ----
pub const C4_DRAWSKIP: usize = 0x0;
pub const C4_CLOGDIS: usize = 0x4;
pub const C4_PROXY_USE: usize = 0x8;
pub const C4_PROXY_IE: usize = 0xc;
pub const C4_PROXY_SET: usize = 0x10;
pub const C4_PROXY_ADDR: usize = 0x14;
pub const C4_PROXY_PORT: usize = 0x54;
pub const C4_SERVER_SEL: usize = 0x58;
pub const C4_INNER_PTR_1: usize = 0x5c;
pub const C4_SIZE: usize = 0xa0;

pub const PROXY_ADDR_CAP: usize = 0x40;

// ---- Linkage/bookkeeping segment (common segment 5) ----
pub const C5_DATA_PTR: usize = 0x0;
pub const C5_KEYBOARD_LAYOUT: usize = 0x4;
/// Zero-sized marker location: target of the third self-pointer.
pub const C5_MARKER_3: usize = 0x8;
/// Zero-sized marker location: target of the first self-pointer.
pub const C5_MARKER_1: usize = 0x18;
pub const C5_SENTINEL_A: usize = 0x1c;
pub const C5_INNER_PTR_2: usize = 0x20;
pub const C5_SENTINEL_B: usize = 0x28;
pub const C5_INNER_PTR_3: usize = 0x2c;
pub const C5_PROC_4: usize = 0x30;
pub const C5_PROC_5: usize = 0x38;
/// Zero-sized marker location: target of the second self-pointer.
pub const C5_MARKER_2: usize = 0x44;
pub const C5_MHFO_MODULE: usize = 0x58;
pub const C5_MUTEX_MASTER_READY_NAME: usize = 0x580;
pub const C5_MHDDL_MAIN: usize = 0xa94;
pub const C5_SIZE: usize = 0xa98;

pub const READY_NAME_CAP: usize = 0x100;

/// Both sentinel constants in the linkage segment hold this value.
pub const C5_SENTINEL_VALUE: u32 = 0x10;

// ---- ZZ-only fields, relative to the image base ----
pub const ZZ_CHAR_IDS: usize = 0x1d14;
pub const ZZ_CHAR_IDS_WORDS: usize = 0x10;
pub const ZZ_GRAPHICS_VER: usize = 0x1d94;
pub const ZZ_UNK_SETTING: usize = 0x1e20;
pub const ZZ_PAD_A: usize = 0x1ec4;
pub const ZZ_ALT_ENDPOINT: usize = 0x1f04;
pub const ZZ_ALT_ENDPOINT_CAP: usize = 0xc0;
pub const ZZ_PAD_B: usize = 0x1fc4;
pub const ZZ_SERVER_EXPIRY_TS: usize = 0x2004;
pub const ZZ_REMOTE_16E: usize = 0x2008;
pub const ZZ_SENTINEL_ONE: usize = 0x200c;
pub const ZZ_PAD_C: usize = 0x2010;

pub const F5_PAD: usize = 0x1e7c;

// ---- Segment starts and total size, per variant ----

pub open spec fn spec_c1_off(v: MhfVersion) -> int {
    0
}

pub open spec fn spec_c2_off(v: MhfVersion) -> int {
    match v {
        MhfVersion::ZZ => 0x1d54,
        MhfVersion::F5 => 0x1d14,
    }
}

pub open spec fn spec_c3_off(v: MhfVersion) -> int {
    match v {
        MhfVersion::ZZ => 0x1d98,
        MhfVersion::F5 => 0x1d54,
    }
}

pub open spec fn spec_c4_off(v: MhfVersion) -> int {
    match v {
        MhfVersion::ZZ => 0x1e24,
        MhfVersion::F5 => 0x1ddc,
    }
}

pub open spec fn spec_c5_off(v: MhfVersion) -> int {
    match v {
        MhfVersion::ZZ => 0x2018,
        MhfVersion::F5 => 0x1e88,
    }
}

pub open spec fn spec_total_size(v: MhfVersion) -> int {
    match v {
        MhfVersion::ZZ => 0x2ab0,
        MhfVersion::F5 => 0x2920,
    }
}

pub fn c1_off(v: MhfVersion) -> (r: usize)
    ensures
        r == spec_c1_off(v),
{
    0
}

pub fn c2_off(v: MhfVersion) -> (r: usize)
    ensures
        r == spec_c2_off(v),
{
    match v {
        MhfVersion::ZZ => 0x1d54,
        MhfVersion::F5 => 0x1d14,
    }
}

pub fn c3_off(v: MhfVersion) -> (r: usize)
    ensures
        r == spec_c3_off(v),
{
    match v {
        MhfVersion::ZZ => 0x1d98,
        MhfVersion::F5 => 0x1d54,
    }
}

pub fn c4_off(v: MhfVersion) -> (r: usize)
    ensures
        r == spec_c4_off(v),
{
    match v {
        MhfVersion::ZZ => 0x1e24,
        MhfVersion::F5 => 0x1ddc,
    }
}

pub fn c5_off(v: MhfVersion) -> (r: usize)
    ensures
        r == spec_c5_off(v),
{
    match v {
        MhfVersion::ZZ => 0x2018,
        MhfVersion::F5 => 0x1e88,
    }
}

pub fn total_size(v: MhfVersion) -> (r: usize)
    ensures
        r == spec_total_size(v),
{
    match v {
        MhfVersion::ZZ => 0x2ab0,
        MhfVersion::F5 => 0x2920,
    }
}

// ---- Shared memory block ----
pub const SHARED_BLOCK_SIZE: usize = 0x8ae0;
pub const SB_NOTICE_COUNTS: usize = 0xa0c;
pub const SB_NOTICE_FLAGS: usize = 0xa24;
pub const SB_NOTICE_SLOTS: usize = 0xa2c;
pub const SB_NOTICE_SLOT_CAP: usize = 0x1000;
pub const SB_MEZ_EVENT_ID: usize = 0x8aac;
pub const SB_MEZ_START: usize = 0x8ab0;
pub const SB_MEZ_END: usize = 0x8ab4;
pub const SB_MEZ_SOLO_TICKETS: usize = 0x8ab8;
pub const SB_MEZ_GROUP_TICKETS: usize = 0x8abc;
pub const SB_MEZ_STALLS: usize = 0x8ac0;
pub const SB_MEZ_STALL_WORDS: usize = 0x8;

} // verus!
