//! Image builder: fills a zeroed buffer of the selected variant's exact size
//! field by field, never writing past a field's declared capacity. Handles
//! and callback addresses arrive as plain 32-bit words; the linkage fields of
//! the loaded module and the four self-pointer fields are written by their
//! own steps once the module is loaded and the buffer's final address is
//! fixed. Pinning the buffer and handing it off are the caller's side of the
//! boundary: the self-pointers may only be resolved when the buffer can no
//! longer move, and after the handoff the image belongs to the foreign
//! module for good.

use vstd::prelude::*;
use crate::bytes::seq_at;
use crate::bytes::padded;
use crate::bytes::same_outside;
use crate::bytes::u32_le;
use crate::bytes::u32_words_le;
use crate::bytes::lemma_u32_words_le_len;
use crate::bytes::write_field;
use crate::bytes::write_u32_at;
use crate::bytes::write_u32_words;
use crate::bytes::zeroed_buf;
use crate::bytes::zeros;
use crate::config::BootResources;
use crate::config::CliFlags;
use crate::config::MhfConfig;
use crate::config::MhfVersion;
use crate::flags::cli_fold;
use crate::flags::cli_initial;
use crate::ini::Settings;
use crate::layout::{
    c2_off, c3_off, c4_off, c5_off, total_size, spec_c1_off, spec_c2_off, spec_c3_off,
    spec_c4_off, spec_c5_off, spec_total_size, C1_MAIN_MODULE, C1_CMD_FLAGS_1, C1_CMD_FLAGS_2,
    C1_PATH1, C1_PATH2, C1_USER_NAME, C1_USER_PASSWORD, C1_CMD_NUMBER, C1_CMD_DMM,
    C1_MUTEX_MASTER, C1_MUTEX_MASTER_READY, C1_MUTEX_MASTER_NAME, C1_INI_FILE, C1_PROC_1,
    C1_PROC_2, C1_PROC_3, C1_SELECTED_CHAR_ID_1, C1_SELECTED_CHAR_ID_2, C1_USER_TOKEN_ID,
    C1_USER_TOKEN, C1_SERVER_CURRENT_TS, C1_SENTINEL_ZERO, C1_REMOTE_ADDR, C1_REMOTE_HOST,
    C1_REMOTE_PATCH_COUNT, C1_SERVER_ENTRANCE_COUNT, C1_SELECTED_CHAR_STATUS, C1_USER_RIGHTS,
    C1_SELECTED_CHAR_HR, C1_SELECTED_CHAR_NAME, C1_SIZE, PATH_CAP, CRED_CAP, MUTEX_NAME_CAP,
    INI_FILE_CAP, TOKEN_CAP, REMOTE_CAP, CHAR_NAME_CAP, C2_GLOBAL_ALLOC, C2_SENTINEL_ONE,
    C2_SELECTED_CHAR_GR, C2_PRESET_LEVEL, C2_CUSTOM, C2_FULLSCREEN_MODE, C2_WINDOW_RESOLUTION_W,
    C2_WINDOW_RESOLUTION_H, C2_FULLSCREEN_RESOLUTION_W, C2_FULLSCREEN_RESOLUTION_H,
    C2_DISP_MAX_CHAR, C2_TEXTURE_DXT_USE, C2_NOW_MONITOR_WH, C2_SIZE, C3_SOUND_NOTUSE,
    C3_SOUND_VOLUME, C3_SOUND_VOLUME_INACTIVITY, C3_SOUND_VOLUME_MINIMIZE, C3_SOUND_FREQUENCY,
    C3_SOUND_BUFFERNUM, C3_LANGUAGE, C3_FONT_QUALITY, C3_FONT_WEIGHT, C3_FONT_NAME, C3_SIZE,
    FONT_NAME_CAP, C4_DRAWSKIP, C4_CLOGDIS, C4_PROXY_USE, C4_PROXY_IE, C4_PROXY_SET,
    C4_PROXY_ADDR, C4_PROXY_PORT, C4_SERVER_SEL, C4_INNER_PTR_1, C4_SIZE, PROXY_ADDR_CAP,
    C5_DATA_PTR, C5_KEYBOARD_LAYOUT, C5_MARKER_3, C5_MARKER_1, C5_SENTINEL_A, C5_INNER_PTR_2,
    C5_SENTINEL_B, C5_INNER_PTR_3, C5_PROC_4, C5_PROC_5, C5_MARKER_2, C5_MHFO_MODULE,
    C5_MUTEX_MASTER_READY_NAME, C5_MHDDL_MAIN, C5_SIZE, READY_NAME_CAP, C5_SENTINEL_VALUE,
    ZZ_CHAR_IDS, ZZ_CHAR_IDS_WORDS, ZZ_GRAPHICS_VER, ZZ_UNK_SETTING, ZZ_PAD_A, ZZ_ALT_ENDPOINT,
    ZZ_ALT_ENDPOINT_CAP, ZZ_PAD_B, ZZ_SERVER_EXPIRY_TS, ZZ_REMOTE_16E, ZZ_SENTINEL_ONE,
    ZZ_PAD_C, F5_PAD,
};
use crate::naming::alt_endpoint;
use crate::naming::alt_endpoint_bytes;
use crate::naming::ini_file_name;
use crate::naming::ini_file_name_bytes;
use crate::naming::mutex_master_name;
use crate::naming::mutex_master_name_bytes;
use crate::naming::mutex_master_ready_name;
use crate::naming::mutex_master_ready_name_bytes;
use crate::naming::normalized_folder;
use crate::naming::normalized_folder_bytes;
use crate::naming::remote_addr;
use crate::naming::remote_addr_bytes;
use crate::flags::init_cli;

verus! {

/// The encoded command-flag fields for a configured flag list: the fold of
/// the flags over zeroed fields, or zeroes for an absent list.
pub open spec fn cmd_triple(flags: Option<Vec<CliFlags>>) -> (u32, u32, u32) {
    match flags {
        Option::Some(f) => cli_fold(0, 0, 0, f@),
        Option::None => cli_initial(),
    }
}

/// Character status word: 2 for a newly created character, otherwise 0.
pub open spec fn char_status_val(char_new: bool) -> u32 {
    if char_new {
        2u32
    } else {
        0u32
    }
}

/// First half of the identity/session segment: module handle, encoded
/// command flags, paths, credentials, mutex handles and names, ini filename
/// and the three callback slots; the segment's pad regions stay zero.
#[verifier::opaque]
pub open spec fn common1a_ok(
    s: Seq<u8>,
    off: int,
    cfg: MhfConfig,
    res: BootResources,
    cmd: (u32, u32, u32),
) -> bool {
    let folder = padded(normalized_folder_bytes(cfg.mhf_folder@), PATH_CAP as nat);
    &&& seq_at(s, off + C1_MAIN_MODULE, u32_le(res.main_module))
    &&& seq_at(s, off + 4, zeros(8))
    &&& seq_at(s, off + C1_CMD_FLAGS_1, u32_le(cmd.0))
    &&& seq_at(s, off + C1_CMD_FLAGS_2, u32_le(cmd.1))
    &&& seq_at(s, off + C1_PATH1, folder)
    &&& seq_at(s, off + C1_PATH2, folder)
    &&& seq_at(s, off + C1_USER_NAME, padded(cfg.user_name@, CRED_CAP as nat))
    &&& seq_at(s, off + C1_USER_PASSWORD, padded(cfg.user_password@, CRED_CAP as nat))
    &&& seq_at(s, off + C1_CMD_NUMBER, zeros(8))
    &&& seq_at(s, off + C1_CMD_DMM, u32_le(cmd.2))
    &&& seq_at(s, off + C1_CMD_DMM + 4, zeros(4))
    &&& seq_at(s, off + C1_MUTEX_MASTER, u32_le(res.mutex_master))
    &&& seq_at(s, off + C1_MUTEX_MASTER_READY, u32_le(res.mutex_master_ready))
    &&& seq_at(s, off + C1_MUTEX_MASTER_NAME, padded(mutex_master_name_bytes(), MUTEX_NAME_CAP as nat))
    &&& seq_at(s, off + C1_INI_FILE, padded(ini_file_name_bytes(), INI_FILE_CAP as nat))
    &&& seq_at(s, off + C1_PROC_1, u32_le(res.proc_1))
    &&& seq_at(s, off + C1_PROC_2, u32_le(res.proc_2))
    &&& seq_at(s, off + C1_PROC_3, u32_le(res.proc_3))
    &&& seq_at(s, off + C1_PROC_3 + 4, zeros(0xc))
}

/// Second half of the identity/session segment: selected character, token,
/// timestamps, remote endpoint and host, counters, rights and name.
#[verifier::opaque]
pub open spec fn common1b_ok(s: Seq<u8>, off: int, cfg: MhfConfig) -> bool {
    &&& seq_at(s, off + C1_SELECTED_CHAR_ID_1, u32_le(cfg.char_id))
    &&& seq_at(s, off + C1_SELECTED_CHAR_ID_2, u32_le(cfg.char_id))
    &&& seq_at(s, off + C1_USER_TOKEN_ID, u32_le(cfg.user_token_id))
    &&& seq_at(s, off + C1_USER_TOKEN, padded(cfg.user_token@, TOKEN_CAP as nat))
    &&& seq_at(s, off + C1_USER_TOKEN + TOKEN_CAP, zeros(8))
    &&& seq_at(s, off + C1_SERVER_CURRENT_TS, u32_le(cfg.current_ts))
    &&& seq_at(s, off + C1_SENTINEL_ZERO, u32_le(0))
    &&& seq_at(s, off + C1_SENTINEL_ZERO + 4, zeros(0x200))
    &&& seq_at(
        s,
        off + C1_REMOTE_ADDR,
        padded(remote_addr_bytes(cfg.server_host@, cfg.server_port), REMOTE_CAP as nat),
    )
    &&& seq_at(s, off + C1_REMOTE_HOST, padded(cfg.server_host@, REMOTE_CAP as nat))
    &&& seq_at(s, off + C1_REMOTE_PATCH_COUNT, zeros(4))
    &&& seq_at(s, off + C1_SERVER_ENTRANCE_COUNT, u32_le(cfg.entrance_count))
    &&& seq_at(s, off + C1_SELECTED_CHAR_STATUS, u32_le(char_status_val(cfg.char_new)))
    &&& seq_at(s, off + C1_USER_RIGHTS, u32_le(cfg.user_rights))
    &&& seq_at(s, off + C1_SELECTED_CHAR_HR, u32_le(cfg.char_hr))
    &&& seq_at(s, off + C1_SELECTED_CHAR_NAME, padded(cfg.char_name@, CHAR_NAME_CAP as nat))
}

/// Display/preset segment: shared block handle, its sentinel, the selected
/// character's grade and the screen settings.
#[verifier::opaque]
pub open spec fn common2_ok(
    s: Seq<u8>,
    off: int,
    cfg: MhfConfig,
    st: Settings,
    res: BootResources,
) -> bool {
    &&& seq_at(s, off + C2_GLOBAL_ALLOC, u32_le(res.global_alloc))
    &&& seq_at(s, off + C2_SENTINEL_ONE, u32_le(1))
    &&& seq_at(s, off + C2_SENTINEL_ONE + 4, zeros(4))
    &&& seq_at(s, off + C2_SELECTED_CHAR_GR, u32_le(cfg.char_gr))
    &&& seq_at(s, off + C2_SELECTED_CHAR_GR + 4, zeros(8))
    &&& seq_at(s, off + C2_PRESET_LEVEL, u32_le(st.preset_level))
    &&& seq_at(s, off + C2_CUSTOM, u32_le(st.custom))
    &&& seq_at(s, off + C2_FULLSCREEN_MODE, u32_le(st.fullscreen_mode))
    &&& seq_at(s, off + C2_WINDOW_RESOLUTION_W, u32_le(st.window_resolution_w))
    &&& seq_at(s, off + C2_WINDOW_RESOLUTION_H, u32_le(st.window_resolution_h))
    &&& seq_at(s, off + C2_FULLSCREEN_RESOLUTION_W, u32_le(st.fullscreen_resolution_w))
    &&& seq_at(s, off + C2_FULLSCREEN_RESOLUTION_H, u32_le(st.fullscreen_resolution_h))
    &&& seq_at(s, off + C2_DISP_MAX_CHAR, u32_le(st.disp_max_char))
    &&& seq_at(s, off + C2_TEXTURE_DXT_USE, u32_le(st.texture_dxt_use))
    &&& seq_at(s, off + C2_NOW_MONITOR_WH, u32_le(st.now_monitor_wh))
}

/// Audio/font/locale segment.
#[verifier::opaque]
pub open spec fn common3_ok(s: Seq<u8>, off: int, st: Settings) -> bool {
    &&& seq_at(s, off + C3_SOUND_NOTUSE, u32_le(st.sound_notuse))
    &&& seq_at(s, off + C3_SOUND_VOLUME, u32_le(st.sound_volume))
    &&& seq_at(s, off + C3_SOUND_VOLUME_INACTIVITY, u32_le(st.sound_volume_inactivity))
    &&& seq_at(s, off + C3_SOUND_VOLUME_MINIMIZE, u32_le(st.sound_volume_minimize))
    &&& seq_at(s, off + C3_SOUND_FREQUENCY, u32_le(st.sound_frequency))
    &&& seq_at(s, off + C3_SOUND_BUFFERNUM, u32_le(st.sound_buffernum))
    &&& seq_at(s, off + C3_LANGUAGE, u32_le(st.language))
    &&& seq_at(s, off + C3_FONT_QUALITY, u32_le(st.font_quality))
    &&& seq_at(s, off + C3_FONT_WEIGHT, u32_le(st.font_weight))
    &&& seq_at(s, off + C3_FONT_NAME, padded(st.font_name@, FONT_NAME_CAP as nat))
    &&& seq_at(s, off + C3_FONT_NAME + FONT_NAME_CAP, zeros(4))
}

/// Runtime-option segment; its self-pointer field stays zero until the
/// image is pinned and resolved.
#[verifier::opaque]
pub open spec fn common4_ok(s: Seq<u8>, off: int, st: Settings) -> bool {
    &&& seq_at(s, off + C4_DRAWSKIP, u32_le(st.drawskip))
    &&& seq_at(s, off + C4_CLOGDIS, u32_le(st.clogdis))
    &&& seq_at(s, off + C4_PROXY_USE, u32_le(st.proxy_use))
    &&& seq_at(s, off + C4_PROXY_IE, u32_le(st.proxy_ie))
    &&& seq_at(s, off + C4_PROXY_SET, u32_le(st.proxy_set))
    &&& seq_at(s, off + C4_PROXY_ADDR, padded(st.proxy_addr@, PROXY_ADDR_CAP as nat))
    &&& seq_at(s, off + C4_PROXY_PORT, u32_le(st.proxy_port))
    &&& seq_at(s, off + C4_SERVER_SEL, u32_le(st.server_sel))
    &&& seq_at(s, off + C4_INNER_PTR_1, zeros((C4_SIZE - C4_INNER_PTR_1) as nat))
}

/// Linkage/bookkeeping segment: keyboard layout, the two sentinel
/// constants, the two callback slots and the ready-mutex name; the
/// self-pointer and module-linkage fields stay zero until their steps run.
#[verifier::opaque]
pub open spec fn common5_ok(s: Seq<u8>, off: int, res: BootResources) -> bool {
    &&& seq_at(s, off + C5_DATA_PTR, zeros(4))
    &&& seq_at(s, off + C5_KEYBOARD_LAYOUT, u32_le(res.keyboard_layout))
    &&& seq_at(s, off + C5_MARKER_3, zeros((C5_SENTINEL_A - C5_MARKER_3) as nat))
    &&& seq_at(s, off + C5_SENTINEL_A, u32_le(C5_SENTINEL_VALUE))
    &&& seq_at(s, off + C5_INNER_PTR_2, zeros(8))
    &&& seq_at(s, off + C5_SENTINEL_B, u32_le(C5_SENTINEL_VALUE))
    &&& seq_at(s, off + C5_INNER_PTR_3, zeros(4))
    &&& seq_at(s, off + C5_PROC_4, u32_le(res.proc_4))
    &&& seq_at(s, off + C5_PROC_4 + 4, zeros(4))
    &&& seq_at(s, off + C5_PROC_5, u32_le(res.proc_5))
    &&& seq_at(s, off + C5_PROC_5 + 4, zeros((C5_MUTEX_MASTER_READY_NAME - C5_PROC_5 - 4) as nat))
    &&& seq_at(
        s,
        off + C5_MUTEX_MASTER_READY_NAME,
        padded(mutex_master_ready_name_bytes(), READY_NAME_CAP as nat),
    )
    &&& seq_at(
        s,
        off + C5_MUTEX_MASTER_READY_NAME + READY_NAME_CAP,
        zeros((C5_SIZE - C5_MUTEX_MASTER_READY_NAME - READY_NAME_CAP) as nat),
    )
}

/// The `ZZ`-only fields: the character-id array, graphics selector,
/// alternate endpoint, expiry timestamp and tail sentinel, with their pad
/// regions zero.
#[verifier::opaque]
pub open spec fn zz_tail_ok(s: Seq<u8>, cfg: MhfConfig, st: Settings) -> bool {
    &&& seq_at(s, ZZ_CHAR_IDS as int, u32_words_le(cfg.char_ids@, ZZ_CHAR_IDS_WORDS as nat))
    &&& seq_at(s, ZZ_GRAPHICS_VER as int, u32_le(st.graphics_ver))
    &&& seq_at(s, ZZ_UNK_SETTING as int, zeros(4))
    &&& seq_at(s, ZZ_PAD_A as int, zeros((ZZ_ALT_ENDPOINT - ZZ_PAD_A) as nat))
    &&& seq_at(
        s,
        ZZ_ALT_ENDPOINT as int,
        padded(alt_endpoint_bytes(cfg.server_host@), ZZ_ALT_ENDPOINT_CAP as nat),
    )
    &&& seq_at(s, ZZ_PAD_B as int, zeros((ZZ_SERVER_EXPIRY_TS - ZZ_PAD_B) as nat))
    &&& seq_at(s, ZZ_SERVER_EXPIRY_TS as int, u32_le(cfg.expiry_ts))
    &&& seq_at(s, ZZ_REMOTE_16E as int, zeros(4))
    &&& seq_at(s, ZZ_SENTINEL_ONE as int, u32_le(1))
    &&& seq_at(s, ZZ_PAD_C as int, zeros(8))
}

/// The built image, before module linkage and self-pointer resolution:
/// every fixed-offset field holds the configured value, truncated to and
/// zero-padded within its declared capacity, and every pad region is zero.
pub open spec fn image_ok(s: Seq<u8>, cfg: MhfConfig, st: Settings, res: BootResources) -> bool {
    let v = cfg.version;
    &&& s.len() == spec_total_size(v)
    &&& common1a_ok(s, spec_c1_off(v), cfg, res, cmd_triple(cfg.mhf_flags))
    &&& common1b_ok(s, spec_c1_off(v), cfg)
    &&& common2_ok(s, spec_c2_off(v), cfg, st, res)
    &&& common3_ok(s, spec_c3_off(v), st)
    &&& common4_ok(s, spec_c4_off(v), st)
    &&& common5_ok(s, spec_c5_off(v), res)
    &&& v == MhfVersion::ZZ ==> zz_tail_ok(s, cfg, st)
    &&& v == MhfVersion::F5 ==> seq_at(s, F5_PAD as int, zeros((0x1e88 - F5_PAD) as nat))
}

/// Fills the first half of the identity/session segment.
#[verifier::rlimit(100)]
fn fill_common1a(
    buf: &mut Vec<u8>,
    off: usize,
    cfg: &MhfConfig,
    res: &BootResources,
    cmd_flags_1: u32,
    cmd_flags_2: u32,
    cmd_dmm: u32,
)
    requires
        off + C1_SIZE <= old(buf)@.len(),
        forall|j: int| off <= j < off + C1_SELECTED_CHAR_ID_1 ==> old(buf)@[j] == 0u8,
    ensures
        final(buf)@.len() == old(buf)@.len(),
        common1a_ok(final(buf)@, off as int, *cfg, *res, (cmd_flags_1, cmd_flags_2, cmd_dmm)),
        same_outside(final(buf)@, old(buf)@, off as int, off + C1_SELECTED_CHAR_ID_1),
{
    proof {
        reveal(common1a_ok);
    }
    let n = buf.len();
    write_u32_at(buf, off + C1_MAIN_MODULE, res.main_module);
    write_u32_at(buf, off + C1_CMD_FLAGS_1, cmd_flags_1);
    write_u32_at(buf, off + C1_CMD_FLAGS_2, cmd_flags_2);
    let folder = normalized_folder(&cfg.mhf_folder);
    write_field(buf, off + C1_PATH1, PATH_CAP, folder.as_slice());
    write_field(buf, off + C1_PATH2, PATH_CAP, folder.as_slice());
    write_field(buf, off + C1_USER_NAME, CRED_CAP, cfg.user_name.as_slice());
    write_field(buf, off + C1_USER_PASSWORD, CRED_CAP, cfg.user_password.as_slice());
    write_u32_at(buf, off + C1_CMD_DMM, cmd_dmm);
    write_u32_at(buf, off + C1_MUTEX_MASTER, res.mutex_master);
    write_u32_at(buf, off + C1_MUTEX_MASTER_READY, res.mutex_master_ready);
    let master_name = mutex_master_name();
    write_field(buf, off + C1_MUTEX_MASTER_NAME, MUTEX_NAME_CAP, master_name.as_slice());
    let ini_name = ini_file_name();
    write_field(buf, off + C1_INI_FILE, INI_FILE_CAP, ini_name.as_slice());
    write_u32_at(buf, off + C1_PROC_1, res.proc_1);
    write_u32_at(buf, off + C1_PROC_2, res.proc_2);
    write_u32_at(buf, off + C1_PROC_3, res.proc_3);
}

/// Fills the second half of the identity/session segment.
#[verifier::rlimit(100)]
fn fill_common1b(buf: &mut Vec<u8>, off: usize, cfg: &MhfConfig)
    requires
        off + C1_SIZE <= old(buf)@.len(),
        forall|j: int|
            off + C1_SELECTED_CHAR_ID_1 <= j < off + C1_SIZE ==> old(buf)@[j] == 0u8,
    ensures
        final(buf)@.len() == old(buf)@.len(),
        common1b_ok(final(buf)@, off as int, *cfg),
        same_outside(
            final(buf)@,
            old(buf)@,
            off + C1_SELECTED_CHAR_ID_1,
            off + C1_SIZE,
        ),
{
    proof {
        reveal(common1b_ok);
    }
    let n = buf.len();
    write_u32_at(buf, off + C1_SELECTED_CHAR_ID_1, cfg.char_id);
    write_u32_at(buf, off + C1_SELECTED_CHAR_ID_2, cfg.char_id);
    write_u32_at(buf, off + C1_USER_TOKEN_ID, cfg.user_token_id);
    write_field(buf, off + C1_USER_TOKEN, TOKEN_CAP, cfg.user_token.as_slice());
    write_u32_at(buf, off + C1_SERVER_CURRENT_TS, cfg.current_ts);
    write_u32_at(buf, off + C1_SENTINEL_ZERO, 0);
    let addr = remote_addr(&cfg.server_host, cfg.server_port);
    write_field(buf, off + C1_REMOTE_ADDR, REMOTE_CAP, addr.as_slice());
    write_field(buf, off + C1_REMOTE_HOST, REMOTE_CAP, cfg.server_host.as_slice());
    write_u32_at(buf, off + C1_SERVER_ENTRANCE_COUNT, cfg.entrance_count);
    let status: u32 = if cfg.char_new {
        2
    } else {
        0
    };
    write_u32_at(buf, off + C1_SELECTED_CHAR_STATUS, status);
    write_u32_at(buf, off + C1_USER_RIGHTS, cfg.user_rights);
    write_u32_at(buf, off + C1_SELECTED_CHAR_HR, cfg.char_hr);
    write_field(buf, off + C1_SELECTED_CHAR_NAME, CHAR_NAME_CAP, cfg.char_name.as_slice());
}

/// Fills the display/preset segment.
#[verifier::rlimit(100)]
fn fill_common2(buf: &mut Vec<u8>, off: usize, cfg: &MhfConfig, st: &Settings, res: &BootResources)
    requires
        off + C2_SIZE <= old(buf)@.len(),
        forall|j: int| off <= j < off + C2_SIZE ==> old(buf)@[j] == 0u8,
    ensures
        final(buf)@.len() == old(buf)@.len(),
        common2_ok(final(buf)@, off as int, *cfg, *st, *res),
        same_outside(final(buf)@, old(buf)@, off as int, off + C2_SIZE),
{
    proof {
        reveal(common2_ok);
    }
    let n = buf.len();
    write_u32_at(buf, off + C2_GLOBAL_ALLOC, res.global_alloc);
    write_u32_at(buf, off + C2_SENTINEL_ONE, 1);
    write_u32_at(buf, off + C2_SELECTED_CHAR_GR, cfg.char_gr);
    write_u32_at(buf, off + C2_PRESET_LEVEL, st.preset_level);
    write_u32_at(buf, off + C2_CUSTOM, st.custom);
    write_u32_at(buf, off + C2_FULLSCREEN_MODE, st.fullscreen_mode);
    write_u32_at(buf, off + C2_WINDOW_RESOLUTION_W, st.window_resolution_w);
    write_u32_at(buf, off + C2_WINDOW_RESOLUTION_H, st.window_resolution_h);
    write_u32_at(buf, off + C2_FULLSCREEN_RESOLUTION_W, st.fullscreen_resolution_w);
    write_u32_at(buf, off + C2_FULLSCREEN_RESOLUTION_H, st.fullscreen_resolution_h);
    write_u32_at(buf, off + C2_DISP_MAX_CHAR, st.disp_max_char);
    write_u32_at(buf, off + C2_TEXTURE_DXT_USE, st.texture_dxt_use);
    write_u32_at(buf, off + C2_NOW_MONITOR_WH, st.now_monitor_wh);
}

/// Fills the audio/font/locale segment.
#[verifier::rlimit(100)]
fn fill_common3(buf: &mut Vec<u8>, off: usize, st: &Settings)
    requires
        off + C3_SIZE <= old(buf)@.len(),
        forall|j: int| off <= j < off + C3_SIZE ==> old(buf)@[j] == 0u8,
    ensures
        final(buf)@.len() == old(buf)@.len(),
        common3_ok(final(buf)@, off as int, *st),
        same_outside(final(buf)@, old(buf)@, off as int, off + C3_SIZE),
{
    proof {
        reveal(common3_ok);
    }
    let n = buf.len();
    write_u32_at(buf, off + C3_SOUND_NOTUSE, st.sound_notuse);
    write_u32_at(buf, off + C3_SOUND_VOLUME, st.sound_volume);
    write_u32_at(buf, off + C3_SOUND_VOLUME_INACTIVITY, st.sound_volume_inactivity);
    write_u32_at(buf, off + C3_SOUND_VOLUME_MINIMIZE, st.sound_volume_minimize);
    write_u32_at(buf, off + C3_SOUND_FREQUENCY, st.sound_frequency);
    write_u32_at(buf, off + C3_SOUND_BUFFERNUM, st.sound_buffernum);
    write_u32_at(buf, off + C3_LANGUAGE, st.language);
    write_u32_at(buf, off + C3_FONT_QUALITY, st.font_quality);
    write_u32_at(buf, off + C3_FONT_WEIGHT, st.font_weight);
    write_field(buf, off + C3_FONT_NAME, FONT_NAME_CAP, st.font_name.as_slice());
}

/// Fills the runtime-option segment.
#[verifier::rlimit(100)]
fn fill_common4(buf: &mut Vec<u8>, off: usize, st: &Settings)
    requires
        off + C4_SIZE <= old(buf)@.len(),
        forall|j: int| off <= j < off + C4_SIZE ==> old(buf)@[j] == 0u8,
    ensures
        final(buf)@.len() == old(buf)@.len(),
        common4_ok(final(buf)@, off as int, *st),
        same_outside(final(buf)@, old(buf)@, off as int, off + C4_SIZE),
{
    proof {
        reveal(common4_ok);
    }
    let n = buf.len();
    write_u32_at(buf, off + C4_DRAWSKIP, st.drawskip);
    write_u32_at(buf, off + C4_CLOGDIS, st.clogdis);
    write_u32_at(buf, off + C4_PROXY_USE, st.proxy_use);
    write_u32_at(buf, off + C4_PROXY_IE, st.proxy_ie);
    write_u32_at(buf, off + C4_PROXY_SET, st.proxy_set);
    write_field(buf, off + C4_PROXY_ADDR, PROXY_ADDR_CAP, st.proxy_addr.as_slice());
    write_u32_at(buf, off + C4_PROXY_PORT, st.proxy_port);
    write_u32_at(buf, off + C4_SERVER_SEL, st.server_sel);
}

/// Fills the linkage/bookkeeping segment.
#[verifier::rlimit(100)]
fn fill_common5(buf: &mut Vec<u8>, off: usize, res: &BootResources)
    requires
        off + C5_SIZE <= old(buf)@.len(),
        forall|j: int| off <= j < off + C5_SIZE ==> old(buf)@[j] == 0u8,
    ensures
        final(buf)@.len() == old(buf)@.len(),
        common5_ok(final(buf)@, off as int, *res),
        same_outside(final(buf)@, old(buf)@, off as int, off + C5_SIZE),
{
    proof {
        reveal(common5_ok);
    }
    let n = buf.len();
    write_u32_at(buf, off + C5_KEYBOARD_LAYOUT, res.keyboard_layout);
    write_u32_at(buf, off + C5_SENTINEL_A, C5_SENTINEL_VALUE);
    write_u32_at(buf, off + C5_SENTINEL_B, C5_SENTINEL_VALUE);
    write_u32_at(buf, off + C5_PROC_4, res.proc_4);
    write_u32_at(buf, off + C5_PROC_5, res.proc_5);
    let ready_name = mutex_master_ready_name();
    write_field(buf, off + C5_MUTEX_MASTER_READY_NAME, READY_NAME_CAP, ready_name.as_slice());
}

/// Fills the `ZZ`-only fields; their locations are disjoint from the five
/// common segments.
#[verifier::rlimit(100)]
fn fill_zz_tail(buf: &mut Vec<u8>, cfg: &MhfConfig, st: &Settings)
    requires
        old(buf)@.len() == spec_total_size(MhfVersion::ZZ),
        forall|j: int| ZZ_CHAR_IDS <= j < ZZ_CHAR_IDS + 4 * ZZ_CHAR_IDS_WORDS ==> old(buf)@[j]
            == 0u8,
        forall|j: int| ZZ_UNK_SETTING <= j < ZZ_UNK_SETTING + 4 ==> old(buf)@[j] == 0u8,
        forall|j: int| ZZ_PAD_A <= j < 0x2018 ==> old(buf)@[j] == 0u8,
    ensures
        final(buf)@.len() == old(buf)@.len(),
        zz_tail_ok(final(buf)@, *cfg, *st),
        forall|j: int|
            0 <= j < final(buf)@.len() && !(ZZ_CHAR_IDS <= j < ZZ_CHAR_IDS + 4
                * ZZ_CHAR_IDS_WORDS) && !(ZZ_GRAPHICS_VER <= j < ZZ_GRAPHICS_VER + 4) && !(
            ZZ_PAD_A <= j < 0x2018) ==> final(buf)@[j] == old(buf)@[j],
{
    proof {
        reveal(zz_tail_ok);
    }
    let n = buf.len();
    write_u32_words(buf, ZZ_CHAR_IDS, ZZ_CHAR_IDS_WORDS, &cfg.char_ids);
    proof {
        lemma_u32_words_le_len(cfg.char_ids@, ZZ_CHAR_IDS_WORDS as nat);
    }
    write_u32_at(buf, ZZ_GRAPHICS_VER, st.graphics_ver);
    let alt = alt_endpoint(&cfg.server_host);
    write_field(buf, ZZ_ALT_ENDPOINT, ZZ_ALT_ENDPOINT_CAP, alt.as_slice());
    write_u32_at(buf, ZZ_SERVER_EXPIRY_TS, cfg.expiry_ts);
    write_u32_at(buf, ZZ_SENTINEL_ONE, 1);
}

/// A spelled-out region survives any change that leaves its bytes equal.
proof fn lemma_seq_at_frame(s1: Seq<u8>, s2: Seq<u8>, off: int, v: Seq<u8>)
    requires
        seq_at(s1, off, v),
        forall|j: int| off <= j < off + v.len() ==> s1[j] == (#[trigger] s2[j]),
    ensures
        seq_at(s2, off, v),
{
    assert forall|j: int| off <= j < off + v.len() implies (s2[j]) == v[j - off] by {
        assert(s1[j] == v[j - off]);
        assert(s1[j] == s2[j]);
    }
}

/// The claims of `common1a_ok` survive any change outside its field region.
proof fn lemma_common1a_ok_frame(
    s1: Seq<u8>,
    s2: Seq<u8>,
    off: int,
    cfg: MhfConfig,
    res: BootResources,
    cmd: (u32, u32, u32),
)
    requires
        common1a_ok(s1, off, cfg, res, cmd),
        forall|j: int| off <= j < off + C1_SELECTED_CHAR_ID_1 ==> s1[j] == (#[trigger] s2[j]),
    ensures
        common1a_ok(s2, off, cfg, res, cmd),
{
    reveal(common1a_ok);
    let folder = padded(normalized_folder_bytes(cfg.mhf_folder@), PATH_CAP as nat);
    lemma_seq_at_frame(s1, s2, off + C1_MAIN_MODULE, u32_le(res.main_module));
    lemma_seq_at_frame(s1, s2, off + 4, zeros(8));
    lemma_seq_at_frame(s1, s2, off + C1_CMD_FLAGS_1, u32_le(cmd.0));
    lemma_seq_at_frame(s1, s2, off + C1_CMD_FLAGS_2, u32_le(cmd.1));
    lemma_seq_at_frame(s1, s2, off + C1_PATH1, folder);
    lemma_seq_at_frame(s1, s2, off + C1_PATH2, folder);
    lemma_seq_at_frame(s1, s2, off + C1_USER_NAME, padded(cfg.user_name@, CRED_CAP as nat));
    lemma_seq_at_frame(s1, s2, off + C1_USER_PASSWORD, padded(cfg.user_password@, CRED_CAP as nat));
    lemma_seq_at_frame(s1, s2, off + C1_CMD_NUMBER, zeros(8));
    lemma_seq_at_frame(s1, s2, off + C1_CMD_DMM, u32_le(cmd.2));
    lemma_seq_at_frame(s1, s2, off + C1_CMD_DMM + 4, zeros(4));
    lemma_seq_at_frame(s1, s2, off + C1_MUTEX_MASTER, u32_le(res.mutex_master));
    lemma_seq_at_frame(s1, s2, off + C1_MUTEX_MASTER_READY, u32_le(res.mutex_master_ready));
    lemma_seq_at_frame(
        s1,
        s2,
        off + C1_MUTEX_MASTER_NAME,
        padded(mutex_master_name_bytes(), MUTEX_NAME_CAP as nat),
    );
    lemma_seq_at_frame(s1, s2, off + C1_INI_FILE, padded(ini_file_name_bytes(), INI_FILE_CAP as nat));
    lemma_seq_at_frame(s1, s2, off + C1_PROC_1, u32_le(res.proc_1));
    lemma_seq_at_frame(s1, s2, off + C1_PROC_2, u32_le(res.proc_2));
    lemma_seq_at_frame(s1, s2, off + C1_PROC_3, u32_le(res.proc_3));
    lemma_seq_at_frame(s1, s2, off + C1_PROC_3 + 4, zeros(0xc));
}

/// The claims of `common1b_ok` survive any change outside its field region.
proof fn lemma_common1b_ok_frame(s1: Seq<u8>, s2: Seq<u8>, off: int, cfg: MhfConfig)
    requires
        common1b_ok(s1, off, cfg),
        forall|j: int|
            off + C1_SELECTED_CHAR_ID_1 <= j < off + C1_SIZE ==> s1[j] == (#[trigger] s2[j]),
    ensures
        common1b_ok(s2, off, cfg),
{
    reveal(common1b_ok);
    lemma_seq_at_frame(s1, s2, off + C1_SELECTED_CHAR_ID_1, u32_le(cfg.char_id));
    lemma_seq_at_frame(s1, s2, off + C1_SELECTED_CHAR_ID_2, u32_le(cfg.char_id));
    lemma_seq_at_frame(s1, s2, off + C1_USER_TOKEN_ID, u32_le(cfg.user_token_id));
    lemma_seq_at_frame(s1, s2, off + C1_USER_TOKEN, padded(cfg.user_token@, TOKEN_CAP as nat));
    lemma_seq_at_frame(s1, s2, off + C1_USER_TOKEN + TOKEN_CAP, zeros(8));
    lemma_seq_at_frame(s1, s2, off + C1_SERVER_CURRENT_TS, u32_le(cfg.current_ts));
    lemma_seq_at_frame(s1, s2, off + C1_SENTINEL_ZERO, u32_le(0));
    lemma_seq_at_frame(s1, s2, off + C1_SENTINEL_ZERO + 4, zeros(0x200));
    lemma_seq_at_frame(
        s1,
        s2,
        off + C1_REMOTE_ADDR,
        padded(remote_addr_bytes(cfg.server_host@, cfg.server_port), REMOTE_CAP as nat),
    );
    lemma_seq_at_frame(s1, s2, off + C1_REMOTE_HOST, padded(cfg.server_host@, REMOTE_CAP as nat));
    lemma_seq_at_frame(s1, s2, off + C1_REMOTE_PATCH_COUNT, zeros(4));
    lemma_seq_at_frame(s1, s2, off + C1_SERVER_ENTRANCE_COUNT, u32_le(cfg.entrance_count));
    lemma_seq_at_frame(s1, s2, off + C1_SELECTED_CHAR_STATUS, u32_le(char_status_val(cfg.char_new)));
    lemma_seq_at_frame(s1, s2, off + C1_USER_RIGHTS, u32_le(cfg.user_rights));
    lemma_seq_at_frame(s1, s2, off + C1_SELECTED_CHAR_HR, u32_le(cfg.char_hr));
    lemma_seq_at_frame(s1, s2, off + C1_SELECTED_CHAR_NAME, padded(cfg.char_name@, CHAR_NAME_CAP as nat));
}

/// The claims of `common2_ok` survive any change outside its segment.
proof fn lemma_common2_ok_frame(
    s1: Seq<u8>,
    s2: Seq<u8>,
    off: int,
    cfg: MhfConfig,
    st: Settings,
    res: BootResources,
)
    requires
        common2_ok(s1, off, cfg, st, res),
        forall|j: int| off <= j < off + C2_SIZE ==> s1[j] == (#[trigger] s2[j]),
    ensures
        common2_ok(s2, off, cfg, st, res),
{
    reveal(common2_ok);
    lemma_seq_at_frame(s1, s2, off + C2_GLOBAL_ALLOC, u32_le(res.global_alloc));
    lemma_seq_at_frame(s1, s2, off + C2_SENTINEL_ONE, u32_le(1));
    lemma_seq_at_frame(s1, s2, off + C2_SENTINEL_ONE + 4, zeros(4));
    lemma_seq_at_frame(s1, s2, off + C2_SELECTED_CHAR_GR, u32_le(cfg.char_gr));
    lemma_seq_at_frame(s1, s2, off + C2_SELECTED_CHAR_GR + 4, zeros(8));
    lemma_seq_at_frame(s1, s2, off + C2_PRESET_LEVEL, u32_le(st.preset_level));
    lemma_seq_at_frame(s1, s2, off + C2_CUSTOM, u32_le(st.custom));
    lemma_seq_at_frame(s1, s2, off + C2_FULLSCREEN_MODE, u32_le(st.fullscreen_mode));
    lemma_seq_at_frame(s1, s2, off + C2_WINDOW_RESOLUTION_W, u32_le(st.window_resolution_w));
    lemma_seq_at_frame(s1, s2, off + C2_WINDOW_RESOLUTION_H, u32_le(st.window_resolution_h));
    lemma_seq_at_frame(s1, s2, off + C2_FULLSCREEN_RESOLUTION_W, u32_le(st.fullscreen_resolution_w));
    lemma_seq_at_frame(s1, s2, off + C2_FULLSCREEN_RESOLUTION_H, u32_le(st.fullscreen_resolution_h));
    lemma_seq_at_frame(s1, s2, off + C2_DISP_MAX_CHAR, u32_le(st.disp_max_char));
    lemma_seq_at_frame(s1, s2, off + C2_TEXTURE_DXT_USE, u32_le(st.texture_dxt_use));
    lemma_seq_at_frame(s1, s2, off + C2_NOW_MONITOR_WH, u32_le(st.now_monitor_wh));
}

/// The claims of `common3_ok` survive any change outside its segment.
proof fn lemma_common3_ok_frame(s1: Seq<u8>, s2: Seq<u8>, off: int, st: Settings)
    requires
        common3_ok(s1, off, st),
        forall|j: int| off <= j < off + C3_SIZE ==> s1[j] == (#[trigger] s2[j]),
    ensures
        common3_ok(s2, off, st),
{
    reveal(common3_ok);
    lemma_seq_at_frame(s1, s2, off + C3_SOUND_NOTUSE, u32_le(st.sound_notuse));
    lemma_seq_at_frame(s1, s2, off + C3_SOUND_VOLUME, u32_le(st.sound_volume));
    lemma_seq_at_frame(s1, s2, off + C3_SOUND_VOLUME_INACTIVITY, u32_le(st.sound_volume_inactivity));
    lemma_seq_at_frame(s1, s2, off + C3_SOUND_VOLUME_MINIMIZE, u32_le(st.sound_volume_minimize));
    lemma_seq_at_frame(s1, s2, off + C3_SOUND_FREQUENCY, u32_le(st.sound_frequency));
    lemma_seq_at_frame(s1, s2, off + C3_SOUND_BUFFERNUM, u32_le(st.sound_buffernum));
    lemma_seq_at_frame(s1, s2, off + C3_LANGUAGE, u32_le(st.language));
    lemma_seq_at_frame(s1, s2, off + C3_FONT_QUALITY, u32_le(st.font_quality));
    lemma_seq_at_frame(s1, s2, off + C3_FONT_WEIGHT, u32_le(st.font_weight));
    lemma_seq_at_frame(s1, s2, off + C3_FONT_NAME, padded(st.font_name@, FONT_NAME_CAP as nat));
    lemma_seq_at_frame(s1, s2, off + C3_FONT_NAME + FONT_NAME_CAP, zeros(4));
}

/// The claims of `common4_ok` survive any change outside its segment.
proof fn lemma_common4_ok_frame(s1: Seq<u8>, s2: Seq<u8>, off: int, st: Settings)
    requires
        common4_ok(s1, off, st),
        forall|j: int| off <= j < off + C4_SIZE ==> s1[j] == (#[trigger] s2[j]),
    ensures
        common4_ok(s2, off, st),
{
    reveal(common4_ok);
    lemma_seq_at_frame(s1, s2, off + C4_DRAWSKIP, u32_le(st.drawskip));
    lemma_seq_at_frame(s1, s2, off + C4_CLOGDIS, u32_le(st.clogdis));
    lemma_seq_at_frame(s1, s2, off + C4_PROXY_USE, u32_le(st.proxy_use));
    lemma_seq_at_frame(s1, s2, off + C4_PROXY_IE, u32_le(st.proxy_ie));
    lemma_seq_at_frame(s1, s2, off + C4_PROXY_SET, u32_le(st.proxy_set));
    lemma_seq_at_frame(s1, s2, off + C4_PROXY_ADDR, padded(st.proxy_addr@, PROXY_ADDR_CAP as nat));
    lemma_seq_at_frame(s1, s2, off + C4_PROXY_PORT, u32_le(st.proxy_port));
    lemma_seq_at_frame(s1, s2, off + C4_SERVER_SEL, u32_le(st.server_sel));
    lemma_seq_at_frame(s1, s2, off + C4_INNER_PTR_1, zeros((C4_SIZE - C4_INNER_PTR_1) as nat));
}

/// The claims of `common5_ok` survive any change outside its segment.
proof fn lemma_common5_ok_frame(s1: Seq<u8>, s2: Seq<u8>, off: int, res: BootResources)
    requires
        common5_ok(s1, off, res),
        forall|j: int| off <= j < off + C5_SIZE ==> s1[j] == (#[trigger] s2[j]),
    ensures
        common5_ok(s2, off, res),
{
    reveal(common5_ok);
    lemma_seq_at_frame(s1, s2, off + C5_DATA_PTR, zeros(4));
    lemma_seq_at_frame(s1, s2, off + C5_KEYBOARD_LAYOUT, u32_le(res.keyboard_layout));
    lemma_seq_at_frame(s1, s2, off + C5_MARKER_3, zeros((C5_SENTINEL_A - C5_MARKER_3) as nat));
    lemma_seq_at_frame(s1, s2, off + C5_SENTINEL_A, u32_le(C5_SENTINEL_VALUE));
    lemma_seq_at_frame(s1, s2, off + C5_INNER_PTR_2, zeros(8));
    lemma_seq_at_frame(s1, s2, off + C5_SENTINEL_B, u32_le(C5_SENTINEL_VALUE));
    lemma_seq_at_frame(s1, s2, off + C5_INNER_PTR_3, zeros(4));
    lemma_seq_at_frame(s1, s2, off + C5_PROC_4, u32_le(res.proc_4));
    lemma_seq_at_frame(s1, s2, off + C5_PROC_4 + 4, zeros(4));
    lemma_seq_at_frame(s1, s2, off + C5_PROC_5, u32_le(res.proc_5));
    lemma_seq_at_frame(
        s1,
        s2,
        off + C5_PROC_5 + 4,
        zeros((C5_MUTEX_MASTER_READY_NAME - C5_PROC_5 - 4) as nat),
    );
    lemma_seq_at_frame(
        s1,
        s2,
        off + C5_MUTEX_MASTER_READY_NAME,
        padded(mutex_master_ready_name_bytes(), READY_NAME_CAP as nat),
    );
    lemma_seq_at_frame(
        s1,
        s2,
        off + C5_MUTEX_MASTER_READY_NAME + READY_NAME_CAP,
        zeros((C5_SIZE - C5_MUTEX_MASTER_READY_NAME - READY_NAME_CAP) as nat),
    );
}

/// Fills the five common segments into a fresh zeroed buffer of the
/// variant's size, leaving every byte outside them zero.
#[verifier::rlimit(100)]
fn build_common(cfg: &MhfConfig, st: &Settings, res: &BootResources) -> (img: Vec<u8>)
    ensures
        img@.len() == spec_total_size(cfg.version),
        common1a_ok(img@, spec_c1_off(cfg.version), *cfg, *res, cmd_triple(cfg.mhf_flags)),
        common1b_ok(img@, spec_c1_off(cfg.version), *cfg),
        common2_ok(img@, spec_c2_off(cfg.version), *cfg, *st, *res),
        common3_ok(img@, spec_c3_off(cfg.version), *st),
        common4_ok(img@, spec_c4_off(cfg.version), *st),
        common5_ok(img@, spec_c5_off(cfg.version), *res),
        forall|j: int|
            C1_SIZE <= j < spec_c2_off(cfg.version) ==> img@[j] == 0u8,
        forall|j: int|
            spec_c2_off(cfg.version) + C2_SIZE <= j < spec_c3_off(cfg.version) ==> img@[j] == 0u8,
        forall|j: int|
            spec_c3_off(cfg.version) + C3_SIZE <= j < spec_c4_off(cfg.version) ==> img@[j] == 0u8,
        forall|j: int|
            spec_c4_off(cfg.version) + C4_SIZE <= j < spec_c5_off(cfg.version) ==> img@[j] == 0u8,
        forall|j: int|
            spec_c5_off(cfg.version) + C5_SIZE <= j < img@.len() ==> img@[j] == 0u8,
{
    let v = cfg.version;

    let mut cmd_flags_1: u32 = 0;
    let mut cmd_flags_2: u32 = 0;
    let mut cmd_dmm: u32 = 0;
    match &cfg.mhf_flags {
        Option::Some(fl) => init_cli(&mut cmd_flags_1, &mut cmd_flags_2, &mut cmd_dmm, fl.as_slice()),
        Option::None => {},
    }
    let ghost cmd = (cmd_flags_1, cmd_flags_2, cmd_dmm);
    proof {
        assert(cmd == cmd_triple(cfg.mhf_flags));
    }

    let mut buf = zeroed_buf(total_size(v));
    fill_common1a(&mut buf, 0, cfg, res, cmd_flags_1, cmd_flags_2, cmd_dmm);
    let ghost s1 = buf@;
    fill_common1b(&mut buf, 0, cfg);
    let ghost s2 = buf@;
    proof {
        lemma_common1a_ok_frame(s1, s2, 0, *cfg, *res, cmd);
    }
    fill_common2(&mut buf, c2_off(v), cfg, st, res);
    let ghost s3 = buf@;
    proof {
        lemma_common1a_ok_frame(s2, s3, 0, *cfg, *res, cmd);
        lemma_common1b_ok_frame(s2, s3, 0, *cfg);
    }
    fill_common3(&mut buf, c3_off(v), st);
    let ghost s4 = buf@;
    proof {
        lemma_common1a_ok_frame(s3, s4, 0, *cfg, *res, cmd);
        lemma_common1b_ok_frame(s3, s4, 0, *cfg);
        lemma_common2_ok_frame(s3, s4, spec_c2_off(v), *cfg, *st, *res);
    }
    fill_common4(&mut buf, c4_off(v), st);
    let ghost s5 = buf@;
    proof {
        lemma_common1a_ok_frame(s4, s5, 0, *cfg, *res, cmd);
        lemma_common1b_ok_frame(s4, s5, 0, *cfg);
        lemma_common2_ok_frame(s4, s5, spec_c2_off(v), *cfg, *st, *res);
        lemma_common3_ok_frame(s4, s5, spec_c3_off(v), *st);
    }
    fill_common5(&mut buf, c5_off(v), res);
    proof {
        lemma_common1a_ok_frame(s5, buf@, 0, *cfg, *res, cmd);
        lemma_common1b_ok_frame(s5, buf@, 0, *cfg);
        lemma_common2_ok_frame(s5, buf@, spec_c2_off(v), *cfg, *st, *res);
        lemma_common3_ok_frame(s5, buf@, spec_c3_off(v), *st);
        lemma_common4_ok_frame(s5, buf@, spec_c4_off(v), *st);
    }
    buf
}

/// Builds the image for the configured variant: a buffer of exactly the
/// variant's size, every fixed-offset field filled from the configuration,
/// settings and resources with truncate-and-zero-pad semantics, and every
/// pad region zero. Module linkage and self-pointers are left zero for
/// their later steps.
#[verifier::rlimit(100)]
pub fn build_image(cfg: &MhfConfig, st: &Settings, res: &BootResources) -> (img: Vec<u8>)
    ensures
        image_ok(img@, *cfg, *st, *res),
{
    let v = cfg.version;
    let mut buf = build_common(cfg, st, res);
    let ghost s0 = buf@;

    match v {
        MhfVersion::ZZ => {
            fill_zz_tail(&mut buf, cfg, st);
            proof {
                lemma_common1a_ok_frame(s0, buf@, 0, *cfg, *res, cmd_triple(cfg.mhf_flags));
                lemma_common1b_ok_frame(s0, buf@, 0, *cfg);
                lemma_common2_ok_frame(s0, buf@, spec_c2_off(v), *cfg, *st, *res);
                lemma_common3_ok_frame(s0, buf@, spec_c3_off(v), *st);
                lemma_common4_ok_frame(s0, buf@, spec_c4_off(v), *st);
                lemma_common5_ok_frame(s0, buf@, spec_c5_off(v), *res);
            }
        },
        MhfVersion::F5 => {},
    }

    buf
}

/// Records the loaded foreign module and its resolved entry point in the
/// linkage segment.
pub fn install_module_linkage(buf: &mut Vec<u8>, version: MhfVersion, module: u32, entry: u32)
    requires
        old(buf)@.len() == spec_total_size(version),
    ensures
        final(buf)@.len() == old(buf)@.len(),
        seq_at(final(buf)@, spec_c5_off(version) + C5_MHFO_MODULE, u32_le(module)),
        seq_at(final(buf)@, spec_c5_off(version) + C5_MHDDL_MAIN, u32_le(entry)),
        forall|j: int|
            0 <= j < final(buf)@.len() && !(spec_c5_off(version) + C5_MHFO_MODULE <= j
                < spec_c5_off(version) + C5_MHFO_MODULE + 4) && !(spec_c5_off(version)
                + C5_MHDDL_MAIN <= j < spec_c5_off(version) + C5_MHDDL_MAIN + 4)
                ==> final(buf)@[j] == old(buf)@[j],
{
    let c5 = c5_off(version);
    write_u32_at(buf, c5 + C5_MHFO_MODULE, module);
    write_u32_at(buf, c5 + C5_MHDDL_MAIN, entry);
}

/// Resolves the four self-pointer fields against the image's final base
/// address: each field receives the absolute address (base plus offset) of
/// its declared target location inside the same image, for either variant.
/// The buffer must no longer move once these are written.
pub fn resolve_self_pointers(buf: &mut Vec<u8>, version: MhfVersion, base: u32)
    requires
        old(buf)@.len() == spec_total_size(version),
        base + spec_total_size(version) <= u32::MAX,
    ensures
        final(buf)@.len() == old(buf)@.len(),
        seq_at(final(buf)@, spec_c5_off(version) + C5_DATA_PTR, u32_le(base)),
        seq_at(
            final(buf)@,
            spec_c4_off(version) + C4_INNER_PTR_1,
            u32_le((base + spec_c5_off(version) + C5_MARKER_1) as u32),
        ),
        seq_at(
            final(buf)@,
            spec_c5_off(version) + C5_INNER_PTR_2,
            u32_le((base + spec_c5_off(version) + C5_MARKER_2) as u32),
        ),
        seq_at(
            final(buf)@,
            spec_c5_off(version) + C5_INNER_PTR_3,
            u32_le((base + spec_c5_off(version) + C5_MARKER_3) as u32),
        ),
        forall|j: int|
            0 <= j < final(buf)@.len() && !(spec_c5_off(version) + C5_DATA_PTR <= j
                < spec_c5_off(version) + C5_DATA_PTR + 4) && !(spec_c4_off(version)
                + C4_INNER_PTR_1 <= j < spec_c4_off(version) + C4_INNER_PTR_1 + 4) && !(
            spec_c5_off(version) + C5_INNER_PTR_2 <= j < spec_c5_off(version) + C5_INNER_PTR_2
                + 4) && !(spec_c5_off(version) + C5_INNER_PTR_3 <= j < spec_c5_off(version)
                + C5_INNER_PTR_3 + 4) ==> final(buf)@[j] == old(buf)@[j],
{
    let c4 = c4_off(version);
    let c5 = c5_off(version);
    write_u32_at(buf, c5 + C5_DATA_PTR, base);
    write_u32_at(buf, c4 + C4_INNER_PTR_1, base + (c5 + C5_MARKER_1) as u32);
    write_u32_at(buf, c5 + C5_INNER_PTR_2, base + (c5 + C5_MARKER_2) as u32);
    write_u32_at(buf, c5 + C5_INNER_PTR_3, base + (c5 + C5_MARKER_3) as u32);
}

} // verus!
