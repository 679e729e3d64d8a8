//! Plain-value configuration handed to the bootstrap: which image variant to
//! build, account and character data, server coordinates, startup flags, and
//! the notice/event payload for the shared memory block.

use vstd::prelude::*;

verus! {

/// The two binary-compatible image variants the foreign module understands.
#[derive(Clone, Copy, Debug, PartialEq, Eq, Structural)]
pub enum MhfVersion {
    /// Variant with the character-id array, graphics-version selector,
    /// alternate endpoint, expiry timestamp and an extra sentinel.
    ZZ,
    /// Variant without the extra tail fields.
    F5,
}

/// Discrete startup flags, applied in sequence order by the flag encoder.
#[derive(Clone, Copy, Debug, PartialEq, Eq, Structural)]
pub enum CliFlags {
    Selfup,
    Restat,
    Autolc,
    Hanres,
    DmmBoot,
    DmmSelfup,
    DmmAutolc,
    DmmReboot,
    Npge,
    NpMhfoTest,
}

/// One broadcast notice written into the shared memory block.
pub struct Notice {
    /// 16-bit flag value stored beside the notice.
    pub flags: u16,
    /// Notice text; the block keeps its full byte length and a prefix of at
    /// most one slot capacity of the bytes themselves.
    pub data: Vec<u8>,
}

/// Read-only bootstrap configuration.
pub struct MhfConfig {
    pub version: MhfVersion,
    /// Resolved working folder; a separator is appended when missing.
    pub mhf_folder: Vec<u8>,
    pub char_id: u32,
    pub char_name: Vec<u8>,
    pub char_hr: u32,
    pub char_gr: u32,
    /// Whether the selected character is newly created.
    pub char_new: bool,
    /// Character-id array, kept only by the `ZZ` variant (first 16 entries).
    pub char_ids: Vec<u32>,
    pub user_name: Vec<u8>,
    pub user_password: Vec<u8>,
    pub user_token_id: u32,
    pub user_token: Vec<u8>,
    pub user_rights: u32,
    pub server_host: Vec<u8>,
    pub server_port: u16,
    pub entrance_count: u32,
    pub current_ts: u32,
    /// Server expiry timestamp, kept only by the `ZZ` variant.
    pub expiry_ts: u32,
    /// Startup flags; `None` leaves the encoded flag fields at zero.
    pub mhf_flags: Option<Vec<CliFlags>>,
    /// Up to four broadcast notices for the shared memory block.
    pub notices: Vec<Notice>,
    pub mez_event_id: u32,
    pub mez_start: u32,
    pub mez_end: u32,
    pub mez_solo_tickets: u32,
    pub mez_group_tickets: u32,
    /// Up to eight stall counters for the scheduled event block.
    pub mez_stalls: Vec<u32>,
}

/// Live process-local values poured into the image: OS handles and the
/// addresses of the stub callbacks, all as 32-bit words of the target layout.
pub struct BootResources {
    pub main_module: u32,
    pub mutex_master: u32,
    pub mutex_master_ready: u32,
    pub global_alloc: u32,
    pub keyboard_layout: u32,
    pub proc_1: u32,
    pub proc_2: u32,
    pub proc_3: u32,
    pub proc_4: u32,
    pub proc_5: u32,
}

/// The terminal failures of a bootstrap run, one per failing stage.
#[derive(Clone, Copy, Debug, PartialEq, Eq, Structural)]
pub enum BootError {
    /// The configured working folder could not be entered.
    Path,
    /// A named mutex or the shared memory block could not be acquired or
    /// released.
    Resource,
    /// The foreign module could not be loaded or unloaded.
    ModuleLoad,
    /// The foreign module lacks the expected entry symbol.
    SymbolNotFound,
}

} // verus!
