//! Shared memory block population: the byte-exact content of the
//! cross-process block, zero-filled and then loaded with up to four notices
//! and the scheduled-event fields.

use vstd::prelude::*;
use crate::bytes::padded;
use crate::bytes::seq_at;
use crate::bytes::u16_le;
use crate::bytes::u32_le;
use crate::bytes::u32_words_le;
use crate::bytes::write_field;
use crate::bytes::write_u16_at;
use crate::bytes::write_u32_at;
use crate::bytes::write_u32_words;
use crate::bytes::zeroed_buf;
use crate::bytes::zeros;
use crate::config::MhfConfig;
use crate::config::Notice;
use crate::layout::SB_MEZ_END;
use crate::layout::SB_MEZ_EVENT_ID;
use crate::layout::SB_MEZ_GROUP_TICKETS;
use crate::layout::SB_MEZ_SOLO_TICKETS;
use crate::layout::SB_MEZ_STALLS;
use crate::layout::SB_MEZ_STALL_WORDS;
use crate::layout::SB_MEZ_START;
use crate::layout::SB_NOTICE_COUNTS;
use crate::layout::SB_NOTICE_FLAGS;
use crate::layout::SB_NOTICE_SLOTS;
use crate::layout::SB_NOTICE_SLOT_CAP;
use crate::layout::SHARED_BLOCK_SIZE;

verus! {

/// The byte length of the `i`-th notice's text, zero past the given count.
pub open spec fn notice_len(notices: Seq<Notice>, i: int) -> u32 {
    if 0 <= i < notices.len() {
        notices[i].data@.len() as u32
    } else {
        0u32
    }
}

/// The flag value of the `i`-th notice, zero past the given count.
pub open spec fn notice_flag_val(notices: Seq<Notice>, i: int) -> u16 {
    if 0 <= i < notices.len() {
        notices[i].flags
    } else {
        0u16
    }
}

/// The text of the `i`-th notice, empty past the given count.
pub open spec fn notice_text(notices: Seq<Notice>, i: int) -> Seq<u8> {
    if 0 <= i < notices.len() {
        notices[i].data@
    } else {
        Seq::empty()
    }
}

/// The populated shared block: four notice byte-length counters, four
/// 16-bit notice flags, four fixed-capacity text slots (each a truncated,
/// zero-padded copy; slots past the notice count stay all zero), the
/// scheduled-event block with its stall counters, and zero everywhere else.
pub open spec fn shared_block_ok(s: Seq<u8>, cfg: MhfConfig) -> bool {
    let n = cfg.notices@;
    &&& s.len() == SHARED_BLOCK_SIZE
    &&& seq_at(s, SB_NOTICE_COUNTS as int, u32_le(notice_len(n, 0)))
    &&& seq_at(s, SB_NOTICE_COUNTS + 4, u32_le(notice_len(n, 1)))
    &&& seq_at(s, SB_NOTICE_COUNTS + 8, u32_le(notice_len(n, 2)))
    &&& seq_at(s, SB_NOTICE_COUNTS + 12, u32_le(notice_len(n, 3)))
    &&& seq_at(s, SB_NOTICE_FLAGS as int, u16_le(notice_flag_val(n, 0)))
    &&& seq_at(s, SB_NOTICE_FLAGS + 2, u16_le(notice_flag_val(n, 1)))
    &&& seq_at(s, SB_NOTICE_FLAGS + 4, u16_le(notice_flag_val(n, 2)))
    &&& seq_at(s, SB_NOTICE_FLAGS + 6, u16_le(notice_flag_val(n, 3)))
    &&& seq_at(s, SB_NOTICE_SLOTS as int, padded(notice_text(n, 0), SB_NOTICE_SLOT_CAP as nat))
    &&& seq_at(
        s,
        SB_NOTICE_SLOTS + SB_NOTICE_SLOT_CAP,
        padded(notice_text(n, 1), SB_NOTICE_SLOT_CAP as nat),
    )
    &&& seq_at(
        s,
        SB_NOTICE_SLOTS + 2 * SB_NOTICE_SLOT_CAP,
        padded(notice_text(n, 2), SB_NOTICE_SLOT_CAP as nat),
    )
    &&& seq_at(
        s,
        SB_NOTICE_SLOTS + 3 * SB_NOTICE_SLOT_CAP,
        padded(notice_text(n, 3), SB_NOTICE_SLOT_CAP as nat),
    )
    &&& seq_at(s, SB_MEZ_EVENT_ID as int, u32_le(cfg.mez_event_id))
    &&& seq_at(s, SB_MEZ_START as int, u32_le(cfg.mez_start))
    &&& seq_at(s, SB_MEZ_END as int, u32_le(cfg.mez_end))
    &&& seq_at(s, SB_MEZ_SOLO_TICKETS as int, u32_le(cfg.mez_solo_tickets))
    &&& seq_at(s, SB_MEZ_GROUP_TICKETS as int, u32_le(cfg.mez_group_tickets))
    &&& seq_at(s, SB_MEZ_STALLS as int, u32_words_le(cfg.mez_stalls@, SB_MEZ_STALL_WORDS as nat))
    &&& seq_at(s, 0, zeros(SB_NOTICE_COUNTS as nat))
    &&& seq_at(s, SB_NOTICE_COUNTS + 16, zeros(8))
    &&& seq_at(s, SB_NOTICE_SLOTS + 4 * SB_NOTICE_SLOT_CAP, zeros(0x4080))
}

/// Builds the shared block content from the configured notices and
/// scheduled event.
#[verifier::rlimit(100)]
pub fn build_shared_block(cfg: &MhfConfig) -> (r: Vec<u8>)
    requires
        cfg.notices@.len() <= 4,
        cfg.mez_stalls@.len() <= SB_MEZ_STALL_WORDS,
        forall|i: int| 0 <= i < cfg.notices@.len() ==> cfg.notices@[i].data@.len() <= u32::MAX,
    ensures
        shared_block_ok(r@, *cfg),
{
    let mut buf = zeroed_buf(SHARED_BLOCK_SIZE);
    let empty: Vec<u8> = Vec::new();
    let n = cfg.notices.len();

    let c0: u32 = if 0 < n {
        cfg.notices[0].data.len() as u32
    } else {
        0
    };
    let c1: u32 = if 1 < n {
        cfg.notices[1].data.len() as u32
    } else {
        0
    };
    let c2: u32 = if 2 < n {
        cfg.notices[2].data.len() as u32
    } else {
        0
    };
    let c3: u32 = if 3 < n {
        cfg.notices[3].data.len() as u32
    } else {
        0
    };
    write_u32_at(&mut buf, SB_NOTICE_COUNTS, c0);
    write_u32_at(&mut buf, SB_NOTICE_COUNTS + 4, c1);
    write_u32_at(&mut buf, SB_NOTICE_COUNTS + 8, c2);
    write_u32_at(&mut buf, SB_NOTICE_COUNTS + 12, c3);

    let f0: u16 = if 0 < n {
        cfg.notices[0].flags
    } else {
        0
    };
    let f1: u16 = if 1 < n {
        cfg.notices[1].flags
    } else {
        0
    };
    let f2: u16 = if 2 < n {
        cfg.notices[2].flags
    } else {
        0
    };
    let f3: u16 = if 3 < n {
        cfg.notices[3].flags
    } else {
        0
    };
    write_u16_at(&mut buf, SB_NOTICE_FLAGS, f0);
    write_u16_at(&mut buf, SB_NOTICE_FLAGS + 2, f1);
    write_u16_at(&mut buf, SB_NOTICE_FLAGS + 4, f2);
    write_u16_at(&mut buf, SB_NOTICE_FLAGS + 6, f3);

    write_field(
        &mut buf,
        SB_NOTICE_SLOTS,
        SB_NOTICE_SLOT_CAP,
        if 0 < n {
            cfg.notices[0].data.as_slice()
        } else {
            empty.as_slice()
        },
    );
    write_field(
        &mut buf,
        SB_NOTICE_SLOTS + SB_NOTICE_SLOT_CAP,
        SB_NOTICE_SLOT_CAP,
        if 1 < n {
            cfg.notices[1].data.as_slice()
        } else {
            empty.as_slice()
        },
    );
    write_field(
        &mut buf,
        SB_NOTICE_SLOTS + 2 * SB_NOTICE_SLOT_CAP,
        SB_NOTICE_SLOT_CAP,
        if 2 < n {
            cfg.notices[2].data.as_slice()
        } else {
            empty.as_slice()
        },
    );
    write_field(
        &mut buf,
        SB_NOTICE_SLOTS + 3 * SB_NOTICE_SLOT_CAP,
        SB_NOTICE_SLOT_CAP,
        if 3 < n {
            cfg.notices[3].data.as_slice()
        } else {
            empty.as_slice()
        },
    );

    write_u32_at(&mut buf, SB_MEZ_EVENT_ID, cfg.mez_event_id);
    write_u32_at(&mut buf, SB_MEZ_START, cfg.mez_start);
    write_u32_at(&mut buf, SB_MEZ_END, cfg.mez_end);
    write_u32_at(&mut buf, SB_MEZ_SOLO_TICKETS, cfg.mez_solo_tickets);
    write_u32_at(&mut buf, SB_MEZ_GROUP_TICKETS, cfg.mez_group_tickets);
    write_u32_words(&mut buf, SB_MEZ_STALLS, SB_MEZ_STALL_WORDS, &cfg.mez_stalls);

    buf
}

} // verus!
