use mhf::bytes::read_u32_at;
use mhf::config::{MhfConfig, MhfVersion, Notice};
use mhf::shared_block::build_shared_block;

fn sample_config(notices: Vec<Notice>) -> MhfConfig {
    MhfConfig {
        version: MhfVersion::ZZ,
        mhf_folder: b"C:\\mhf".to_vec(),
        char_id: 1,
        char_name: b"Al".to_vec(),
        char_hr: 7,
        char_gr: 9,
        char_new: false,
        char_ids: vec![],
        user_name: b"user".to_vec(),
        user_password: b"pass".to_vec(),
        user_token_id: 2,
        user_token: b"token".to_vec(),
        user_rights: 14,
        server_host: b"127.0.0.1".to_vec(),
        server_port: 8888,
        entrance_count: 3,
        current_ts: 1000,
        expiry_ts: 2000,
        mhf_flags: None,
        notices,
        mez_event_id: 5,
        mez_start: 10,
        mez_end: 20,
        mez_solo_tickets: 2,
        mez_group_tickets: 4,
        mez_stalls: vec![1, 2, 3],
    }
}

const COUNTS: usize = 0xa0c;
const FLAGS: usize = 0xa24;
const SLOTS: usize = 0xa2c;
const SLOT_CAP: usize = 0x1000;

#[test]
fn zero_notices_leave_all_slots_zero() {
    let cfg = sample_config(vec![]);
    let block = build_shared_block(&cfg);
    assert_eq!(block.len(), 0x8ae0);
    for i in 0..4 {
        assert_eq!(read_u32_at(&block, COUNTS + 4 * i), 0);
        assert_eq!(block[FLAGS + 2 * i], 0);
        assert_eq!(block[FLAGS + 2 * i + 1], 0);
    }
    assert!(block[SLOTS..SLOTS + 4 * SLOT_CAP].iter().all(|&b| b == 0));
    // the header and the filter/reserved regions stay zero too
    assert!(block[..COUNTS].iter().all(|&b| b == 0));
    assert!(block[SLOTS + 4 * SLOT_CAP..0x8aac].iter().all(|&b| b == 0));
}

#[test]
fn notices_fill_their_slots_and_later_slots_stay_zero() {
    let n0 = Notice { flags: 7, data: b"hello".to_vec() };
    let n1 = Notice { flags: 0x8001, data: b"world!".to_vec() };
    let cfg = sample_config(vec![n0, n1]);
    let block = build_shared_block(&cfg);
    assert_eq!(read_u32_at(&block, COUNTS), 5);
    assert_eq!(read_u32_at(&block, COUNTS + 4), 6);
    assert_eq!(read_u32_at(&block, COUNTS + 8), 0);
    assert_eq!(read_u32_at(&block, COUNTS + 12), 0);
    assert_eq!(block[FLAGS], 7);
    assert_eq!(block[FLAGS + 1], 0);
    assert_eq!(block[FLAGS + 2], 1);
    assert_eq!(block[FLAGS + 3], 0x80);
    assert_eq!(&block[SLOTS..SLOTS + 5], b"hello");
    assert!(block[SLOTS + 5..SLOTS + SLOT_CAP].iter().all(|&b| b == 0));
    assert_eq!(&block[SLOTS + SLOT_CAP..SLOTS + SLOT_CAP + 6], b"world!");
    assert!(block[SLOTS + 2 * SLOT_CAP..SLOTS + 4 * SLOT_CAP].iter().all(|&b| b == 0));
}

#[test]
fn long_notice_text_is_truncated_to_slot_capacity() {
    let long = vec![0xabu8; 5000];
    let cfg = sample_config(vec![Notice { flags: 1, data: long }]);
    let block = build_shared_block(&cfg);
    // the counter keeps the full byte length, the slot only its capacity
    assert_eq!(read_u32_at(&block, COUNTS), 5000);
    assert!(block[SLOTS..SLOTS + SLOT_CAP].iter().all(|&b| b == 0xab));
    assert!(block[SLOTS + SLOT_CAP..SLOTS + 2 * SLOT_CAP].iter().all(|&b| b == 0));
}

#[test]
fn scheduled_event_block_is_written() {
    let cfg = sample_config(vec![]);
    let block = build_shared_block(&cfg);
    assert_eq!(read_u32_at(&block, 0x8aac), 5);
    assert_eq!(read_u32_at(&block, 0x8ab0), 10);
    assert_eq!(read_u32_at(&block, 0x8ab4), 20);
    assert_eq!(read_u32_at(&block, 0x8ab8), 2);
    assert_eq!(read_u32_at(&block, 0x8abc), 4);
    assert_eq!(read_u32_at(&block, 0x8ac0), 1);
    assert_eq!(read_u32_at(&block, 0x8ac4), 2);
    assert_eq!(read_u32_at(&block, 0x8ac8), 3);
    for i in 3..8 {
        assert_eq!(read_u32_at(&block, 0x8ac0 + 4 * i), 0);
    }
}
