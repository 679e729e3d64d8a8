use mhf::bytes::read_u32_at;
use mhf::config::{BootResources, CliFlags, MhfConfig, MhfVersion};
use mhf::image::{build_image, install_module_linkage, resolve_self_pointers};
use mhf::ini::{resolve_settings, IniValues};
use mhf::layout::{c2_off, c3_off, c4_off, c5_off, total_size};

fn sample_config(version: MhfVersion) -> MhfConfig {
    MhfConfig {
        version,
        mhf_folder: b"C:\\mhf".to_vec(),
        char_id: 0x1234,
        char_name: b"Al".to_vec(),
        char_hr: 7,
        char_gr: 9,
        char_new: true,
        char_ids: vec![11, 22, 33],
        user_name: b"someone".to_vec(),
        user_password: b"opensesame".to_vec(),
        user_token_id: 0xaabbccdd,
        user_token: b"token".to_vec(),
        user_rights: 14,
        server_host: b"127.0.0.1".to_vec(),
        server_port: 8888,
        entrance_count: 3,
        current_ts: 1000,
        expiry_ts: 2000,
        mhf_flags: Some(vec![CliFlags::Restat]),
        notices: vec![],
        mez_event_id: 5,
        mez_start: 10,
        mez_end: 20,
        mez_solo_tickets: 2,
        mez_group_tickets: 4,
        mez_stalls: vec![],
    }
}

fn sample_resources() -> BootResources {
    BootResources {
        main_module: 0x400000,
        mutex_master: 0x11,
        mutex_master_ready: 0x22,
        global_alloc: 0x33,
        keyboard_layout: 0x44,
        proc_1: 0x101,
        proc_2: 0x102,
        proc_3: 0x103,
        proc_4: 0x104,
        proc_5: 0x105,
    }
}

fn build(version: MhfVersion) -> Vec<u8> {
    let cfg = sample_config(version);
    let st = resolve_settings(version, &IniValues::all_absent());
    build_image(&cfg, &st, &sample_resources())
}

#[test]
fn image_sizes_match_the_variants() {
    assert_eq!(build(MhfVersion::ZZ).len(), 0x2ab0);
    assert_eq!(build(MhfVersion::F5).len(), 0x2920);
}

#[test]
fn short_name_is_zero_padded_in_its_field() {
    // a two-byte name over the 16-byte field: the name, then 14 zero bytes
    let img = build(MhfVersion::ZZ);
    assert_eq!(&img[0x1d04..0x1d06], b"Al");
    assert!(img[0x1d06..0x1d14].iter().all(|&b| b == 0));
}

#[test]
fn long_name_is_truncated_to_its_field() {
    let mut cfg = sample_config(MhfVersion::ZZ);
    cfg.char_name = b"ABCDEFGHIJKLMNOPQRST".to_vec();
    let st = resolve_settings(MhfVersion::ZZ, &IniValues::all_absent());
    let img = build_image(&cfg, &st, &sample_resources());
    assert_eq!(&img[0x1d04..0x1d14], b"ABCDEFGHIJKLMNOP");
    // the neighbouring character-id array was not overrun
    assert_eq!(read_u32_at(&img, 0x1d14), 11);
}

#[test]
fn identity_segment_fields() {
    let img = build(MhfVersion::ZZ);
    let res = sample_resources();
    assert_eq!(read_u32_at(&img, 0x0), res.main_module);
    assert_eq!(read_u32_at(&img, 0xc), 2); // Restat
    assert_eq!(read_u32_at(&img, 0x10), 0);
    assert_eq!(read_u32_at(&img, 0x181c), 0);
    assert_eq!(read_u32_at(&img, 0x1824), res.mutex_master);
    assert_eq!(read_u32_at(&img, 0x1828), res.mutex_master_ready);
    assert_eq!(&img[0x182c..0x1836], b"MHF_MASTER");
    assert!(img[0x1836..0x186c].iter().all(|&b| b == 0));
    assert_eq!(&img[0x186c..0x1873], b"mhf.ini");
    assert_eq!(read_u32_at(&img, 0x18ac), res.proc_1);
    assert_eq!(read_u32_at(&img, 0x18b0), res.proc_2);
    assert_eq!(read_u32_at(&img, 0x18b4), res.proc_3);
    assert_eq!(read_u32_at(&img, 0x18c4), 0x1234);
    assert_eq!(read_u32_at(&img, 0x18c8), 0x1234);
    assert_eq!(read_u32_at(&img, 0x18cc), 0xaabbccdd);
    assert_eq!(&img[0x18d0..0x18d5], b"token");
    assert_eq!(read_u32_at(&img, 0x18e8), 1000);
    assert_eq!(read_u32_at(&img, 0x18ec), 0); // required zero sentinel
    assert_eq!(&img[0x1af0..0x1afe], b"127.0.0.1:8888");
    assert_eq!(&img[0x1bf0..0x1bf9], b"127.0.0.1");
    assert_eq!(read_u32_at(&img, 0x1cf4), 3);
    assert_eq!(read_u32_at(&img, 0x1cf8), 2); // newly created character
    assert_eq!(read_u32_at(&img, 0x1cfc), 14);
    assert_eq!(read_u32_at(&img, 0x1d00), 7);
}

#[test]
fn paths_carry_a_trailing_separator() {
    let img = build(MhfVersion::ZZ);
    assert_eq!(&img[0x14..0x1b], b"C:\\mhf/");
    assert_eq!(&img[0x414..0x41b], b"C:\\mhf/");
    assert!(img[0x41b..0x814].iter().all(|&b| b == 0));
}

#[test]
fn settings_and_sentinels_for_both_variants() {
    for v in [MhfVersion::ZZ, MhfVersion::F5] {
        let img = build(v);
        let res = sample_resources();
        let c2 = c2_off(v);
        let c3 = c3_off(v);
        let c4 = c4_off(v);
        let c5 = c5_off(v);
        assert_eq!(read_u32_at(&img, c2), res.global_alloc);
        assert_eq!(read_u32_at(&img, c2 + 4), 1); // required sentinel
        assert_eq!(read_u32_at(&img, c2 + 0xc), 9); // char grade
        assert_eq!(read_u32_at(&img, c2 + 0x1c), 1); // CUSTOM default
        assert_eq!(read_u32_at(&img, c2 + 0x24), 1920);
        assert_eq!(read_u32_at(&img, c2 + 0x34), 100);
        assert_eq!(read_u32_at(&img, c3 + 0x10), 48000);
        assert_eq!(read_u32_at(&img, c3 + 0x14), 2048);
        assert_eq!(read_u32_at(&img, c3 + 0x20), 700);
        assert_eq!(&img[c3 + 0x24..c3 + 0x2b], b"MS ????");
        assert_eq!(read_u32_at(&img, c4), 1); // DRAWSKIP default
        assert_eq!(&img[c4 + 0x14..c4 + 0x1d], b"127.0.0.1");
        assert_eq!(read_u32_at(&img, c4 + 0x54), 8888);
        assert_eq!(read_u32_at(&img, c4 + 0x58), 1);
        assert_eq!(read_u32_at(&img, c5 + 4), res.keyboard_layout);
        assert_eq!(read_u32_at(&img, c5 + 0x1c), 0x10); // required sentinel
        assert_eq!(read_u32_at(&img, c5 + 0x28), 0x10); // required sentinel
        assert_eq!(read_u32_at(&img, c5 + 0x30), res.proc_4);
        assert_eq!(read_u32_at(&img, c5 + 0x38), res.proc_5);
        assert_eq!(&img[c5 + 0x580..c5 + 0x590], b"MHF_MASTER_READY");
        // self-pointer and module fields are still unresolved
        assert_eq!(read_u32_at(&img, c5), 0);
        assert_eq!(read_u32_at(&img, c4 + 0x5c), 0);
        assert_eq!(read_u32_at(&img, c5 + 0x58), 0);
        assert_eq!(read_u32_at(&img, c5 + 0xa94), 0);
    }
}

#[test]
fn zz_tail_fields() {
    let img = build(MhfVersion::ZZ);
    assert_eq!(read_u32_at(&img, 0x1d14), 11);
    assert_eq!(read_u32_at(&img, 0x1d18), 22);
    assert_eq!(read_u32_at(&img, 0x1d1c), 33);
    for i in 3..16 {
        assert_eq!(read_u32_at(&img, 0x1d14 + 4 * i), 0);
    }
    assert_eq!(read_u32_at(&img, 0x1d94), 1); // graphics selector default
    assert_eq!(&img[0x1f04..0x1f12], b"127.0.0.1:8080");
    assert_eq!(read_u32_at(&img, 0x2004), 2000);
    assert_eq!(read_u32_at(&img, 0x200c), 1); // required sentinel
}

#[test]
fn module_linkage_is_recorded() {
    for v in [MhfVersion::ZZ, MhfVersion::F5] {
        let mut img = build(v);
        install_module_linkage(&mut img, v, 0x770000, 0x77abcd);
        let c5 = c5_off(v);
        assert_eq!(read_u32_at(&img, c5 + 0x58), 0x770000);
        assert_eq!(read_u32_at(&img, c5 + 0xa94), 0x77abcd);
        // a neighbour is untouched
        assert_eq!(&img[c5 + 0x580..c5 + 0x590], b"MHF_MASTER_READY");
    }
}

#[test]
fn self_pointers_hold_base_plus_target_offset() {
    for v in [MhfVersion::ZZ, MhfVersion::F5] {
        let mut img = build(v);
        let base: u32 = 0x10000;
        resolve_self_pointers(&mut img, v, base);
        let c4 = c4_off(v) as u32;
        let c5 = c5_off(v) as u32;
        assert_eq!(read_u32_at(&img, c5 as usize), base);
        assert_eq!(read_u32_at(&img, (c4 + 0x5c) as usize), base + c5 + 0x18);
        assert_eq!(read_u32_at(&img, (c5 + 0x20) as usize), base + c5 + 0x44);
        assert_eq!(read_u32_at(&img, (c5 + 0x2c) as usize), base + c5 + 0x8);
        assert!(base as usize + total_size(v) <= u32::MAX as usize);
    }
}
