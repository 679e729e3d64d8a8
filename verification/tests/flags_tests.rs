use mhf::config::CliFlags;
use mhf::flags::init_cli;

fn encode(flags: &[CliFlags]) -> (u32, u32, u32) {
    let mut f1: u32 = 0;
    let mut f2: u32 = 0;
    let mut dmm: u32 = 0;
    init_cli(&mut f1, &mut f2, &mut dmm, flags);
    (f1, f2, dmm)
}

#[test]
fn mode_then_aux_toggle() {
    // A mode flag sets field1; a later aux toggle sets its field2 bit and
    // leaves field1 alone.
    let (f1, f2, dmm) = encode(&[CliFlags::Selfup, CliFlags::NpMhfoTest]);
    assert_eq!(f1, 1);
    assert_eq!(f2, 4);
    assert_eq!(dmm, 0);
}

#[test]
fn last_write_wins_on_field1() {
    let (f1, f2, dmm) = encode(&[CliFlags::Selfup, CliFlags::Restat]);
    assert_eq!(f1, 2);
    assert_eq!(f2, 0);
    assert_eq!(dmm, 0);
}

#[test]
fn unrelated_field_not_reset() {
    // Npge sets field1 to 9 and bits 6 in field2; a later mode flag
    // overwrites field1 only.
    let (f1, f2, dmm) = encode(&[CliFlags::Npge, CliFlags::Restat]);
    assert_eq!(f1, 2);
    assert_eq!(f2, 6);
    assert_eq!(dmm, 0);
}

#[test]
fn dmm_flags_mark_dmm_field() {
    assert_eq!(encode(&[CliFlags::DmmBoot]), (5, 0, 1));
    assert_eq!(encode(&[CliFlags::DmmSelfup]), (6, 0, 1));
    assert_eq!(encode(&[CliFlags::DmmAutolc]), (7, 0, 1));
    assert_eq!(encode(&[CliFlags::DmmReboot]), (8, 0, 1));
}

#[test]
fn every_mode_code() {
    assert_eq!(encode(&[CliFlags::Selfup]).0, 1);
    assert_eq!(encode(&[CliFlags::Restat]).0, 2);
    assert_eq!(encode(&[CliFlags::Autolc]).0, 3);
    assert_eq!(encode(&[CliFlags::Hanres]).0, 4);
    assert_eq!(encode(&[CliFlags::Npge]).0, 9);
}

#[test]
fn aux_bits_accumulate() {
    let (f1, f2, _) = encode(&[CliFlags::NpMhfoTest, CliFlags::Npge]);
    assert_eq!(f1, 9);
    assert_eq!(f2, 6);
    let (_, f2b, _) = encode(&[CliFlags::Npge, CliFlags::NpMhfoTest]);
    assert_eq!(f2b, 6);
}

#[test]
fn empty_sequence_leaves_fields_zero() {
    assert_eq!(encode(&[]), (0, 0, 0));
}
