//! Flag encoder: folds an ordered sequence of startup flags onto the two
//! command-flag fields and the auxiliary marker field. Flags are applied in
//! sequence order; a later flag overwrites only the fields it sets, so the
//! last write to each field wins and unrelated fields keep their values.

use vstd::prelude::*;
use crate::config::CliFlags;

verus! {

/// The effect of one flag on the triple
/// `(cmd_flags_1, cmd_flags_2, cmd_dmm)`.
pub open spec fn cli_apply(f1: u32, f2: u32, dmm: u32, flag: CliFlags) -> (u32, u32, u32) {
    match flag {
        CliFlags::Selfup => (1u32, f2, dmm),
        CliFlags::Restat => (2u32, f2, dmm),
        CliFlags::Autolc => (3u32, f2, dmm),
        CliFlags::Hanres => (4u32, f2, dmm),
        CliFlags::DmmBoot => (5u32, f2, 1u32),
        CliFlags::DmmSelfup => (6u32, f2, 1u32),
        CliFlags::DmmAutolc => (7u32, f2, 1u32),
        CliFlags::DmmReboot => (8u32, f2, 1u32),
        CliFlags::Npge => (9u32, f2 | 6, dmm),
        CliFlags::NpMhfoTest => (f1, f2 | 4, dmm),
    }
}

/// The triple after applying every flag of `flags` in order.
pub open spec fn cli_fold(f1: u32, f2: u32, dmm: u32, flags: Seq<CliFlags>) -> (u32, u32, u32)
    decreases flags.len(),
{
    if flags.len() == 0 {
        (f1, f2, dmm)
    } else {
        let next = cli_apply(f1, f2, dmm, flags[0]);
        cli_fold(next.0, next.1, next.2, flags.drop_first())
    }
}

/// The encoded flag fields with nothing applied, or applied to an absent
/// flag list.
pub open spec fn cli_initial() -> (u32, u32, u32) {
    (0u32, 0u32, 0u32)
}

/// Encodes the flag sequence onto the three fields, in sequence order.
pub fn init_cli(
    cmd_flags_1: &mut u32,
    cmd_flags_2: &mut u32,
    cmd_dmm: &mut u32,
    mhf_flags: &[CliFlags],
)
    ensures
        ({
            let r = cli_fold(*old(cmd_flags_1), *old(cmd_flags_2), *old(cmd_dmm), mhf_flags@);
            &&& *final(cmd_flags_1) == r.0
            &&& *final(cmd_flags_2) == r.1
            &&& *final(cmd_dmm) == r.2
        }),
{
    let ghost orig = (*cmd_flags_1, *cmd_flags_2, *cmd_dmm);
    proof {
        assert(mhf_flags@.skip(0) =~= mhf_flags@);
    }
    let n = mhf_flags.len();
    let mut i: usize = 0;
    while i < n
        invariant
            i <= n,
            n == mhf_flags@.len(),
            cli_fold(orig.0, orig.1, orig.2, mhf_flags@) == cli_fold(
                *cmd_flags_1,
                *cmd_flags_2,
                *cmd_dmm,
                mhf_flags@.skip(i as int),
            ),
        decreases n - i,
    {
        proof {
            assert(mhf_flags@.skip(i as int)[0] == mhf_flags@[i as int]);
            assert(mhf_flags@.skip(i as int).drop_first() =~= mhf_flags@.skip(i as int + 1));
        }
        match mhf_flags[i] {
            CliFlags::Selfup => {
                *cmd_flags_1 = 1;
            },
            CliFlags::Restat => {
                *cmd_flags_1 = 2;
            },
            CliFlags::Autolc => {
                *cmd_flags_1 = 3;
            },
            CliFlags::Hanres => {
                *cmd_flags_1 = 4;
            },
            CliFlags::DmmBoot => {
                *cmd_flags_1 = 5;
                *cmd_dmm = 1;
            },
            CliFlags::DmmSelfup => {
                *cmd_flags_1 = 6;
                *cmd_dmm = 1;
            },
            CliFlags::DmmAutolc => {
                *cmd_flags_1 = 7;
                *cmd_dmm = 1;
            },
            CliFlags::DmmReboot => {
                *cmd_flags_1 = 8;
                *cmd_dmm = 1;
            },
            CliFlags::Npge => {
                *cmd_flags_1 = 9;
                *cmd_flags_2 = *cmd_flags_2 | 6;
            },
            CliFlags::NpMhfoTest => {
                *cmd_flags_2 = *cmd_flags_2 | 4;
            },
        }
        i = i + 1;
    }
    proof {
        assert(mhf_flags@.skip(n as int) =~= Seq::<CliFlags>::empty());
    }
}

/// Whether a flag assigns the first command-flag field.
pub open spec fn sets_field1(flag: CliFlags) -> bool {
    !(flag == CliFlags::NpMhfoTest)
}

/// The mode code a field1-setting flag assigns.
pub open spec fn field1_code(flag: CliFlags) -> u32 {
    cli_apply(0, 0, 0, flag).0
}

/// Whether a flag touches the second command-flag field.
pub open spec fn touches_field2(flag: CliFlags) -> bool {
    flag == CliFlags::Npge || flag == CliFlags::NpMhfoTest
}

/// Folding one more flag is applying it to the fold of the rest.
pub proof fn lemma_cli_fold_push(f1: u32, f2: u32, dmm: u32, flags: Seq<CliFlags>, g: CliFlags)
    ensures
        ({
            let r = cli_fold(f1, f2, dmm, flags);
            cli_fold(f1, f2, dmm, flags.push(g)) == cli_apply(r.0, r.1, r.2, g)
        }),
    decreases flags.len(),
{
    if flags.len() == 0 {
        let applied = cli_apply(f1, f2, dmm, g);
        assert(flags.push(g)[0] == g);
        assert(flags.push(g).drop_first() =~= Seq::<CliFlags>::empty());
        assert(cli_fold(f1, f2, dmm, flags.push(g)) == cli_fold(
            applied.0,
            applied.1,
            applied.2,
            Seq::<CliFlags>::empty(),
        ));
        assert(cli_fold(applied.0, applied.1, applied.2, Seq::<CliFlags>::empty()) == applied);
    } else {
        let next = cli_apply(f1, f2, dmm, flags[0]);
        assert(flags.push(g)[0] == flags[0]);
        assert(flags.push(g).drop_first() =~= flags.drop_first().push(g));
        assert(cli_fold(f1, f2, dmm, flags.push(g)) == cli_fold(
            next.0,
            next.1,
            next.2,
            flags.drop_first().push(g),
        ));
        lemma_cli_fold_push(next.0, next.1, next.2, flags.drop_first(), g);
        assert(cli_fold(f1, f2, dmm, flags) == cli_fold(
            next.0,
            next.1,
            next.2,
            flags.drop_first(),
        ));
    }
}

/// Last write wins per field: whatever came before, a final field1-setting
/// flag leaves field1 at its own code.
pub proof fn lemma_cli_last_write_wins(
    f1: u32,
    f2: u32,
    dmm: u32,
    flags: Seq<CliFlags>,
    g: CliFlags,
)
    requires
        sets_field1(g),
    ensures
        cli_fold(f1, f2, dmm, flags.push(g)).0 == field1_code(g),
{
    lemma_cli_fold_push(f1, f2, dmm, flags, g);
}

/// Independent fields accumulate: a final flag that does not touch field2
/// leaves field2 exactly as the earlier flags set it.
pub proof fn lemma_cli_field2_kept(f1: u32, f2: u32, dmm: u32, flags: Seq<CliFlags>, g: CliFlags)
    requires
        !touches_field2(g),
    ensures
        cli_fold(f1, f2, dmm, flags.push(g)).1 == cli_fold(f1, f2, dmm, flags).1,
{
    lemma_cli_fold_push(f1, f2, dmm, flags, g);
}

} // verus!
