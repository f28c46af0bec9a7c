use jit_unwind::bytes::{encode_uint, Endian};
use jit_unwind::call_site::{CallSite, UnwindKind};
use jit_unwind::fast_lsda::{
    fast_personality, generate_fast_lsda, lookup_fast_entry, personality_applies, FastLookup,
    PersonalityOutcome,
};

const SEARCH: u32 = 1;
const CLEANUP: u32 = 2;

fn sites() -> Vec<CallSite> {
    vec![
        CallSite { ret_addr: 8, kind: UnwindKind::NoCleanup, landing_pad: 0 },
        CallSite { ret_addr: 0x10, kind: UnwindKind::Cleanup, landing_pad: 0x40 },
        CallSite { ret_addr: 0x50, kind: UnwindKind::Catch, landing_pad: 0x80 },
    ]
}

fn placed(func_start: u64, e: Endian) -> Vec<u8> {
    let mut table = generate_fast_lsda(&sites(), e);
    let start = encode_uint(func_start, 8, e);
    table[..8].copy_from_slice(&start);
    table
}

#[test]
fn fast_table_layout_little_endian() {
    let table = generate_fast_lsda(&sites(), Endian::Little);
    let expected: Vec<u8> = vec![
        0, 0, 0, 0, 0, 0, 0, 0, // function start
        8, 0, 0, 0, 1, 0, 0, 0, 0, // transparent call
        0x10, 0, 0, 0, 2, 0x40, 0, 0, 0, // cleanup
        0x50, 0, 0, 0, 3, 0x80, 0, 0, 0, // catch
        0, 0, 0, 0, // end marker
    ];
    assert_eq!(table, expected);
}

#[test]
fn fast_table_layout_big_endian() {
    let table = generate_fast_lsda(&vec![CallSite { ret_addr: 0x0102, kind: UnwindKind::Catch, landing_pad: 0x0304 }], Endian::Big);
    let expected: Vec<u8> = vec![0, 0, 0, 0, 0, 0, 0, 0, 0, 0, 1, 2, 3, 0, 0, 3, 4, 0, 0, 0, 0];
    assert_eq!(table, expected);
}

#[test]
fn fast_table_without_calls() {
    assert_eq!(generate_fast_lsda(&vec![], Endian::Little), vec![0u8; 12]);
}

#[test]
fn transparent_call_writes_zero_landing_pad() {
    let table = generate_fast_lsda(&vec![CallSite { ret_addr: 4, kind: UnwindKind::NoCleanup, landing_pad: 77 }], Endian::Little);
    assert_eq!(&table[8..17], &[4, 0, 0, 0, 1, 0, 0, 0, 0]);
}

#[test]
fn lookup_finds_each_entry() {
    let table = placed(0x1000, Endian::Little);
    assert_eq!(lookup_fast_entry(&table, 8, Endian::Little), FastLookup::Found(1, 0));
    assert_eq!(lookup_fast_entry(&table, 0x10, Endian::Little), FastLookup::Found(2, 0x40));
    assert_eq!(lookup_fast_entry(&table, 0x50, Endian::Little), FastLookup::Found(3, 0x80));
    assert_eq!(lookup_fast_entry(&table, 0x11, Endian::Little), FastLookup::NotFound);
}

#[test]
fn lookup_first_match_wins() {
    let dup = vec![
        CallSite { ret_addr: 8, kind: UnwindKind::Cleanup, landing_pad: 1 },
        CallSite { ret_addr: 8, kind: UnwindKind::Catch, landing_pad: 2 },
    ];
    let table = generate_fast_lsda(&dup, Endian::Little);
    assert_eq!(lookup_fast_entry(&table, 8, Endian::Little), FastLookup::Found(2, 1));
}

#[test]
fn lookup_in_truncated_table() {
    let table = placed(0x1000, Endian::Little);
    assert_eq!(lookup_fast_entry(&table[..table.len() - 4], 0x99, Endian::Little), FastLookup::Truncated);
    assert_eq!(lookup_fast_entry(&table[..5], 8, Endian::Little), FastLookup::Truncated);
}

#[test]
fn personality_search_phase() {
    for e in [Endian::Little, Endian::Big] {
        let table = placed(0x1000, e);
        assert_eq!(fast_personality(&table, 0x1008, SEARCH, 7, e), PersonalityOutcome::ContinueUnwind);
        assert_eq!(fast_personality(&table, 0x1010, SEARCH, 7, e), PersonalityOutcome::ContinueUnwind);
        assert_eq!(fast_personality(&table, 0x1050, SEARCH, 7, e), PersonalityOutcome::HandlerFound);
    }
}

#[test]
fn personality_cleanup_phase() {
    let table = placed(0x1000, Endian::Little);
    let e = Endian::Little;
    assert_eq!(fast_personality(&table, 0x1008, CLEANUP, 7, e), PersonalityOutcome::ContinueUnwind);
    assert_eq!(
        fast_personality(&table, 0x1010, CLEANUP, 7, e),
        PersonalityOutcome::InstallContext { ip: 0x1040, exception: 7 }
    );
    assert_eq!(
        fast_personality(&table, 0x1050, CLEANUP | 4, 7, e),
        PersonalityOutcome::InstallContext { ip: 0x1080, exception: 7 }
    );
}

#[test]
fn personality_applies_to_each_call_site() {
    let table = placed(0x1000, Endian::Little);
    assert!(personality_applies(&table, 0x1008, Endian::Little));
    assert!(personality_applies(&table, 0x1010, Endian::Little));
    assert!(personality_applies(&table, 0x1050, Endian::Little));
}

#[test]
fn personality_does_not_apply_to_unknown_call_site() {
    let table = placed(0x1000, Endian::Little);
    assert!(!personality_applies(&table, 0x1020, Endian::Little));
}

#[test]
fn personality_does_not_apply_to_malformed_inputs() {
    let table = placed(0x1000, Endian::Little);
    let e = Endian::Little;
    assert!(!personality_applies(&table, 0xfff, e));
    assert!(!personality_applies(&table, 0x1_0000_1000, e));
    assert!(!personality_applies(&table[..6], 0x1008, e));
    assert!(!personality_applies(&table[..table.len() - 4], 0x1099, e));
    let mut bad_kind = table.clone();
    bad_kind[12] = 9;
    assert!(!personality_applies(&bad_kind, 0x1008, e));
}

#[test]
fn personality_does_not_apply_past_address_space() {
    let table = placed(u64::MAX - 0x20, Endian::Little);
    assert!(!personality_applies(&table, u64::MAX - 0x20 + 0x10, Endian::Little));
    assert!(personality_applies(&table, u64::MAX - 0x20 + 0x8, Endian::Little));
}
