//! The compact LSDA format and the personality decision that reads it.
//!
//! Layout: an 8-byte function start (filled in by a relocation; the pointer
//! size of the 64-bit targets this serves), then one
//! 9-byte entry per call site (`ret_addr: u32`, `kind: u8`, `landing_pad: u32`),
//! then a zero `u32` that ends the table.

use vstd::prelude::*;
use crate::bytes::{Endian, uint_bytes, uint_value, encode_uint, decode_uint, lemma_uint_bytes_len};
use crate::call_site::{CallSite, UnwindKind};

verus! {

pub const ENTRY_KIND_NO_CLEANUP: u8 = 1;

pub const ENTRY_KIND_CLEANUP: u8 = 2;

pub const ENTRY_KIND_CATCH: u8 = 3;

/// Size of the function-start word at the head of the table.
pub const HEADER_SIZE: usize = 8;

/// Size of one call-site entry.
pub const ENTRY_SIZE: usize = 9;

/// The bit of the unwinder's action flags that marks the search phase.
pub const SEARCH_PHASE: u32 = 1;

pub open spec fn kind_byte(k: UnwindKind) -> u8 {
    match k {
        UnwindKind::NoCleanup => ENTRY_KIND_NO_CLEANUP,
        UnwindKind::Cleanup => ENTRY_KIND_CLEANUP,
        UnwindKind::Catch => ENTRY_KIND_CATCH,
    }
}

/// The landing-pad field of a site's entry: zero for a transparent call.
pub open spec fn entry_landing_pad(s: CallSite) -> u32 {
    match s.kind {
        UnwindKind::NoCleanup => 0,
        _ => s.landing_pad,
    }
}

pub open spec fn entry_bytes(s: CallSite, e: Endian) -> Seq<u8> {
    uint_bytes(s.ret_addr as nat, 4, e) + seq![kind_byte(s.kind)] + uint_bytes(
        entry_landing_pad(s) as nat,
        4,
        e,
    )
}

/// The entries of `sites`, in order.
pub open spec fn entries_bytes(sites: Seq<CallSite>, e: Endian) -> Seq<u8>
    decreases sites.len(),
{
    if sites.len() == 0 {
        seq![]
    } else {
        entries_bytes(sites.drop_last(), e) + entry_bytes(sites.last(), e)
    }
}

pub open spec fn zeros(n: nat) -> Seq<u8> {
    Seq::new(n, |i: int| 0u8)
}

/// The whole table for `sites`, with the function start still zero.
pub open spec fn fast_lsda(sites: Seq<CallSite>, e: Endian) -> Seq<u8> {
    zeros(8) + entries_bytes(sites, e) + zeros(4)
}

proof fn lemma_entry_bytes_len(s: CallSite, e: Endian)
    ensures
        entry_bytes(s, e).len() == 9,
{
    lemma_uint_bytes_len(s.ret_addr as nat, 4, e);
    lemma_uint_bytes_len(entry_landing_pad(s) as nat, 4, e);
}

pub proof fn lemma_entries_len(sites: Seq<CallSite>, e: Endian)
    ensures
        entries_bytes(sites, e).len() == 9 * sites.len(),
    decreases sites.len(),
{
    if sites.len() > 0 {
        lemma_entries_len(sites.drop_last(), e);
        lemma_entry_bytes_len(sites.last(), e);
    }
}

fn push_zeros(out: &mut Vec<u8>, n: usize)
    ensures
        final(out)@ == old(out)@ + zeros(n as nat),
{
    let ghost start = out@;
    let mut i: usize = 0;
    while i < n
        invariant
            i <= n,
            out@ =~= start + zeros(i as nat),
        decreases n - i,
    {
        out.push(0);
        i = i + 1;
    }
}

/// Builds the table for the call sites of one function, in their order.
pub fn generate_fast_lsda(sites: &Vec<CallSite>, e: Endian) -> (r: Vec<u8>)
    ensures
        r@ == fast_lsda(sites@, e),
{
    let mut out: Vec<u8> = Vec::new();
    push_zeros(&mut out, HEADER_SIZE);
    let mut i: usize = 0;
    while i < sites.len()
        invariant
            i <= sites@.len(),
            out@ == zeros(8) + entries_bytes(sites@.subrange(0, i as int), e),
        decreases sites@.len() - i,
    {
        let s = sites[i];
        let mut ret = encode_uint(s.ret_addr as u64, 4, e);
        let kind = match s.kind {
            UnwindKind::NoCleanup => ENTRY_KIND_NO_CLEANUP,
            UnwindKind::Cleanup => ENTRY_KIND_CLEANUP,
            UnwindKind::Catch => ENTRY_KIND_CATCH,
        };
        let lp: u32 = match s.kind {
            UnwindKind::NoCleanup => 0,
            _ => s.landing_pad,
        };
        let mut pad = encode_uint(lp as u64, 4, e);
        let ghost before = out@;
        out.append(&mut ret);
        out.push(kind);
        out.append(&mut pad);
        proof {
            let pre = sites@.subrange(0, i as int);
            let next = sites@.subrange(0, i + 1);
            assert(next.drop_last() =~= pre);
            assert(next.last() == s);
            assert(out@ =~= before + entry_bytes(s, e));
        }
        i = i + 1;
    }
    assert(sites@.subrange(0, sites@.len() as int) =~= sites@);
    push_zeros(&mut out, 4);
    out
}

/// Result of looking up a function offset in a table.
#[derive(Clone, Copy, Debug, PartialEq, Eq, Structural)]
pub enum FastLookup {
    /// The first entry with that offset: its kind byte and landing pad.
    Found(u8, u32),
    /// The end marker came before any entry with that offset.
    NotFound,
    /// The table ends in the middle of an entry or before its end marker.
    Truncated,
}

/// Looks for `offset` among the entries that start at `pos`.
pub open spec fn fast_scan(lsda: Seq<u8>, pos: int, offset: u32, e: Endian) -> FastLookup
    decreases lsda.len() - pos,
{
    if pos + 4 > lsda.len() {
        FastLookup::Truncated
    } else {
        let entry_offset = uint_value(lsda.subrange(pos, pos + 4), e);
        if entry_offset == 0 {
            FastLookup::NotFound
        } else if pos + 9 > lsda.len() {
            FastLookup::Truncated
        } else if entry_offset == offset {
            FastLookup::Found(
                lsda[pos + 4],
                uint_value(lsda.subrange(pos + 5, pos + 9), e) as u32,
            )
        } else {
            fast_scan(lsda, pos + 9, offset, e)
        }
    }
}

/// Scans the entries of a table for the one at `offset`; the first match wins.
pub fn lookup_fast_entry(lsda: &[u8], offset: u32, e: Endian) -> (r: FastLookup)
    ensures
        r == fast_scan(lsda@, 8, offset, e),
{
    let len = lsda.len();
    if len < HEADER_SIZE {
        return FastLookup::Truncated;
    }
    let mut pos: usize = HEADER_SIZE;
    while pos <= len
        invariant
            len == lsda@.len(),
            8 <= pos,
            fast_scan(lsda@, 8, offset, e) == fast_scan(lsda@, pos as int, offset, e),
        decreases len + 1 - pos,
    {
        if len - pos < 4 {
            return FastLookup::Truncated;
        }
        let entry_offset = decode_uint(lsda, pos, 4, e);
        if entry_offset == 0 {
            return FastLookup::NotFound;
        }
        if len - pos < ENTRY_SIZE {
            return FastLookup::Truncated;
        }
        if entry_offset == offset as u64 {
            let kind = lsda[pos + 4];
            let lp = decode_uint(lsda, pos + 5, 4, e);
            return FastLookup::Found(kind, lp as u32);
        }
        pos = pos + ENTRY_SIZE;
    }
    FastLookup::Truncated
}

/// What the personality routine asks of the platform unwinder.
#[derive(Clone, Copy, Debug, PartialEq, Eq, Structural)]
pub enum PersonalityOutcome {
    ContinueUnwind,
    HandlerFound,
    /// Resume at `ip`, with the first unwind data register set to `exception`
    /// and the second to zero.
    InstallContext { ip: u64, exception: u64 },
}

/// The function start recorded in the head of a table.
pub open spec fn table_func_start(lsda: Seq<u8>, e: Endian) -> nat {
    uint_value(lsda.subrange(0, 8), e)
}

/// The entry of the call site that returns to `ip`.
pub open spec fn frame_entry(lsda: Seq<u8>, ip: u64, e: Endian) -> FastLookup {
    fast_scan(lsda, 8, (ip - table_func_start(lsda, e)) as u32, e)
}

/// The personality routine can decide for `ip`: the table has its head, `ip`
/// lies within 32 bits past the function start, an entry matches it before
/// the end marker, its kind is one the generator writes, and its landing pad
/// has an address. Anything else is malformed unwind metadata, on which
/// unwinding aborts.
pub open spec fn personality_applies_spec(lsda: Seq<u8>, ip: u64, e: Endian) -> bool {
    &&& lsda.len() >= 8
    &&& table_func_start(lsda, e) <= ip
    &&& ip - table_func_start(lsda, e) <= u32::MAX
    &&& match frame_entry(lsda, ip, e) {
        FastLookup::Found(kind, lp) => kind == ENTRY_KIND_NO_CLEANUP || ((kind == ENTRY_KIND_CLEANUP
            || kind == ENTRY_KIND_CATCH) && table_func_start(lsda, e) + lp <= u64::MAX),
        _ => false,
    }
}

/// The decision for an entry of kind byte `kind` and landing pad `lp`.
pub open spec fn entry_decision(actions: u32, kind: u8, lp: u32, func_start: nat, exception: u64) -> PersonalityOutcome {
    if actions & SEARCH_PHASE != 0 {
        if kind == ENTRY_KIND_CATCH {
            PersonalityOutcome::HandlerFound
        } else {
            PersonalityOutcome::ContinueUnwind
        }
    } else if kind == ENTRY_KIND_NO_CLEANUP {
        PersonalityOutcome::ContinueUnwind
    } else {
        PersonalityOutcome::InstallContext { ip: (func_start + lp) as u64, exception }
    }
}

/// The whole personality decision for instruction pointer `ip`.
pub open spec fn fast_personality_spec(
    lsda: Seq<u8>,
    ip: u64,
    actions: u32,
    exception: u64,
    e: Endian,
) -> PersonalityOutcome
    recommends
        personality_applies_spec(lsda, ip, e),
{
    match frame_entry(lsda, ip, e) {
        FastLookup::Found(kind, lp) => entry_decision(actions, kind, lp, table_func_start(lsda, e), exception),
        _ => PersonalityOutcome::ContinueUnwind,
    }
}

/// Tells whether `fast_personality` can decide for `ip` in the table `lsda`.
pub fn personality_applies(lsda: &[u8], ip: u64, e: Endian) -> (r: bool)
    ensures
        r == personality_applies_spec(lsda@, ip, e),
{
    if lsda.len() < HEADER_SIZE {
        return false;
    }
    let func_start = decode_uint(lsda, 0, 8, e);
    if ip < func_start || ip - func_start > u32::MAX as u64 {
        return false;
    }
    match lookup_fast_entry(lsda, (ip - func_start) as u32, e) {
        FastLookup::Found(kind, lp) => {
            kind == ENTRY_KIND_NO_CLEANUP || ((kind == ENTRY_KIND_CLEANUP || kind == ENTRY_KIND_CATCH)
                && func_start <= u64::MAX - lp as u64)
        },
        _ => false,
    }
}

/// Decides what to do in a frame whose table is `lsda` (function start
/// already filled in), for the platform unwinder's `actions` flags: in the
/// search phase a catch entry stops the search and any other entry lets it go
/// on; otherwise a cleanup or catch entry resumes at its landing pad with the
/// exception object in hand, and a transparent call lets unwinding go on.
pub fn fast_personality(lsda: &[u8], ip: u64, actions: u32, exception: u64, e: Endian) -> (r:
    PersonalityOutcome)
    requires
        personality_applies_spec(lsda@, ip, e),
    ensures
        r == fast_personality_spec(lsda@, ip, actions, exception, e),
{
    let func_start = decode_uint(lsda, 0, 8, e);
    match lookup_fast_entry(lsda, (ip - func_start) as u32, e) {
        FastLookup::Found(kind, lp) => {
            if actions & SEARCH_PHASE != 0 {
                if kind == ENTRY_KIND_CATCH {
                    PersonalityOutcome::HandlerFound
                } else {
                    PersonalityOutcome::ContinueUnwind
                }
            } else if kind == ENTRY_KIND_NO_CLEANUP {
                PersonalityOutcome::ContinueUnwind
            } else {
                PersonalityOutcome::InstallContext { ip: func_start + lp as u64, exception }
            }
        },
        _ => PersonalityOutcome::ContinueUnwind,
    }
}

} // verus!
