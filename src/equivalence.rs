//! The unwinder strategies agree: for every call site of a registered
//! function, the fast personality routine, the table-free unwinder and the
//! GCC call-site table all send unwinding to the same place.

use vstd::prelude::*;
use crate::bytes::{Endian, uint_bytes, uint_value, pow256, lemma_uint_bytes_len, lemma_uint_round_trip, lemma_pow256_values};
use crate::call_site::{CallSite, UnwindKind, all_wf};
use crate::fast_lsda::{
    entry_bytes, entries_bytes, entry_landing_pad, kind_byte, zeros, fast_scan, FastLookup,
    fast_personality_spec, personality_applies_spec, PersonalityOutcome, SEARCH_PHASE, lemma_entries_len, fast_lsda,
};
use crate::custom::{CustomState, LandingPadLookup, lookup_step, knows, register_pads, custom_entry, custom_key, sites_fit};
use crate::gcc_lsda::{GccAction, gcc_record};
use crate::writer::patch;

verus! {

/// No two call sites of a function share a return address.
pub open spec fn distinct_ret_addrs(sites: Seq<CallSite>) -> bool {
    forall|i: int, j: int|
        0 <= i < sites.len() && 0 <= j < sites.len() && i != j ==> (#[trigger] sites[i]).ret_addr
            != (#[trigger] sites[j]).ret_addr
}

/// The action flags of the cleanup phase.
pub const CLEANUP_PHASE: u32 = 2;

proof fn lemma_entry_at(sites: Seq<CallSite>, j: int, e: Endian)
    requires
        0 <= j < sites.len(),
    ensures
        entries_bytes(sites, e).subrange(9 * j, 9 * j + 9) == entry_bytes(sites[j], e),
    decreases sites.len(),
{
    lemma_entries_len(sites, e);
    let pre = sites.drop_last();
    lemma_entries_len(pre, e);
    assert(entries_bytes(sites, e) == entries_bytes(pre, e) + entry_bytes(sites.last(), e));
    lemma_uint_bytes_len(sites.last().ret_addr as nat, 4, e);
    lemma_uint_bytes_len(entry_landing_pad(sites.last()) as nat, 4, e);
    if j == sites.len() - 1 {
        assert(entries_bytes(sites, e).subrange(9 * j, 9 * j + 9) =~= entry_bytes(sites[j], e));
    } else {
        lemma_entry_at(pre, j, e);
        assert(entries_bytes(sites, e).subrange(9 * j, 9 * j + 9) =~= entries_bytes(pre, e).subrange(
            9 * j,
            9 * j + 9,
        ));
    }
}

/// The table with `func_start` in its header, as relocation leaves it.
pub open spec fn placed_fast_lsda(sites: Seq<CallSite>, func_start: u64, e: Endian) -> Seq<u8> {
    uint_bytes(func_start as nat, 8, e) + entries_bytes(sites, e) + zeros(4)
}

proof fn lemma_scan(sites: Seq<CallSite>, func_start: u64, e: Endian, j: int, k: int)
    requires
        all_wf(sites),
        distinct_ret_addrs(sites),
        0 <= j <= k < sites.len(),
    ensures
        fast_scan(placed_fast_lsda(sites, func_start, e), 8 + 9 * j, sites[k].ret_addr, e)
            == FastLookup::Found(kind_byte(sites[k].kind), entry_landing_pad(sites[k])),
    decreases k - j,
{
    let t = placed_fast_lsda(sites, func_start, e);
    lemma_uint_bytes_len(func_start as nat, 8, e);
    lemma_entries_len(sites, e);
    lemma_entry_at(sites, j, e);
    lemma_pow256_values();
    let s = sites[j];
    let entry = entry_bytes(s, e);
    lemma_uint_bytes_len(s.ret_addr as nat, 4, e);
    lemma_uint_bytes_len(entry_landing_pad(s) as nat, 4, e);
    assert(t.subrange(8 + 9 * j, 8 + 9 * j + 9) =~= entry);
    assert(t.subrange(8 + 9 * j, 8 + 9 * j + 4) =~= uint_bytes(s.ret_addr as nat, 4, e));
    assert(entry.subrange(5, 9) =~= uint_bytes(entry_landing_pad(s) as nat, 4, e));
    assert(entry.subrange(0, 4) =~= uint_bytes(s.ret_addr as nat, 4, e));
    assert(t.subrange(8 + 9 * j + 5, 8 + 9 * j + 9) =~= t.subrange(8 + 9 * j, 8 + 9 * j + 9).subrange(5, 9));
    assert(t.subrange(8 + 9 * j + 5, 8 + 9 * j + 9) =~= uint_bytes(entry_landing_pad(s) as nat, 4, e));
    assert(t[8 + 9 * j + 4] == entry[4]);
    lemma_uint_round_trip(s.ret_addr as nat, 4, e);
    lemma_uint_round_trip(entry_landing_pad(s) as nat, 4, e);
    assert(sites[j].wf());
    if j < k {
        lemma_scan(sites, func_start, e, j + 1, k);
        assert(8 + 9 * (j + 1) == 8 + 9 * j + 9);
    }
}

/// `fast_lsda` with the function start patched in is the placed table.
pub proof fn lemma_placed_fast_lsda(sites: Seq<CallSite>, func_start: u64, e: Endian)
    ensures
        patch(fast_lsda(sites, e), 0, uint_bytes(func_start as nat, 8, e)) == placed_fast_lsda(
            sites,
            func_start,
            e,
        ),
{
    lemma_uint_bytes_len(func_start as nat, 8, e);
    assert(patch(fast_lsda(sites, e), 0, uint_bytes(func_start as nat, 8, e)) =~= placed_fast_lsda(
        sites,
        func_start,
        e,
    ));
}

proof fn lemma_registered_entry(m: Map<u64, crate::custom::UnwindEntry>, func_start: u64, sites: Seq<CallSite>, k: int)
    requires
        distinct_ret_addrs(sites),
        sites_fit(func_start, sites),
        0 <= k < sites.len(),
    ensures
        register_pads(m, func_start, sites).contains_key(custom_key(func_start, sites[k])),
        register_pads(m, func_start, sites)[custom_key(func_start, sites[k])] == custom_entry(
            func_start,
            sites[k],
        ),
    decreases sites.len(),
{
    if k < sites.len() - 1 {
        let pre = sites.drop_last();
        assert(pre[k] == sites[k]);
        assert(sites.last() == sites[sites.len() - 1]);
        assert(sites[k].ret_addr != sites[sites.len() - 1].ret_addr);
        assert(func_start + sites[k].ret_addr <= u64::MAX);
        assert(func_start + sites[sites.len() - 1].ret_addr <= u64::MAX);
        lemma_registered_entry(m, func_start, pre, k);
    }
}

/// Every strategy sends unwinding to the same place at call site `k` of a
/// function placed at `func_start`: both the fast personality and the
/// table-free unwinder can decide there; in the search phase the fast personality
/// stops exactly at catch sites; in the cleanup phase it installs the landing
/// pad of cleanup and catch sites and passes transparent calls; the table-free
/// unwinder, once the function is registered, answers with the same landing
/// pad or lets the walk go on; and the GCC table gives the same landing pad,
/// with the catch action exactly at catch sites.
pub proof fn lemma_strategies_agree(
    sites: Seq<CallSite>,
    k: int,
    func_start: u64,
    exception: u64,
    st: CustomState,
    e: Endian,
)
    requires
        all_wf(sites),
        distinct_ret_addrs(sites),
        sites_fit(func_start, sites),
        0 <= k < sites.len(),
        st.current_catch_return != func_start + sites[k].ret_addr,
    ensures
        ({
            let s = sites[k];
            let ip = (func_start + s.ret_addr) as u64;
            let lsda = placed_fast_lsda(sites, func_start, e);
            let registered = CustomState {
                landing_pads: register_pads(st.landing_pads, func_start, sites),
                ..st
            };
            let pad = (func_start + s.landing_pad) as u64;
            &&& personality_applies_spec(lsda, ip, e)
            &&& knows(registered, ip)
            &&& fast_personality_spec(lsda, ip, SEARCH_PHASE, exception, e) == if s.kind
                == UnwindKind::Catch {
                PersonalityOutcome::HandlerFound
            } else {
                PersonalityOutcome::ContinueUnwind
            }
            &&& fast_personality_spec(lsda, ip, CLEANUP_PHASE, exception, e) == if s.kind
                == UnwindKind::NoCleanup {
                PersonalityOutcome::ContinueUnwind
            } else {
                PersonalityOutcome::InstallContext { ip: pad, exception }
            }
            &&& lookup_step(registered, ip).0 == if s.kind == UnwindKind::NoCleanup {
                LandingPadLookup::Continue
            } else {
                LandingPadLookup::LandingPad(pad)
            }
            &&& gcc_record(s).start + 1 == s.ret_addr
            &&& (s.kind != UnwindKind::NoCleanup ==> gcc_record(s).landing_pad == s.landing_pad)
            &&& (gcc_record(s).action == GccAction::Catch <==> s.kind == UnwindKind::Catch)
        }),
{
    let s = sites[k];
    let lsda = placed_fast_lsda(sites, func_start, e);
    assert(s.wf());
    assert(func_start + s.ret_addr <= u64::MAX && func_start + s.landing_pad <= u64::MAX);
    lemma_uint_bytes_len(func_start as nat, 8, e);
    lemma_entries_len(sites, e);
    assert(lsda.subrange(0, 8) =~= uint_bytes(func_start as nat, 8, e));
    lemma_uint_round_trip(func_start as nat, 8, e);
    lemma_pow256_values();
    lemma_scan(sites, func_start, e, 0, k);
    assert(SEARCH_PHASE & SEARCH_PHASE != 0) by (bit_vector);
    assert(CLEANUP_PHASE & SEARCH_PHASE == 0) by (bit_vector);
    lemma_registered_entry(st.landing_pads, func_start, sites, k);
}

} // verus!
