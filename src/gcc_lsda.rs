//! The call-site table of a GCC-compatible LSDA (`.gcc_except_table`).
//!
//! The table has one action, a catch of the null type-info entry; each call
//! site covers the one byte of its call instruction.

use vstd::prelude::*;
use crate::call_site::{CallSite, UnwindKind, all_wf};

verus! {

/// The action of a call-site record.
#[derive(Clone, Copy, Debug, PartialEq, Eq, Structural)]
pub enum GccAction {
    /// No action: the landing pad, if any, is a cleanup.
    NoAction,
    /// The table's single catch action.
    Catch,
}

/// One record of the call-site table, offsets relative to the function start.
#[derive(Clone, Copy, Debug, PartialEq, Eq, Structural)]
pub struct GccCallSite {
    pub start: u64,
    pub length: u64,
    /// Zero when the call has no landing pad.
    pub landing_pad: u64,
    pub action: GccAction,
}

/// The record for call site `s`: it starts at the call instruction, one byte
/// before the return address.
pub open spec fn gcc_record(s: CallSite) -> GccCallSite {
    GccCallSite {
        start: (s.ret_addr - 1) as u64,
        length: 1,
        landing_pad: match s.kind {
            UnwindKind::NoCleanup => 0,
            _ => s.landing_pad as u64,
        },
        action: match s.kind {
            UnwindKind::Catch => GccAction::Catch,
            _ => GccAction::NoAction,
        },
    }
}

/// Builds the call-site table of a function, one record per call site in
/// emission order.
pub fn gcc_call_site_table(sites: &Vec<CallSite>) -> (r: Vec<GccCallSite>)
    requires
        all_wf(sites@),
    ensures
        r@ == sites@.map_values(|s: CallSite| gcc_record(s)),
{
    let mut out: Vec<GccCallSite> = Vec::new();
    let mut i: usize = 0;
    while i < sites.len()
        invariant
            i <= sites@.len(),
            all_wf(sites@),
            out@ == sites@.subrange(0, i as int).map_values(|s: CallSite| gcc_record(s)),
        decreases sites@.len() - i,
    {
        let s = sites[i];
        assert(sites@[i as int].wf());
        let record = match s.kind {
            UnwindKind::NoCleanup => GccCallSite {
                start: (s.ret_addr - 1) as u64,
                length: 1,
                landing_pad: 0,
                action: GccAction::NoAction,
            },
            UnwindKind::Cleanup => GccCallSite {
                start: (s.ret_addr - 1) as u64,
                length: 1,
                landing_pad: s.landing_pad as u64,
                action: GccAction::NoAction,
            },
            UnwindKind::Catch => GccCallSite {
                start: (s.ret_addr - 1) as u64,
                length: 1,
                landing_pad: s.landing_pad as u64,
                action: GccAction::Catch,
            },
        };
        out.push(record);
        assert(sites@.subrange(0, i + 1).map_values(|s: CallSite| gcc_record(s)) =~= sites@.subrange(
            0,
            i as int,
        ).map_values(|s: CallSite| gcc_record(s)).push(gcc_record(s)));
        i = i + 1;
    }
    assert(sites@.subrange(0, sites@.len() as int) =~= sites@);
    out
}

} // verus!
