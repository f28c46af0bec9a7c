//! The unwinder that registers no tables with the platform: it keeps its own
//! map from return address to landing pad, and the throw routine walks the
//! frames itself, asking this state at each one where to go.

use vstd::prelude::*;
use std::collections::HashMap;
use crate::call_site::{CallSite, UnwindKind};

verus! {

broadcast use vstd::std_specs::hash::group_hash_axioms;

/// What the unwinder knows of one return address.
#[derive(Clone, Copy, Debug, PartialEq, Eq, Structural)]
pub struct UnwindEntry {
    /// Absolute address of the landing pad; zero for a transparent call.
    pub landing_pad: u64,
    pub kind: UnwindKind,
}

/// The state of the table-free unwinder: the landing-pad map filled at
/// registration, the return address of the innermost catcher, and the
/// out-of-band channel (flag and payload) of a throw in flight.
pub struct CustomUnwinder {
    landing_pads: HashMap<u64, UnwindEntry>,
    current_catch_return: u64,
    exception_happened: bool,
    exception_payload: u64,
}

/// The abstract state of a `CustomUnwinder`.
pub struct CustomState {
    pub landing_pads: Map<u64, UnwindEntry>,
    pub current_catch_return: u64,
    pub exception_happened: bool,
    pub exception_payload: u64,
}

impl View for CustomUnwinder {
    type V = CustomState;

    closed spec fn view(&self) -> CustomState {
        CustomState {
            landing_pads: self.landing_pads@,
            current_catch_return: self.current_catch_return,
            exception_happened: self.exception_happened,
            exception_payload: self.exception_payload,
        }
    }
}

/// Where the frame walk goes after asking about one return address.
#[derive(Clone, Copy, Debug, PartialEq, Eq, Structural)]
pub enum LandingPadLookup {
    /// The address is where the innermost catcher resumes: stop unwinding.
    Catcher,
    /// The frame has no interest in the exception: keep unwinding.
    Continue,
    /// Jump to this landing pad with the payload in hand.
    LandingPad(u64),
}

/// Where a whole frame walk ended.
#[derive(Clone, Copy, Debug, PartialEq, Eq, Structural)]
pub enum SearchOutcome {
    /// Control goes to `landing_pad` in the frame at index `frame`.
    Landed { frame: usize, landing_pad: u64 },
    /// The frame at index `frame` is the catcher's own return address.
    ReachedCatcher { frame: usize },
    /// Nothing is registered for the frame at index `frame`: the walk aborts.
    NoEntry { frame: usize },
    /// The walk ran past the last frame it was given.
    OutOfFrames,
}

/// The map entry for call site `s` of a function placed at `func_addr`.
pub open spec fn custom_entry(func_addr: u64, s: CallSite) -> UnwindEntry {
    UnwindEntry {
        landing_pad: match s.kind {
            UnwindKind::NoCleanup => 0,
            _ => (func_addr + s.landing_pad) as u64,
        },
        kind: s.kind,
    }
}

/// The key of call site `s`: its absolute return address.
pub open spec fn custom_key(func_addr: u64, s: CallSite) -> u64 {
    (func_addr + s.ret_addr) as u64
}

/// `m` after inserting the entries of `sites`, in order.
pub open spec fn register_pads(m: Map<u64, UnwindEntry>, func_addr: u64, sites: Seq<CallSite>) -> Map<
    u64,
    UnwindEntry,
>
    decreases sites.len(),
{
    if sites.len() == 0 {
        m
    } else {
        register_pads(m, func_addr, sites.drop_last()).insert(
            custom_key(func_addr, sites.last()),
            custom_entry(func_addr, sites.last()),
        )
    }
}

/// The keys that registering `sites` at `func_addr` inserts.
pub open spec fn site_keys(func_addr: u64, sites: Seq<CallSite>) -> Set<u64>
    decreases sites.len(),
{
    if sites.len() == 0 {
        Set::empty()
    } else {
        site_keys(func_addr, sites.drop_last()).insert(custom_key(func_addr, sites.last()))
    }
}

proof fn lemma_register_frame(m: Map<u64, UnwindEntry>, func_addr: u64, sites: Seq<CallSite>, k: u64)
    requires
        !site_keys(func_addr, sites).contains(k),
    ensures
        register_pads(m, func_addr, sites).contains_key(k) == m.contains_key(k),
        m.contains_key(k) ==> register_pads(m, func_addr, sites)[k] == m[k],
    decreases sites.len(),
{
    if sites.len() > 0 {
        lemma_register_frame(m, func_addr, sites.drop_last(), k);
    }
}

proof fn lemma_register_agree(
    m1: Map<u64, UnwindEntry>,
    m2: Map<u64, UnwindEntry>,
    func_addr: u64,
    sites: Seq<CallSite>,
    k: u64,
)
    requires
        site_keys(func_addr, sites).contains(k),
    ensures
        register_pads(m1, func_addr, sites).contains_key(k),
        register_pads(m2, func_addr, sites).contains_key(k),
        register_pads(m1, func_addr, sites)[k] == register_pads(m2, func_addr, sites)[k],
    decreases sites.len(),
{
    if sites.len() > 0 && k != custom_key(func_addr, sites.last()) {
        lemma_register_agree(m1, m2, func_addr, sites.drop_last(), k);
    }
}

/// Registering a function twice leaves the same map as registering it once.
pub proof fn lemma_register_idempotent(m: Map<u64, UnwindEntry>, func_addr: u64, sites: Seq<CallSite>)
    ensures
        register_pads(register_pads(m, func_addr, sites), func_addr, sites) == register_pads(
            m,
            func_addr,
            sites,
        ),
{
    let once = register_pads(m, func_addr, sites);
    let twice = register_pads(once, func_addr, sites);
    assert forall|k: u64| #[trigger] twice.contains_key(k) == once.contains_key(k) && (once.contains_key(k) ==> twice[k] == once[k]) by {
        if site_keys(func_addr, sites).contains(k) {
            lemma_register_agree(once, m, func_addr, sites, k);
        } else {
            lemma_register_frame(once, func_addr, sites, k);
        }
    }
    assert(twice =~= once);
}

/// The sites' absolute addresses fit in a `u64`.
pub open spec fn sites_fit(func_addr: u64, sites: Seq<CallSite>) -> bool {
    forall|i: int|
        0 <= i < sites.len() ==> func_addr + (#[trigger] sites[i]).ret_addr <= u64::MAX
            && func_addr + sites[i].landing_pad <= u64::MAX
}

/// Tells whether the absolute addresses of `sites` fit in a `u64` for a
/// function placed at `func_addr`, as `register_function` requires.
pub fn check_sites_fit(func_addr: u64, sites: &Vec<CallSite>) -> (r: bool)
    ensures
        r == sites_fit(func_addr, sites@),
{
    let mut i: usize = 0;
    while i < sites.len()
        invariant
            i <= sites@.len(),
            forall|j: int|
                0 <= j < i ==> func_addr + (#[trigger] sites@[j]).ret_addr <= u64::MAX && func_addr
                    + sites@[j].landing_pad <= u64::MAX,
        decreases sites@.len() - i,
    {
        if func_addr > u64::MAX - sites[i].ret_addr as u64 || func_addr > u64::MAX - sites[i].landing_pad as u64 {
            return false;
        }
        i = i + 1;
    }
    true
}

/// The walk has something to say about `ip`: it is the catcher's return
/// address or a registered one. Any other address aborts the walk.
pub open spec fn knows(st: CustomState, ip: u64) -> bool {
    ip == st.current_catch_return || st.landing_pads.contains_key(ip)
}

/// The answer for a known `ip`, and the state after the question.
pub open spec fn lookup_step(st: CustomState, ip: u64) -> (LandingPadLookup, CustomState)
    recommends
        knows(st, ip),
{
    if ip == st.current_catch_return {
        (LandingPadLookup::Catcher, st)
    } else {
        let entry = st.landing_pads[ip];
        match entry.kind {
            UnwindKind::NoCleanup => (LandingPadLookup::Continue, st),
            UnwindKind::Cleanup => (LandingPadLookup::LandingPad(entry.landing_pad), st),
            UnwindKind::Catch => (
                LandingPadLookup::LandingPad(entry.landing_pad),
                CustomState { exception_happened: false, ..st },
            ),
        }
    }
}

/// The walk over `frames` from index `i` outward, and the state it leaves.
pub open spec fn search_from(st: CustomState, frames: Seq<u64>, i: int) -> (SearchOutcome, CustomState)
    decreases frames.len() - i,
{
    if i < 0 || i >= frames.len() {
        (SearchOutcome::OutOfFrames, st)
    } else if !knows(st, frames[i]) {
        (SearchOutcome::NoEntry { frame: i as usize }, st)
    } else {
        let (step, next) = lookup_step(st, frames[i]);
        match step {
            LandingPadLookup::Catcher => (SearchOutcome::ReachedCatcher { frame: i as usize }, next),
            LandingPadLookup::LandingPad(lp) => (
                SearchOutcome::Landed { frame: i as usize, landing_pad: lp },
                next,
            ),
            LandingPadLookup::Continue => search_from(next, frames, i + 1),
        }
    }
}

/// The state after a throw of `payload` starts.
pub open spec fn throw_state(st: CustomState, payload: u64) -> CustomState {
    CustomState { exception_happened: true, exception_payload: payload, ..st }
}

/// The state after a protected call that resumes at `ret_addr` starts.
pub open spec fn begin_catch_state(st: CustomState, ret_addr: u64) -> CustomState {
    CustomState { current_catch_return: ret_addr, exception_happened: false, ..st }
}

/// What a protected call that handed back `returned` gives its caller.
pub open spec fn catch_result(st: CustomState, returned: u64) -> Result<u64, u64> {
    if st.exception_happened {
        Err(st.exception_payload)
    } else {
        Ok(returned)
    }
}

/// The kind of the entry that the walk over `frames` landed on, if it landed.
pub open spec fn landed_kind(st: CustomState, frames: Seq<u64>, out: SearchOutcome) -> Option<UnwindKind> {
    match out {
        SearchOutcome::Landed { frame, .. } => if frame < frames.len() && st.landing_pads.contains_key(
            frames[frame as int],
        ) {
            Some(st.landing_pads[frames[frame as int]].kind)
        } else {
            None
        },
        _ => None,
    }
}

proof fn lemma_search_keeps(st: CustomState, frames: Seq<u64>, i: int)
    requires
        st.exception_happened,
        frames.len() <= usize::MAX,
    ensures
        ({
            let (out, next) = search_from(st, frames, i);
            &&& next.landing_pads == st.landing_pads
            &&& next.current_catch_return == st.current_catch_return
            &&& next.exception_payload == st.exception_payload
            &&& (out is Landed ==> landed_kind(st, frames, out) is Some)
            &&& (next.exception_happened <==> landed_kind(st, frames, out) != Some(UnwindKind::Catch))
        }),
    decreases frames.len() - i,
{
    if 0 <= i < frames.len() && knows(st, frames[i]) {
        let (step, next) = lookup_step(st, frames[i]);
        if step is Continue {
            lemma_search_keeps(next, frames, i + 1);
        }
    }
}

/// How a protected call ends: with no throw, `Ok` with what the callee
/// returned; when a throw's frame walk reaches the catcher, `Err` with the
/// thrown payload; when it lands on a catch, the throw is consumed and the
/// call ends in `Ok`; when it lands on a cleanup, the throw stays in flight
/// with its payload, to be resumed after the cleanup.
pub proof fn lemma_protected_call(
    st: CustomState,
    ret_addr: u64,
    returned: u64,
    payload: u64,
    frames: Seq<u64>,
)
    requires
        frames.len() <= usize::MAX,
    ensures
        catch_result(begin_catch_state(st, ret_addr), returned) == Ok::<u64, u64>(returned),
        ({
            let thrown = throw_state(begin_catch_state(st, ret_addr), payload);
            let (out, next) = search_from(thrown, frames, 0);
            &&& (out is ReachedCatcher ==> catch_result(next, returned) == Err::<u64, u64>(payload))
            &&& (landed_kind(thrown, frames, out) == Some(UnwindKind::Catch) ==> catch_result(
                next,
                returned,
            ) == Ok::<u64, u64>(returned))
            &&& (landed_kind(thrown, frames, out) == Some(UnwindKind::Cleanup) ==> next.exception_happened
                && next.exception_payload == payload)
        }),
{
    lemma_search_keeps(throw_state(begin_catch_state(st, ret_addr), payload), frames, 0);
}

impl CustomUnwinder {
    /// An unwinder with no registered functions, no catcher and no throw in flight.
    pub fn new() -> (r: CustomUnwinder)
        ensures
            r@.landing_pads == Map::<u64, UnwindEntry>::empty(),
            r@.current_catch_return == 0,
            !r@.exception_happened,
            r@.exception_payload == 0,
    {
        CustomUnwinder {
            landing_pads: HashMap::new(),
            current_catch_return: 0,
            exception_happened: false,
            exception_payload: 0,
        }
    }

    /// Records every call site of a function placed at `func_addr`, keyed by
    /// its absolute return address: a transparent call with a null landing
    /// pad, a cleanup or catch with the absolute address of its landing pad.
    pub fn register_function(&mut self, func_addr: u64, sites: &Vec<CallSite>)
        requires
            sites_fit(func_addr, sites@),
        ensures
            final(self)@.landing_pads == register_pads(old(self)@.landing_pads, func_addr, sites@),
            final(self)@.current_catch_return == old(self)@.current_catch_return,
            final(self)@.exception_happened == old(self)@.exception_happened,
            final(self)@.exception_payload == old(self)@.exception_payload,
    {
        let ghost start = self.landing_pads@;
        let mut i: usize = 0;
        while i < sites.len()
            invariant
                i <= sites@.len(),
                sites_fit(func_addr, sites@),
                self.landing_pads@ == register_pads(start, func_addr, sites@.subrange(0, i as int)),
                self.current_catch_return == old(self).current_catch_return,
                self.exception_happened == old(self).exception_happened,
                self.exception_payload == old(self).exception_payload,
            decreases sites@.len() - i,
        {
            let s = sites[i];
            assert(func_addr + sites@[i as int].ret_addr <= u64::MAX);
            let landing_pad = match s.kind {
                UnwindKind::NoCleanup => 0,
                _ => func_addr + s.landing_pad as u64,
            };
            self.landing_pads.insert(func_addr + s.ret_addr as u64, UnwindEntry { landing_pad, kind: s.kind });
            proof {
                let next = sites@.subrange(0, i + 1);
                assert(next.drop_last() =~= sites@.subrange(0, i as int));
                assert(next.last() == s);
            }
            i = i + 1;
        }
        assert(sites@.subrange(0, sites@.len() as int) =~= sites@);
    }

    /// Whether the frame walk may ask about `ip`; for any other address the
    /// walk aborts.
    pub fn knows(&self, ip: u64) -> (r: bool)
        ensures
            r == knows(self@, ip),
    {
        ip == self.current_catch_return || self.landing_pads.contains_key(&ip)
    }

    /// Answers the frame walk for return address `ip`. A catch consumes the
    /// throw: the exception flag is cleared when its landing pad is chosen.
    pub fn find_landing_pad(&mut self, ip: u64) -> (r: LandingPadLookup)
        requires
            knows(old(self)@, ip),
        ensures
            (r, final(self)@) == lookup_step(old(self)@, ip),
    {
        if ip == self.current_catch_return {
            return LandingPadLookup::Catcher;
        }
        match self.landing_pads.get(&ip) {
            None => {
                assert(false);
                LandingPadLookup::Continue
            },
            Some(entry) => {
                let entry = *entry;
                match entry.kind {
                    UnwindKind::NoCleanup => LandingPadLookup::Continue,
                    UnwindKind::Cleanup => LandingPadLookup::LandingPad(entry.landing_pad),
                    UnwindKind::Catch => {
                        self.exception_happened = false;
                        LandingPadLookup::LandingPad(entry.landing_pad)
                    },
                }
            },
        }
    }

    /// Starts a throw: the payload goes into the out-of-band channel and the
    /// exception flag is raised.
    pub fn throw(&mut self, payload: u64)
        ensures
            final(self)@ == throw_state(old(self)@, payload),
    {
        self.exception_payload = payload;
        self.exception_happened = true;
    }

    /// Walks `frames`, the return addresses from the innermost frame outward,
    /// until a landing pad, the catcher, or an unregistered address, where
    /// the walk aborts.
    pub fn search(&mut self, frames: &Vec<u64>) -> (r: SearchOutcome)
        ensures
            (r, final(self)@) == search_from(old(self)@, frames@, 0),
    {
        let mut i: usize = 0;
        while i < frames.len()
            invariant
                i <= frames@.len(),
                search_from(old(self)@, frames@, 0) == search_from(self@, frames@, i as int),
            decreases frames@.len() - i,
        {
            if !self.knows(frames[i]) {
                return SearchOutcome::NoEntry { frame: i };
            }
            match self.find_landing_pad(frames[i]) {
                LandingPadLookup::Catcher => return SearchOutcome::ReachedCatcher { frame: i },
                LandingPadLookup::LandingPad(lp) => return SearchOutcome::Landed { frame: i, landing_pad: lp },
                LandingPadLookup::Continue => {},
            }
            i = i + 1;
        }
        SearchOutcome::OutOfFrames
    }

    /// Prepares a protected call whose caller resumes at `ret_addr`: clears
    /// the exception flag, makes `ret_addr` the innermost catcher, and returns
    /// the catcher it replaces, to be handed back to `finish_catch`.
    pub fn begin_catch(&mut self, ret_addr: u64) -> (saved: u64)
        ensures
            saved == old(self)@.current_catch_return,
            final(self)@ == begin_catch_state(old(self)@, ret_addr),
    {
        let saved = self.current_catch_return;
        self.current_catch_return = ret_addr;
        self.exception_happened = false;
        saved
    }

    /// Ends a protected call that handed back `returned`: `Err` with the
    /// thrown payload if a throw reached the catcher, `Ok(returned)` otherwise;
    /// the enclosing catcher `saved` becomes the innermost again.
    pub fn finish_catch(&mut self, returned: u64, saved: u64) -> (r: Result<u64, u64>)
        ensures
            r == catch_result(old(self)@, returned),
            final(self)@ == (CustomState { current_catch_return: saved, ..old(self)@ }),
    {
        self.current_catch_return = saved;
        if self.exception_happened {
            Err(self.exception_payload)
        } else {
            Ok(returned)
        }
    }

    /// The payload of the last throw.
    pub fn payload(&self) -> (r: u64)
        ensures
            r == self@.exception_payload,
    {
        self.exception_payload
    }

    /// Whether a throw is in flight that no catch has consumed.
    pub fn exception_happened(&self) -> (r: bool)
        ensures
            r == self@.exception_happened,
    {
        self.exception_happened
    }
}

} // verus!
