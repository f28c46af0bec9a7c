//! Per-call-site unwind metadata as the code generator reports it.

use vstd::prelude::*;

verus! {

/// What unwinding does at a call site.
#[derive(Clone, Copy, Debug, PartialEq, Eq, Structural)]
pub enum UnwindKind {
    /// The call is transparent to unwinding: the frame has no interest in it.
    NoCleanup,
    /// The landing pad runs a cleanup and then resumes unwinding.
    Cleanup,
    /// The landing pad catches the exception and ends the search.
    Catch,
}

/// One call instruction of a compiled function.
#[derive(Clone, Copy, Debug, PartialEq, Eq, Structural)]
pub struct CallSite {
    /// Offset from the function start of the instruction after the call.
    pub ret_addr: u32,
    pub kind: UnwindKind,
    /// Function-relative offset of the landing pad; unused for `NoCleanup`.
    pub landing_pad: u32,
}

/// Why a code generator's call-site record could not be read.
#[derive(Clone, Copy, Debug, PartialEq, Eq, Structural)]
pub enum CallSiteError {
    /// The exception tag is neither cleanup (0) nor catch (1).
    UnknownTag(u32),
    /// A cleanup or catch site came without a landing-pad target.
    MissingLandingPad,
}

/// The tag that the lowering puts on calls inside `try ... finally`.
pub const CLEANUP_TAG: u32 = 0;

/// The tag that the lowering puts on calls inside `try ... catch`.
pub const CATCH_TAG: u32 = 1;

/// The record that a backend record with return address `ret_addr`, tag `id`
/// and alternate targets `targets` stands for.
pub open spec fn backend_call_site(ret_addr: u32, id: Option<u32>, targets: Seq<u32>) -> Result<
    CallSite,
    CallSiteError,
> {
    match id {
        None => Ok(CallSite { ret_addr, kind: UnwindKind::NoCleanup, landing_pad: 0 }),
        Some(tag) => if tag != CLEANUP_TAG && tag != CATCH_TAG {
            Err(CallSiteError::UnknownTag(tag))
        } else if targets.len() == 0 {
            Err(CallSiteError::MissingLandingPad)
        } else {
            Ok(
                CallSite {
                    ret_addr,
                    kind: if tag == CLEANUP_TAG {
                        UnwindKind::Cleanup
                    } else {
                        UnwindKind::Catch
                    },
                    landing_pad: targets[0],
                },
            )
        },
    }
}

impl CallSite {
    /// A call site is usable in unwind tables when its return address is past
    /// the start of the function, as it is after any call instruction.
    pub open spec fn wf(self) -> bool {
        self.ret_addr > 0
    }

    /// Reads a backend record: no tag is a transparent call; tag 0 a cleanup
    /// and tag 1 a catch, each with its first alternate target as landing pad.
    pub fn from_backend(ret_addr: u32, id: Option<u32>, targets: &Vec<u32>) -> (r: Result<
        CallSite,
        CallSiteError,
    >)
        ensures
            r == backend_call_site(ret_addr, id, targets@),
    {
        match id {
            None => Ok(CallSite { ret_addr, kind: UnwindKind::NoCleanup, landing_pad: 0 }),
            Some(tag) => {
                if tag != CLEANUP_TAG && tag != CATCH_TAG {
                    Err(CallSiteError::UnknownTag(tag))
                } else if targets.len() == 0 {
                    Err(CallSiteError::MissingLandingPad)
                } else {
                    let kind = if tag == CLEANUP_TAG {
                        UnwindKind::Cleanup
                    } else {
                        UnwindKind::Catch
                    };
                    Ok(CallSite { ret_addr, kind, landing_pad: targets[0] })
                }
            },
        }
    }
}

/// Every site of a function is usable in unwind tables.
pub open spec fn all_wf(sites: Seq<CallSite>) -> bool {
    forall|i: int| 0 <= i < sites.len() ==> (#[trigger] sites[i]).wf()
}

} // verus!
