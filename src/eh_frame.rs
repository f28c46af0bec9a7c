//! The `.eh_frame` side of the table-driven unwinders: which LSDA format a
//! strategy emits, and how a finished frame table is prepared for the
//! platform's frame registration.

use vstd::prelude::*;
use crate::bytes::{Endian, uint_value, decode_uint};

verus! {

/// The LSDA format of a table-driven strategy.
#[derive(Clone, Copy, Debug, PartialEq, Eq, Structural)]
pub enum LsdaFormat {
    /// The GCC except-table, read by the host runtime's personality routine.
    Gcc,
    /// The compact linear table, read by the strategy's own personality routine.
    Fast,
}

/// Name under which the personality routine is declared to the module.
pub const PERSONALITY_NAME: &'static str = "__jit_eh_personality";

/// An unwinder that registers DWARF frame tables with the platform unwinder.
pub struct EhFrameUnwinder {
    format: LsdaFormat,
}

impl EhFrameUnwinder {
    pub closed spec fn spec_format(&self) -> LsdaFormat {
        self.format
    }

    /// The strategy compatible with the host toolchain's personality routine.
    pub fn new_gcc() -> (r: EhFrameUnwinder)
        ensures
            r.spec_format() == LsdaFormat::Gcc,
    {
        EhFrameUnwinder { format: LsdaFormat::Gcc }
    }

    /// The strategy with the compact LSDA and its own personality routine.
    pub fn new_fast() -> (r: EhFrameUnwinder)
        ensures
            r.spec_format() == LsdaFormat::Fast,
    {
        EhFrameUnwinder { format: LsdaFormat::Fast }
    }

    pub fn lsda_format(&self) -> (r: LsdaFormat)
        ensures
            r == self.spec_format(),
    {
        self.format
    }

    /// The name of the personality routine that the CIE refers to.
    pub fn personality_name(&self) -> (r: &'static str)
        ensures
            r@ == PERSONALITY_NAME@,
    {
        PERSONALITY_NAME
    }
}

/// The table as handed to the platform: nothing for an empty table,
/// otherwise the table followed by a zero length that ends it.
pub open spec fn registered_table(table: Seq<u8>) -> Option<Seq<u8>> {
    if table.len() == 0 {
        None
    } else {
        Some(table + seq![0u8, 0u8, 0u8, 0u8])
    }
}

/// Appends the terminating zero-length record, or gives `None` when there
/// is nothing to register.
pub fn finish_eh_frame(table: Vec<u8>) -> (r: Option<Vec<u8>>)
    ensures
        match (r, registered_table(table@)) {
            (Some(v), Some(s)) => v@ == s,
            (None, None) => true,
            _ => false,
        },
{
    if table.len() == 0 {
        return None;
    }
    let mut out = table;
    out.push(0);
    out.push(0);
    out.push(0);
    out.push(0);
    Some(out)
}

/// The start offsets of the records of a frame table from `pos` on, each
/// record being a 4-byte length followed by that many bytes; a zero length
/// ends the table and is no record.
pub open spec fn record_offsets(table: Seq<u8>, pos: int, e: Endian) -> Seq<usize>
    decreases table.len() - pos,
{
    if pos < 0 || pos + 4 > table.len() {
        seq![]
    } else {
        let len = uint_value(table.subrange(pos, pos + 4), e);
        let next = pos + 4 + len;
        if len == 0 {
            seq![]
        } else if next > table.len() {
            seq![pos as usize]
        } else {
            seq![pos as usize] + record_offsets(table, next, e)
        }
    }
}

/// The records after the leading CIE.
pub open spec fn fde_records(table: Seq<u8>, e: Endian) -> Seq<usize> {
    let all = record_offsets(table, 0, e);
    if all.len() == 0 {
        seq![]
    } else {
        all.drop_first()
    }
}

/// The offsets of the records after the leading CIE, up to the zero-length
/// terminator: what a platform that registers one FDE per call is handed, in
/// order.
pub fn fde_offsets(table: &[u8], e: Endian) -> (r: Vec<usize>)
    ensures
        r@ == fde_records(table@, e),
{
    let n = table.len();
    let mut out: Vec<usize> = Vec::new();
    let mut pos: usize = 0;
    let ghost mut seen: Seq<usize> = seq![];
    loop
        invariant
            n == table@.len(),
            pos <= n,
            seen + record_offsets(table@, pos as int, e) == record_offsets(table@, 0, e),
            seen.len() == 0 ==> pos == 0 && out@ == Seq::<usize>::empty(),
            seen.len() > 0 ==> out@ == seen.drop_first(),
        decreases n - pos,
    {
        if n - pos < 4 {
            proof {
                assert(seen + Seq::<usize>::empty() =~= seen);
            }
            return out;
        }
        let len = decode_uint(table, pos, 4, e);
        if len == 0 {
            proof {
                assert(seen + Seq::<usize>::empty() =~= seen);
            }
            return out;
        }
        if pos != 0 {
            out.push(pos);
        }
        let ghost old_seen = seen;
        proof {
            seen = seen.push(pos as usize);
            if old_seen.len() > 0 {
                assert(seen.drop_first() =~= old_seen.drop_first().push(pos as usize));
            } else {
                assert(seen.drop_first() =~= Seq::<usize>::empty());
            }
        }
        if len > (n - pos - 4) as u64 {
            proof {
                assert(old_seen + seq![pos as usize] =~= seen);
            }
            return out;
        }
        proof {
            assert(old_seen + (seq![pos as usize] + record_offsets(table@, pos + 4 + len, e))
                =~= seen + record_offsets(table@, pos + 4 + len, e));
        }
        pos = pos + 4 + len as usize;
    }
}

} // verus!
