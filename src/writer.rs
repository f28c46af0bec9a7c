//! A table writer that leaves zero placeholders for symbolic addresses and
//! records a relocation for each, to be patched once code and data have
//! their final addresses.

use vstd::prelude::*;
use crate::bytes::{Endian, pow256, uint_bytes, encode_uint, lemma_uint_bytes_len, lemma_pow256_values};

verus! {

/// An address to write: a plain value, or a symbol plus addend.
#[derive(Clone, Copy, Debug, PartialEq, Eq, Structural)]
pub enum Address {
    Constant(u64),
    Symbol { symbol: usize, addend: i64 },
}

/// How a relocated value is computed from the target's address.
#[derive(Clone, Copy, Debug, PartialEq, Eq, Structural)]
pub enum RelocKind {
    /// The address itself, plus the addend.
    Absolute,
    /// The address relative to the place being patched.
    Relative,
}

/// What a relocation refers to.
#[derive(Clone, Copy, Debug, PartialEq, Eq, Structural)]
pub enum RelocTarget {
    /// An offset into another section, by section number.
    Section(u32),
    /// A function or data symbol, as encoded by `func_symbol` or `data_symbol`.
    Symbol(usize),
}

/// One placeholder to patch: `size` bytes at `offset`.
#[derive(Clone, Copy, Debug, PartialEq, Eq, Structural)]
pub struct Reloc {
    pub offset: usize,
    pub size: u8,
    pub target: RelocTarget,
    pub addend: i64,
    pub kind: RelocKind,
}

/// Why a write failed.
#[derive(Clone, Copy, Debug, PartialEq, Eq, Structural)]
pub enum WriteError {
    /// The value does not fit in the requested number of bytes.
    ValueTooLarge,
    /// Values of this many bytes are not supported.
    UnsupportedWordSize(u8),
    /// This pointer encoding is not supported.
    UnsupportedPointerEncoding(u8),
    /// A write at an offset past the end.
    OffsetOutOfBounds,
    /// A write at an offset that runs past the end.
    LengthOutOfBounds,
}

/// Patching the relocation at `index` failed with `error`.
#[derive(Clone, Copy, Debug, PartialEq, Eq, Structural)]
pub struct RelocError {
    pub index: usize,
    pub error: WriteError,
}

/// The pointer-encoding application bits (`DW_EH_PE_pcrel` and the like).
pub open spec fn eh_pe_application(eh_pe: u8) -> u8 {
    eh_pe & 0x70
}

/// The pointer-encoding format bits (`DW_EH_PE_sdata4` and the like).
pub open spec fn eh_pe_format(eh_pe: u8) -> u8 {
    eh_pe & 0x0f
}

pub const DW_EH_PE_ABSPTR: u8 = 0x00;

pub const DW_EH_PE_PCREL: u8 = 0x10;

pub const DW_EH_PE_SDATA4: u8 = 0x0b;

pub const DW_EH_PE_SDATA8: u8 = 0x0c;

/// The sizes in bytes that an unsigned value can be written in.
pub open spec fn supported_size(size: u8) -> bool {
    size == 1 || size == 2 || size == 3 || size == 4 || size == 8
}

/// The bytes of `val` written in `size` bytes, or why it cannot be.
pub open spec fn udata_bytes(val: u64, size: u8, e: Endian) -> Result<Seq<u8>, WriteError> {
    if !supported_size(size) {
        Err(WriteError::UnsupportedWordSize(size))
    } else if val >= pow256(size as nat) {
        Err(WriteError::ValueTooLarge)
    } else {
        Ok(uint_bytes(val as nat, size as nat, e))
    }
}

/// `bytes` with `data` copied over it at `offset`.
pub open spec fn patch(bytes: Seq<u8>, offset: int, data: Seq<u8>) -> Seq<u8> {
    bytes.subrange(0, offset) + data + bytes.subrange(offset + data.len(), bytes.len() as int)
}

/// The result of copying `data` over `bytes` at `offset`.
pub open spec fn write_at_spec(bytes: Seq<u8>, offset: usize, data: Seq<u8>) -> Result<Seq<u8>, WriteError> {
    if offset > bytes.len() {
        Err(WriteError::OffsetOutOfBounds)
    } else if data.len() > bytes.len() - offset {
        Err(WriteError::LengthOutOfBounds)
    } else {
        Ok(patch(bytes, offset as int, data))
    }
}

/// The result of writing `val` in `size` bytes at `offset`.
pub open spec fn write_udata_at_spec(bytes: Seq<u8>, offset: usize, val: u64, size: u8, e: Endian) -> Result<
    Seq<u8>,
    WriteError,
> {
    match udata_bytes(val, size, e) {
        Err(err) => Err(err),
        Ok(data) => write_at_spec(bytes, offset, data),
    }
}

/// The value that relocation `r` puts in place when its symbol is at `addr`.
pub open spec fn reloc_value(r: Reloc, addr: u64) -> u64 {
    ((addr as int + (r.addend as u64) as int) % 0x1_0000_0000_0000_0000) as u64
}

/// Every relocation is an absolute one against a symbol: the only kind a
/// table for JIT code can be patched with.
pub open spec fn patchable(relocs: Seq<Reloc>) -> bool {
    forall|i: int|
        0 <= i < relocs.len() ==> (#[trigger] relocs[i]).kind == RelocKind::Absolute
            && relocs[i].target is Symbol
}

/// The bytes after applying the first `n` relocations, or the first failure.
pub open spec fn relocate_prefix(bytes: Seq<u8>, relocs: Seq<Reloc>, addrs: Seq<u64>, n: int, e: Endian) -> Result<
    Seq<u8>,
    RelocError,
>
    decreases n,
{
    if n <= 0 {
        Ok(bytes)
    } else {
        match relocate_prefix(bytes, relocs, addrs, n - 1, e) {
            Err(err) => Err(err),
            Ok(b) => {
                let r = relocs[n - 1];
                match write_udata_at_spec(b, r.offset, reloc_value(r, addrs[n - 1]), r.size, e) {
                    Err(error) => Err(RelocError { index: (n - 1) as usize, error }),
                    Ok(b2) => Ok(b2),
                }
            },
        }
    }
}

/// The table with every relocation applied, each to the address resolved for it.
pub open spec fn relocate_spec(bytes: Seq<u8>, relocs: Seq<Reloc>, addrs: Seq<u64>, e: Endian) -> Result<
    Seq<u8>,
    RelocError,
> {
    relocate_prefix(bytes, relocs, addrs, relocs.len() as int, e)
}

/// A byte buffer in a fixed byte order, with the relocations recorded so far.
pub struct RelocWriter {
    pub relocs: Vec<Reloc>,
    pub bytes: Vec<u8>,
    pub endian: Endian,
}

fn udata(val: u64, size: u8, e: Endian) -> (r: Result<Vec<u8>, WriteError>)
    ensures
        match (r, udata_bytes(val, size, e)) {
            (Ok(v), Ok(s)) => v@ == s,
            (Err(a), Err(b)) => a == b,
            _ => false,
        },
{
    proof {
        lemma_pow256_values();
    }
    if size != 1 && size != 2 && size != 3 && size != 4 && size != 8 {
        return Err(WriteError::UnsupportedWordSize(size));
    }
    if size < 8 {
        let limit: u64 = if size == 1 {
            0x100
        } else if size == 2 {
            0x1_0000
        } else if size == 3 {
            0x100_0000
        } else {
            0x1_0000_0000
        };
        if val >= limit {
            return Err(WriteError::ValueTooLarge);
        }
    }
    Ok(encode_uint(val, size as usize, e))
}

impl RelocWriter {
    /// An empty buffer with no relocations.
    pub fn new(endian: Endian) -> (r: RelocWriter)
        ensures
            r.relocs@ == Seq::<Reloc>::empty(),
            r.bytes@ == Seq::<u8>::empty(),
            r.endian == endian,
    {
        RelocWriter { relocs: Vec::new(), bytes: Vec::new(), endian }
    }

    pub fn len(&self) -> (r: usize)
        ensures
            r == self.bytes@.len(),
    {
        self.bytes.len()
    }

    /// Appends `data`.
    pub fn write(&mut self, data: &[u8])
        ensures
            final(self).bytes@ == old(self).bytes@ + data@,
            final(self).relocs@ == old(self).relocs@,
            final(self).endian == old(self).endian,
    {
        let ghost start = self.bytes@;
        let mut i: usize = 0;
        while i < data.len()
            invariant
                i <= data@.len(),
                self.bytes@ =~= start + data@.subrange(0, i as int),
                self.relocs@ == old(self).relocs@,
                self.endian == old(self).endian,
            decreases data@.len() - i,
        {
            self.bytes.push(data[i]);
            i = i + 1;
        }
    }

    /// Copies `data` over the buffer at `offset`, which must lie within it.
    pub fn write_at(&mut self, offset: usize, data: &[u8]) -> (r: Result<(), WriteError>)
        ensures
            match write_at_spec(old(self).bytes@, offset, data@) {
                Ok(b) => r == Ok::<(), WriteError>(()) && final(self).bytes@ == b,
                Err(err) => r == Err::<(), WriteError>(err) && final(self).bytes@ == old(self).bytes@,
            },
            final(self).relocs@ == old(self).relocs@,
            final(self).endian == old(self).endian,
    {
        let len = self.bytes.len();
        if offset > len {
            return Err(WriteError::OffsetOutOfBounds);
        }
        if data.len() > len - offset {
            return Err(WriteError::LengthOutOfBounds);
        }
        let ghost start = self.bytes@;
        let mut i: usize = 0;
        while i < data.len()
            invariant
                i <= data@.len(),
                offset + data@.len() <= len,
                len == start.len(),
                self.bytes@.len() == len,
                forall|j: int| 0 <= j < offset ==> self.bytes@[j] == start[j],
                forall|j: int| offset <= j < offset + i ==> self.bytes@[j] == data@[j - offset],
                forall|j: int| offset + i <= j < len ==> self.bytes@[j] == start[j],
                self.relocs@ == old(self).relocs@,
                self.endian == old(self).endian,
            decreases data@.len() - i,
        {
            self.bytes.set(offset + i, data[i]);
            i = i + 1;
        }
        assert(self.bytes@ =~= patch(start, offset as int, data@));
        Ok(())
    }

    /// Appends `val` in `size` bytes, as gimli's `Writer::write_udata` does.
    pub fn write_udata(&mut self, val: u64, size: u8) -> (r: Result<(), WriteError>)
        ensures
            match udata_bytes(val, size, old(self).endian) {
                Ok(b) => r == Ok::<(), WriteError>(()) && final(self).bytes@ == old(self).bytes@ + b,
                Err(err) => r == Err::<(), WriteError>(err) && final(self).bytes@ == old(self).bytes@,
            },
            final(self).relocs@ == old(self).relocs@,
            final(self).endian == old(self).endian,
    {
        match udata(val, size, self.endian) {
            Ok(data) => {
                self.write(data.as_slice());
                Ok(())
            },
            Err(err) => Err(err),
        }
    }

    /// Writes `val` in `size` bytes at `offset`, as gimli's
    /// `Writer::write_udata_at` does.
    pub fn write_udata_at(&mut self, offset: usize, val: u64, size: u8) -> (r: Result<(), WriteError>)
        ensures
            match write_udata_at_spec(old(self).bytes@, offset, val, size, old(self).endian) {
                Ok(b) => r == Ok::<(), WriteError>(()) && final(self).bytes@ == b,
                Err(err) => r == Err::<(), WriteError>(err) && final(self).bytes@ == old(self).bytes@,
            },
            final(self).relocs@ == old(self).relocs@,
            final(self).endian == old(self).endian,
    {
        match udata(val, size, self.endian) {
            Ok(data) => self.write_at(offset, data.as_slice()),
            Err(err) => Err(err),
        }
    }

    /// Writes `address` in `size` bytes: a constant as it is, a symbol as a
    /// zero placeholder with an absolute relocation recorded at the current end.
    pub fn write_address(&mut self, address: Address, size: u8) -> (r: Result<(), WriteError>)
        ensures
            final(self).endian == old(self).endian,
            match address {
                Address::Constant(val) => final(self).relocs@ == old(self).relocs@,
                Address::Symbol { symbol, addend } => final(self).relocs@ == old(self).relocs@.push(
                    Reloc {
                        offset: old(self).bytes@.len() as usize,
                        size,
                        target: RelocTarget::Symbol(symbol),
                        addend,
                        kind: RelocKind::Absolute,
                    },
                ),
            },
            ({
                let val = match address {
                    Address::Constant(val) => val,
                    Address::Symbol { .. } => 0,
                };
                match udata_bytes(val, size, old(self).endian) {
                    Ok(b) => r == Ok::<(), WriteError>(()) && final(self).bytes@ == old(self).bytes@ + b,
                    Err(err) => r == Err::<(), WriteError>(err) && final(self).bytes@ == old(self).bytes@,
                }
            }),
    {
        match address {
            Address::Constant(val) => self.write_udata(val, size),
            Address::Symbol { symbol, addend } => {
                let offset = self.bytes.len();
                self.relocs.push(
                    Reloc {
                        offset,
                        size,
                        target: RelocTarget::Symbol(symbol),
                        addend,
                        kind: RelocKind::Absolute,
                    },
                );
                self.write_udata(0, size)
            },
        }
    }

    /// Writes a zero placeholder for offset `val` into section `section`,
    /// recording an absolute relocation at the current end.
    pub fn write_offset(&mut self, val: usize, section: u32, size: u8) -> (r: Result<(), WriteError>)
        ensures
            final(self).endian == old(self).endian,
            final(self).relocs@ == old(self).relocs@.push(
                Reloc {
                    offset: old(self).bytes@.len() as usize,
                    size,
                    target: RelocTarget::Section(section),
                    addend: val as i64,
                    kind: RelocKind::Absolute,
                },
            ),
            match udata_bytes(0, size, old(self).endian) {
                Ok(b) => r == Ok::<(), WriteError>(()) && final(self).bytes@ == old(self).bytes@ + b,
                Err(err) => r == Err::<(), WriteError>(err) && final(self).bytes@ == old(self).bytes@,
            },
    {
        let offset = self.bytes.len();
        self.relocs.push(
            Reloc {
                offset,
                size,
                target: RelocTarget::Section(section),
                addend: val as i64,
                kind: RelocKind::Absolute,
            },
        );
        self.write_udata(0, size)
    }

    /// Writes a zero placeholder at `offset` for offset `val` into section
    /// `section`, recording an absolute relocation there.
    pub fn write_offset_at(&mut self, offset: usize, val: usize, section: u32, size: u8) -> (r: Result<
        (),
        WriteError,
    >)
        ensures
            final(self).endian == old(self).endian,
            final(self).relocs@ == old(self).relocs@.push(
                Reloc {
                    offset,
                    size,
                    target: RelocTarget::Section(section),
                    addend: val as i64,
                    kind: RelocKind::Absolute,
                },
            ),
            match write_udata_at_spec(old(self).bytes@, offset, 0, size, old(self).endian) {
                Ok(b) => r == Ok::<(), WriteError>(()) && final(self).bytes@ == b,
                Err(err) => r == Err::<(), WriteError>(err) && final(self).bytes@ == old(self).bytes@,
            },
    {
        self.relocs.push(
            Reloc {
                offset,
                size,
                target: RelocTarget::Section(section),
                addend: val as i64,
                kind: RelocKind::Absolute,
            },
        );
        self.write_udata_at(offset, 0, size)
    }

    /// The value to write for the constant address `val` in pointer encoding
    /// `eh_pe`, as gimli's writer computes it: absolute as it is, pc-relative
    /// as `val` minus the current end; any other application is unsupported.
    /// The caller writes it in the encoding's format.
    pub fn eh_pointer_constant(&self, val: u64, eh_pe: u8) -> (r: Result<u64, WriteError>)
        ensures
            r == (if eh_pe_application(eh_pe) == DW_EH_PE_ABSPTR {
                Ok::<u64, WriteError>(val)
            } else if eh_pe_application(eh_pe) == DW_EH_PE_PCREL {
                Ok::<u64, WriteError>(
                    ((val as int - self.bytes@.len()) % 0x1_0000_0000_0000_0000) as u64,
                )
            } else {
                Err::<u64, WriteError>(WriteError::UnsupportedPointerEncoding(eh_pe))
            }),
    {
        let application = eh_pe & 0x70;
        if application == DW_EH_PE_ABSPTR {
            Ok(val)
        } else if application == DW_EH_PE_PCREL {
            let offset = self.bytes.len() as u64;
            Ok(val.wrapping_sub(offset))
        } else {
            Err(WriteError::UnsupportedPointerEncoding(eh_pe))
        }
    }

    /// Writes a zero placeholder for `symbol + addend` in pointer encoding
    /// `eh_pe`: absolute encodings record an absolute relocation of `size`
    /// bytes and write as many; pc-relative ones record a relative relocation
    /// of 4 or 8 bytes as the format says; anything else is unsupported.
    pub fn write_eh_pointer_symbol(&mut self, symbol: usize, addend: i64, eh_pe: u8, size: u8) -> (r:
        Result<(), WriteError>)
        ensures
            final(self).endian == old(self).endian,
            ({
                let app = eh_pe_application(eh_pe);
                let fmt = eh_pe_format(eh_pe);
                let at = old(self).bytes@.len() as usize;
                if app == DW_EH_PE_ABSPTR {
                    &&& final(self).relocs@ == old(self).relocs@.push(
                        Reloc {
                            offset: at,
                            size,
                            target: RelocTarget::Symbol(symbol),
                            addend,
                            kind: RelocKind::Absolute,
                        },
                    )
                    &&& match udata_bytes(0, size, old(self).endian) {
                        Ok(b) => r == Ok::<(), WriteError>(()) && final(self).bytes@ == old(self).bytes@ + b,
                        Err(err) => r == Err::<(), WriteError>(err) && final(self).bytes@ == old(self).bytes@,
                    }
                } else if app == DW_EH_PE_PCREL && (fmt == DW_EH_PE_SDATA4 || fmt == DW_EH_PE_SDATA8) {
                    let n: u8 = if fmt == DW_EH_PE_SDATA4 { 4 } else { 8 };
                    &&& final(self).relocs@ == old(self).relocs@.push(
                        Reloc {
                            offset: at,
                            size: n,
                            target: RelocTarget::Symbol(symbol),
                            addend,
                            kind: RelocKind::Relative,
                        },
                    )
                    &&& r == Ok::<(), WriteError>(())
                    &&& final(self).bytes@ == old(self).bytes@ + uint_bytes(0, n as nat, old(self).endian)
                } else {
                    &&& r == Err::<(), WriteError>(WriteError::UnsupportedPointerEncoding(eh_pe))
                    &&& final(self).bytes@ == old(self).bytes@
                    &&& final(self).relocs@ == old(self).relocs@
                }
            }),
    {
        let application = eh_pe & 0x70;
        let format = eh_pe & 0x0f;
        let offset = self.bytes.len();
        if application == DW_EH_PE_ABSPTR {
            self.relocs.push(
                Reloc {
                    offset,
                    size,
                    target: RelocTarget::Symbol(symbol),
                    addend,
                    kind: RelocKind::Absolute,
                },
            );
            self.write_udata(0, size)
        } else if application == DW_EH_PE_PCREL {
            let n: u8 = if format == DW_EH_PE_SDATA4 {
                4
            } else if format == DW_EH_PE_SDATA8 {
                8
            } else {
                return Err(WriteError::UnsupportedPointerEncoding(eh_pe));
            };
            self.relocs.push(
                Reloc {
                    offset,
                    size: n,
                    target: RelocTarget::Symbol(symbol),
                    addend,
                    kind: RelocKind::Relative,
                },
            );
            proof {
                lemma_pow256_values();
            }
            self.write_udata(0, n)
        } else {
            Err(WriteError::UnsupportedPointerEncoding(eh_pe))
        }
    }

    /// Whether every recorded relocation is an absolute symbol relocation,
    /// as `relocate_for_jit` requires.
    pub fn all_patchable(&self) -> (r: bool)
        ensures
            r == patchable(self.relocs@),
    {
        let mut i: usize = 0;
        while i < self.relocs.len()
            invariant
                i <= self.relocs@.len(),
                forall|j: int|
                    0 <= j < i ==> (#[trigger] self.relocs@[j]).kind == RelocKind::Absolute
                        && self.relocs@[j].target is Symbol,
            decreases self.relocs@.len() - i,
        {
            let r = self.relocs[i];
            if r.kind != RelocKind::Absolute {
                return false;
            }
            match r.target {
                RelocTarget::Section(_) => {
                    return false;
                },
                RelocTarget::Symbol(_) => {},
            }
            i = i + 1;
        }
        true
    }

    /// Patches every recorded relocation with `addrs`, the final address
    /// resolved for each relocation's symbol, in order, and hands back the
    /// bytes; fails at the first value that does not fit its placeholder.
    pub fn relocate_for_jit(self, addrs: &Vec<u64>) -> (r: Result<Vec<u8>, RelocError>)
        requires
            patchable(self.relocs@),
            addrs@.len() == self.relocs@.len(),
        ensures
            match (r, relocate_spec(self.bytes@, self.relocs@, addrs@, self.endian)) {
                (Ok(v), Ok(s)) => v@ == s,
                (Err(a), Err(b)) => a == b,
                _ => false,
            },
    {
        relocate(self.bytes, &self.relocs, addrs, self.endian)
    }
}

fn relocate(bytes: Vec<u8>, relocs: &Vec<Reloc>, addrs: &Vec<u64>, endian: Endian) -> (r: Result<Vec<u8>, RelocError>)
    requires
        addrs@.len() == relocs@.len(),
    ensures
        match (r, relocate_spec(bytes@, relocs@, addrs@, endian)) {
            (Ok(v), Ok(s)) => v@ == s,
            (Err(a), Err(b)) => a == b,
            _ => false,
        },
{
    let ghost start = bytes@;
    let mut out = RelocWriter { relocs: Vec::new(), bytes, endian };
    let mut i: usize = 0;
    while i < relocs.len()
        invariant
            i <= relocs@.len(),
            addrs@.len() == relocs@.len(),
            out.endian == endian,
            start == bytes@,
            relocate_prefix(start, relocs@, addrs@, i as int, endian) == Ok::<Seq<u8>, RelocError>(out.bytes@),
        decreases relocs@.len() - i,
    {
        let reloc = relocs[i];
        let val = addrs[i].wrapping_add(#[verifier::truncate] (reloc.addend as u64));
        assert(val == reloc_value(reloc, addrs@[i as int]));
        match out.write_udata_at(reloc.offset, val, reloc.size) {
            Ok(()) => {},
            Err(error) => {
                proof {
                    lemma_relocate_error_stays(start, relocs@, addrs@, i + 1, relocs@.len() as int, endian);
                }
                return Err(RelocError { index: i, error });
            },
        }
        i = i + 1;
    }
    Ok(out.bytes)
}

proof fn lemma_relocate_error_stays(
    bytes: Seq<u8>,
    relocs: Seq<Reloc>,
    addrs: Seq<u64>,
    k: int,
    n: int,
    e: Endian,
)
    requires
        k <= n,
        relocate_prefix(bytes, relocs, addrs, k, e) is Err,
    ensures
        relocate_prefix(bytes, relocs, addrs, n, e) == relocate_prefix(bytes, relocs, addrs, k, e),
    decreases n - k,
{
    if k < n {
        lemma_relocate_error_stays(bytes, relocs, addrs, k, n - 1, e);
    }
}

/// The flag that tells data symbols from function symbols.
pub const DATA_SYMBOL_BIT: u32 = 0x8000_0000;

/// The symbol number of function `id`.
pub fn func_symbol(id: u32) -> (r: usize)
    requires
        id < DATA_SYMBOL_BIT,
    ensures
        r == id,
{
    id as usize
}

/// The symbol number of data object `id`: its id with the data bit set.
pub fn data_symbol(id: u32) -> (r: usize)
    requires
        id < DATA_SYMBOL_BIT,
    ensures
        r == id + DATA_SYMBOL_BIT,
{
    (id + DATA_SYMBOL_BIT) as usize
}

/// What a symbol number of a relocation stands for.
#[derive(Clone, Copy, Debug, PartialEq, Eq, Structural)]
pub enum SymbolTarget {
    /// The personality routine's imported declaration.
    Personality,
    Function(u32),
    Data(u32),
    /// Not a number that `func_symbol` or `data_symbol` gives.
    Invalid,
}

/// Tells what `symbol` refers to; `personality` is the symbol of the
/// personality routine's declaration, if one was made.
pub fn classify_symbol(symbol: usize, personality: Option<usize>) -> (r: SymbolTarget)
    ensures
        r == (if personality == Some(symbol) {
            SymbolTarget::Personality
        } else if symbol > u32::MAX {
            SymbolTarget::Invalid
        } else if symbol < DATA_SYMBOL_BIT {
            SymbolTarget::Function(symbol as u32)
        } else {
            SymbolTarget::Data((symbol - DATA_SYMBOL_BIT) as u32)
        }),
{
    match personality {
        Some(p) => {
            if p == symbol {
                return SymbolTarget::Personality;
            }
        },
        None => {},
    }
    if symbol > u32::MAX as usize {
        SymbolTarget::Invalid
    } else if symbol < DATA_SYMBOL_BIT as usize {
        SymbolTarget::Function(symbol as u32)
    } else {
        SymbolTarget::Data((symbol - DATA_SYMBOL_BIT as usize) as u32)
    }
}

} // verus!
