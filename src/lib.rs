//! Exception-unwinding support for a small JIT compiler: call-site records,
//! unwind tables in two LSDA formats, a relocating table writer, and a
//! table-free unwinder that keeps its own landing-pad map.

pub mod bytes;
pub mod call_site;
pub mod fast_lsda;
pub mod custom;
pub mod writer;
pub mod gcc_lsda;
pub mod eh_frame;
pub mod frontend;
pub mod equivalence;
