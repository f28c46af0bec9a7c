use jit_unwind::bytes::Endian;
use jit_unwind::eh_frame::{fde_offsets, finish_eh_frame, EhFrameUnwinder, LsdaFormat, PERSONALITY_NAME};
use jit_unwind::writer::{
    classify_symbol, data_symbol, func_symbol, Address, Reloc, RelocError, RelocKind, RelocTarget,
    RelocWriter, SymbolTarget, WriteError,
};

#[test]
fn udata_sizes() {
    let mut w = RelocWriter::new(Endian::Little);
    w.write_udata(0xab, 1).unwrap();
    w.write_udata(0x1234, 2).unwrap();
    w.write_udata(0x56_789a, 3).unwrap();
    w.write_udata(0xdead_beef, 4).unwrap();
    w.write_udata(1, 8).unwrap();
    assert_eq!(
        w.bytes,
        vec![0xab, 0x34, 0x12, 0x9a, 0x78, 0x56, 0xef, 0xbe, 0xad, 0xde, 1, 0, 0, 0, 0, 0, 0, 0]
    );
    assert_eq!(w.len(), 18);
}

#[test]
fn udata_big_endian() {
    let mut w = RelocWriter::new(Endian::Big);
    w.write_udata(0x56_789a, 3).unwrap();
    assert_eq!(w.bytes, vec![0x56, 0x78, 0x9a]);
}

#[test]
fn udata_errors() {
    let mut w = RelocWriter::new(Endian::Little);
    assert_eq!(w.write_udata(0x100, 1), Err(WriteError::ValueTooLarge));
    assert_eq!(w.write_udata(1, 5), Err(WriteError::UnsupportedWordSize(5)));
    assert!(w.bytes.is_empty());
}

#[test]
fn write_at_bounds() {
    let mut w = RelocWriter::new(Endian::Little);
    w.write(&[1, 2, 3, 4]);
    assert_eq!(w.write_at(1, &[9, 9]), Ok(()));
    assert_eq!(w.bytes, vec![1, 9, 9, 4]);
    assert_eq!(w.write_at(5, &[0]), Err(WriteError::OffsetOutOfBounds));
    assert_eq!(w.write_at(3, &[0, 0]), Err(WriteError::LengthOutOfBounds));
    assert_eq!(w.write_udata_at(0, 0x0102, 2), Ok(()));
    assert_eq!(w.bytes, vec![2, 1, 9, 4]);
}

#[test]
fn symbol_address_leaves_placeholder_and_reloc() {
    let mut w = RelocWriter::new(Endian::Little);
    w.write(&[7]);
    w.write_address(Address::Symbol { symbol: 3, addend: 5 }, 8).unwrap();
    w.write_address(Address::Constant(0x44), 1).unwrap();
    assert_eq!(w.bytes, vec![7, 0, 0, 0, 0, 0, 0, 0, 0, 0x44]);
    assert_eq!(
        w.relocs,
        vec![Reloc { offset: 1, size: 8, target: RelocTarget::Symbol(3), addend: 5, kind: RelocKind::Absolute }]
    );
}

#[test]
fn section_offsets_are_recorded() {
    let mut w = RelocWriter::new(Endian::Little);
    w.write_offset(16, 2, 4).unwrap();
    w.write_offset_at(0, 24, 3, 4).unwrap();
    assert_eq!(w.bytes, vec![0, 0, 0, 0]);
    assert_eq!(
        w.relocs,
        vec![
            Reloc { offset: 0, size: 4, target: RelocTarget::Section(2), addend: 16, kind: RelocKind::Absolute },
            Reloc { offset: 0, size: 4, target: RelocTarget::Section(3), addend: 24, kind: RelocKind::Absolute },
        ]
    );
}

#[test]
fn eh_pointer_symbol_encodings() {
    let mut w = RelocWriter::new(Endian::Little);
    w.write_eh_pointer_symbol(1, 0, 0x00, 8).unwrap();
    w.write_eh_pointer_symbol(2, -4, 0x1b, 8).unwrap();
    assert_eq!(w.bytes.len(), 12);
    assert_eq!(
        w.relocs,
        vec![
            Reloc { offset: 0, size: 8, target: RelocTarget::Symbol(1), addend: 0, kind: RelocKind::Absolute },
            Reloc { offset: 8, size: 4, target: RelocTarget::Symbol(2), addend: -4, kind: RelocKind::Relative },
        ]
    );
    assert_eq!(w.write_eh_pointer_symbol(3, 0, 0x11, 8), Err(WriteError::UnsupportedPointerEncoding(0x11)));
    assert_eq!(w.write_eh_pointer_symbol(3, 0, 0x30, 8), Err(WriteError::UnsupportedPointerEncoding(0x30)));
    assert_eq!(w.relocs.len(), 2);
}

#[test]
fn eh_pointer_constants() {
    let mut w = RelocWriter::new(Endian::Little);
    w.write(&[0; 16]);
    assert_eq!(w.eh_pointer_constant(0x100, 0x03), Ok(0x100));
    assert_eq!(w.eh_pointer_constant(0x100, 0x1b), Ok(0xf0));
    assert_eq!(w.eh_pointer_constant(0x4, 0x10), Ok(0u64.wrapping_sub(12)));
    assert_eq!(w.eh_pointer_constant(0x100, 0x20), Err(WriteError::UnsupportedPointerEncoding(0x20)));
}

#[test]
fn relocation_patches_placeholders() {
    let mut w = RelocWriter::new(Endian::Little);
    w.write(&[0xee]);
    w.write_address(Address::Symbol { symbol: 0, addend: 0x10 }, 8).unwrap();
    w.write_address(Address::Symbol { symbol: 1, addend: -1 }, 4).unwrap();
    let out = w.relocate_for_jit(&vec![0x1122_3344_5566_7700, 0x1000]).unwrap();
    assert_eq!(out, vec![0xee, 0x10, 0x77, 0x66, 0x55, 0x44, 0x33, 0x22, 0x11, 0xff, 0x0f, 0, 0]);
}

#[test]
fn relocation_value_too_large() {
    let mut w = RelocWriter::new(Endian::Little);
    w.write_address(Address::Symbol { symbol: 0, addend: 0 }, 4).unwrap();
    assert!(w.all_patchable());
    assert_eq!(
        w.relocate_for_jit(&vec![0x1_0000_0000]),
        Err(RelocError { index: 0, error: WriteError::ValueTooLarge })
    );
}

#[test]
fn only_absolute_symbol_relocations_are_patchable() {
    let mut w = RelocWriter::new(Endian::Little);
    w.write_offset(0, 1, 4).unwrap();
    assert!(!w.all_patchable());

    let mut w = RelocWriter::new(Endian::Little);
    w.write_eh_pointer_symbol(1, 0, 0x1b, 4).unwrap();
    assert!(!w.all_patchable());

    let mut w = RelocWriter::new(Endian::Little);
    w.write_eh_pointer_symbol(1, 0, 0x00, 4).unwrap();
    assert!(w.all_patchable());
    assert_eq!(w.relocs[0].size, 4);
    assert_eq!(w.relocate_for_jit(&vec![0x0102_0304]).unwrap(), vec![4, 3, 2, 1]);
}

#[test]
fn symbol_numbers() {
    assert_eq!(func_symbol(5), 5);
    assert_eq!(data_symbol(5), 0x8000_0005);
    assert_eq!(classify_symbol(5, None), SymbolTarget::Function(5));
    assert_eq!(classify_symbol(0x8000_0005, None), SymbolTarget::Data(5));
    assert_eq!(classify_symbol(5, Some(5)), SymbolTarget::Personality);
    assert_eq!(classify_symbol(0x1_0000_0000, None), SymbolTarget::Invalid);
}

#[test]
fn finished_table_gets_terminator() {
    assert_eq!(finish_eh_frame(vec![]), None);
    assert_eq!(finish_eh_frame(vec![1, 2]), Some(vec![1, 2, 0, 0, 0, 0]));
}

#[test]
fn fde_offsets_skip_the_cie() {
    // CIE of 4 bytes, FDE of 8 bytes, terminator.
    let table: Vec<u8> = vec![
        4, 0, 0, 0, 1, 1, 1, 1, //
        8, 0, 0, 0, 2, 2, 2, 2, 2, 2, 2, 2, //
        0, 0, 0, 0,
    ];
    assert_eq!(fde_offsets(&table, Endian::Little), vec![8]);
    assert_eq!(fde_offsets(&table[..8], Endian::Little), Vec::<usize>::new());
    assert_eq!(fde_offsets(&[], Endian::Little), Vec::<usize>::new());
}

#[test]
fn fde_offsets_stop_at_overlong_record() {
    let table: Vec<u8> = vec![1, 0, 0, 0, 9, 0xff, 0, 0, 0, 1];
    assert_eq!(fde_offsets(&table, Endian::Little), vec![5]);
}

#[test]
fn fde_offsets_of_several_fdes_end_at_the_terminator() {
    let table: Vec<u8> = vec![
        4, 0, 0, 0, 1, 1, 1, 1, //
        4, 0, 0, 0, 2, 2, 2, 2, //
        4, 0, 0, 0, 3, 3, 3, 3, //
        0, 0, 0, 0, //
        4, 0, 0, 0, 9, 9, 9, 9,
    ];
    assert_eq!(fde_offsets(&table, Endian::Little), vec![8, 16]);
    assert_eq!(fde_offsets(&[0, 0, 0, 0], Endian::Little), Vec::<usize>::new());
}

#[test]
fn strategies_by_constructor() {
    let gcc = EhFrameUnwinder::new_gcc();
    let fast = EhFrameUnwinder::new_fast();
    assert_eq!(gcc.lsda_format(), LsdaFormat::Gcc);
    assert_eq!(fast.lsda_format(), LsdaFormat::Fast);
    assert_eq!(fast.personality_name(), "__jit_eh_personality");
    assert_eq!(PERSONALITY_NAME, "__jit_eh_personality");
}
