use saturn::access::{AccessError, AccessSelection};
use saturn::decode::{decode_instruction, ParameterItem};
use saturn::device::{get_binary_finished_pcs, Binary, RawRegion, RegionFlags};
use saturn::disassemble::{reg, Disassembler};
use saturn::elf::{get_elf_finished_pcs, BinaryType, Elf, ElfError, Endian, InstructionSet, ProgramHeader, ProgramHeaderFlags, ProgramHeaderType};
use saturn::error::Error;
use saturn::hex_format::{encode_hex, encode_hex_with_encoding, read_with_encoding, HexEncoding};
use saturn::regions::{
    assemble_regions, base64_checked, encode_region_data, export_continuous, export_regions, region_name,
    AssembleRegionsKind, AssembleRegionsOptions, AssembledRegions,
};
use saturn::shortcuts::{get_emulated_shortcuts, Accelerator, MenuOptions, MenuOptionsData};
use saturn::text::{binary, hexadecimal, signed_decimal, text_of_bytes, unsigned_decimal};

fn txt_r(s: u32, t: u32, d: u32, sham: u32, funct: u32) -> u32 {
    (s << 21) | (t << 16) | (d << 11) | (sham << 6) | funct
}

fn txt_i(opcode: u32, s: u32, t: u32, imm: u32) -> u32 {
    (opcode << 26) | (s << 21) | (t << 16) | (imm & 0xFFFF)
}

fn txt_shown(word: u32) -> String {
    Disassembler::disassemble(word).unwrap()
}

#[test]
fn numerals_have_no_leading_zeros() {
    assert_eq!(signed_decimal(0), "0");
    assert_eq!(signed_decimal(10), "10");
    assert_eq!(signed_decimal(0xFFFF_FFFF), "-1");
    assert_eq!(signed_decimal(0x8000_0001), "-2147483647");
    assert_eq!(unsigned_decimal(0xFFFF_FFFF), "4294967295");
    assert_eq!(unsigned_decimal(1000), "1000");
    assert_eq!(hexadecimal(0xDEAD_BEEF), "deadbeef");
    assert_eq!(hexadecimal(0x10), "10");
    assert_eq!(binary(5), "101");
    assert_eq!(binary(0x8000_0000), "10000000000000000000000000000000");
}

#[test]
fn bytes_show_as_the_characters_with_their_codes() {
    assert_eq!(text_of_bytes(&vec![b'a', 0xE9, 0xFF, b'!']), "a\u{e9}\u{ff}!");
    assert_eq!(text_of_bytes(&vec![]), "");
}

#[test]
fn error_messages_show_addresses_in_eight_digits() {
    assert_eq!(Error::MemoryAlign(0x12).message(), "Memory access at 0x00000012 is not aligned.");
    assert_eq!(Error::MemoryUnmapped(0xFFFF_0000).message(), "Memory at 0xffff0000 is not mapped.");
    assert_eq!(Error::CpuInvalid(0).message(), "Instruction 0x00000000 is reserved.");
    assert_eq!(Error::CpuTrap.message(), "The processor trapped on an arithmetic overflow.");
    assert_eq!(Error::CpuSyscall.message(), "The processor asked for a system call.");
}

#[test]
fn registers_have_their_names() {
    assert_eq!(reg(0), "$zero");
    assert_eq!(reg(1), "$at");
    assert_eq!(reg(2), "$v0");
    assert_eq!(reg(4), "$a0");
    assert_eq!(reg(8), "$t0");
    assert_eq!(reg(16), "$s0");
    assert_eq!(reg(24), "$t8");
    assert_eq!(reg(26), "$k0");
    assert_eq!(reg(28), "$gp");
    assert_eq!(reg(29), "$sp");
    assert_eq!(reg(30), "$fp");
    assert_eq!(reg(31), "$ra");
    assert_eq!(reg(32), "unk");
}

#[test]
fn disassembly_shows_mnemonic_and_operands() {
    assert_eq!(txt_shown(txt_r(9, 10, 8, 0, 32)), "add $t0, $t1, $t2");
    assert_eq!(txt_shown(txt_r(0, 9, 8, 4, 0)), "sll $t0, $t1, 4");
    assert_eq!(txt_shown(0), "sll $zero, $zero, 0");
    assert_eq!(txt_shown(txt_r(9, 10, 8, 0, 4)), "sllv $t0, $t1, $t2");
    assert_eq!(txt_shown(txt_r(31, 0, 0, 0, 8)), "jr $ra");
    assert_eq!(txt_shown(txt_r(9, 10, 0, 0, 26)), "div $t1, $t2");
    assert_eq!(txt_shown(txt_r(0, 0, 8, 0, 16)), "mfhi $t0");
    assert_eq!(txt_shown(12), "syscall");
    assert_eq!(txt_shown(txt_i(8, 9, 8, 0xFFFF)), "addi $t0, $t1, -1");
    assert_eq!(txt_shown(txt_i(9, 0, 2, 10)), "addiu $v0, $zero, 10");
    assert_eq!(txt_shown(txt_i(12, 9, 8, 0xFF00)), "andi $t0, $t1, ff00");
    assert_eq!(txt_shown(txt_i(11, 9, 8, 0xFFFF)), "sltiu $t0, $t1, 65535");
    assert_eq!(txt_shown(txt_i(15, 0, 8, 0x1001)), "lhi $t0, 1001");
    assert_eq!(txt_shown(txt_i(24, 0, 8, 0xFFFF)), "llo $t0, ffff");
    assert_eq!(txt_shown(txt_i(4, 8, 9, 0x8000)), "beq $t0, $t1, -32768");
    assert_eq!(txt_shown(txt_i(1, 8, 1, 3)), "bgez $t0, 3");
    assert_eq!(txt_shown(txt_i(35, 29, 8, 0xFFFC)), "lw $t0, -4($sp)");
    assert_eq!(txt_shown(txt_i(40, 16, 9, 12)), "sb $t1, 12($s0)");
    assert_eq!(txt_shown((2 << 26) | 0x0010_0000), "j 1048576");
    assert_eq!(txt_shown((3 << 26) | 1), "jal 1");
    assert_eq!(txt_shown(txt_i(26, 0, 0, 0)), "trap");
    assert_eq!(Disassembler::disassemble(0xFC00_0000), None);
}

#[test]
fn decoded_instruction_lists_its_operands() {
    let details = decode_instruction(0x0040_0000, txt_r(9, 10, 8, 0, 32)).unwrap();
    assert_eq!(details.pc, 0x0040_0000);
    assert_eq!(details.instruction, txt_r(9, 10, 8, 0, 32));
    assert_eq!(details.name, "add");
    assert_eq!(
        details.parameters,
        vec![ParameterItem::Register(8), ParameterItem::Register(9), ParameterItem::Register(10)]
    );
    let details = decode_instruction(0x0040_0000, txt_i(35, 29, 8, 0xFFFC)).unwrap();
    assert_eq!(details.name, "lw");
    assert_eq!(
        details.parameters,
        vec![ParameterItem::Register(8), ParameterItem::Offset { offset: 0xFFFC, register: 29 }]
    );
    let details = decode_instruction(0x0040_0010, txt_i(5, 8, 9, 0xFFFE)).unwrap();
    assert_eq!(details.name, "bne");
    assert_eq!(
        details.parameters,
        vec![ParameterItem::Register(8), ParameterItem::Register(9), ParameterItem::Address(0x0040_000C)]
    );
    let details = decode_instruction(0x1040_0010, (3 << 26) | 0x0010_0004).unwrap();
    assert_eq!(details.name, "jal");
    assert_eq!(details.parameters, vec![ParameterItem::Address(0x1040_0010)]);
    let details = decode_instruction(0, txt_r(0, 9, 8, 31, 3)).unwrap();
    assert_eq!(details.name, "sra");
    assert_eq!(
        details.parameters,
        vec![ParameterItem::Register(8), ParameterItem::Register(9), ParameterItem::Immediate(31)]
    );
    let details = decode_instruction(0, txt_i(13, 9, 8, 0xBEEF)).unwrap();
    assert_eq!(
        details.parameters,
        vec![ParameterItem::Register(8), ParameterItem::Register(9), ParameterItem::Immediate(0xBEEF)]
    );
    let details = decode_instruction(0, 12).unwrap();
    assert_eq!(details.name, "syscall");
    assert!(details.parameters.is_empty());
    assert!(decode_instruction(0, 0xFC00_0000).is_none());
}

#[test]
fn accelerator_combo_lists_the_held_keys() {
    assert_eq!(Accelerator::command("N").combo(), "CmdOrCtrl+N");
    let shifted = Accelerator { command: true, shift: true, key: "S".to_string() };
    assert_eq!(shifted.combo(), "CmdOrCtrl+Shift+S");
    let plain = Accelerator { command: false, shift: false, key: "F5".to_string() };
    assert_eq!(plain.combo(), "F5");
    let shift_only = Accelerator { command: false, shift: true, key: "x".to_string() };
    assert_eq!(shift_only.combo(), "Shift+x");
}

#[test]
fn menu_options_have_labels_events_and_shortcuts() {
    assert_eq!(MenuOptions::NewTab.label(), "New Tab");
    assert_eq!(MenuOptions::Disassemble.label(), "Disassemble Elf");
    assert_eq!(MenuOptions::ExportHex.label(), "Export Regions");
    assert_eq!(MenuOptions::ToggleSettings.label(), "Toggle Settings");
    assert_eq!(MenuOptions::SaveAs.event(), "save-as");
    assert_eq!(MenuOptions::ToggleConsole.event(), "toggle-console");
    assert_eq!(MenuOptions::SaveAs.accelerator().unwrap().combo(), "CmdOrCtrl+Shift+S");
    assert_eq!(MenuOptions::Run.accelerator().unwrap().combo(), "CmdOrCtrl+K");
    assert_eq!(MenuOptions::ToggleSettings.accelerator().unwrap().combo(), "CmdOrCtrl+,");
    assert!(MenuOptions::Disassemble.accelerator().is_none());
    assert!(MenuOptions::Assemble.accelerator().is_none());
    assert!(MenuOptions::Export.accelerator().is_none());
    assert!(MenuOptions::ExportHex.accelerator().is_none());
    assert!(MenuOptionsData::from_option(MenuOptions::Export).is_none());
    let data = MenuOptionsData::from_option(MenuOptions::Stop).unwrap();
    assert_eq!(data.event, "stop");
    assert_eq!(data.accelerator.combo(), "CmdOrCtrl+P");
}

#[test]
fn menu_options_are_found_by_the_name_of_their_event() {
    assert_eq!(MenuOptions::from_name("new-tab"), Some(MenuOptions::NewTab));
    assert_eq!(MenuOptions::from_name("export-hex"), Some(MenuOptions::ExportHex));
    assert_eq!(MenuOptions::from_name("toggle-settings"), Some(MenuOptions::ToggleSettings));
    assert_eq!(MenuOptions::from_name("save"), Some(MenuOptions::Save));
    assert_eq!(MenuOptions::from_name("save-as"), Some(MenuOptions::SaveAs));
    assert_eq!(MenuOptions::from_name("Save"), None);
    assert_eq!(MenuOptions::from_name(""), None);
    assert_eq!(MenuOptions::from_name(MenuOptions::Pause.event()), Some(MenuOptions::Pause));
}

#[test]
fn the_editor_offers_no_tests() {
    assert!(saturn::testing::all_tests().is_empty());
    assert!(saturn::testing::run_tests("fib.asm").is_empty());
}

#[test]
fn emulated_shortcuts_are_the_entries_with_a_key() {
    let shortcuts = get_emulated_shortcuts();
    let events: Vec<&str> = shortcuts.iter().map(|data| data.event.as_str()).collect();
    assert_eq!(
        events,
        vec![
            "new-tab", "open-file", "close-tab", "save", "save-as", "find", "build", "run", "step", "pause",
            "stop", "toggle-console", "toggle-settings"
        ]
    );
    assert_eq!(shortcuts[4].accelerator.combo(), "CmdOrCtrl+Shift+S");
    assert_eq!(shortcuts[6].accelerator.combo(), "CmdOrCtrl+B");
}

#[test]
fn hex_text_has_sixteen_words_to_a_line() {
    assert_eq!(encode_hex(&[]), "v3.0 hex words plain\n");
    assert_eq!(encode_hex(&[0]), "v3.0 hex words plain\n00");
    assert_eq!(
        encode_hex(&[0xFF, 0x100, 0xFFFF, 0x1_0000, 0xFFFF_FFFF, 0x1_0000_0000]),
        "v3.0 hex words plain\nff 0100 ffff 00010000 ffffffff 0000000100000000"
    );
    let words: Vec<u64> = (0..33).collect();
    assert_eq!(
        encode_hex(&words),
        "v3.0 hex words plain\n00 01 02 03 04 05 06 07 08 09 0a 0b 0c 0d 0e 0f\n10 11 12 13 14 15 16 17 18 19 1a 1b 1c 1d 1e 1f\n20"
    );
}

#[test]
fn hex_text_puts_bytes_into_words_as_the_encoding_says() {
    let data = [0x01, 0x02, 0x03, 0x04, 0xAA, 0xBB, 0xCC, 0xDD];
    assert_eq!(encode_hex_with_encoding(&data, HexEncoding::Byte), "v3.0 hex words plain\n01 02 03 04 aa bb cc dd");
    assert_eq!(encode_hex_with_encoding(&data, HexEncoding::Little32), "v3.0 hex words plain\n04030201 ddccbbaa");
    assert_eq!(encode_hex_with_encoding(&data, HexEncoding::Big32), "v3.0 hex words plain\n01020304 aabbccdd");
    assert_eq!(encode_hex_with_encoding(&[0, 0, 0, 0], HexEncoding::Little32), "v3.0 hex words plain\n00");
    assert_eq!(encode_hex_with_encoding(&[7, 9, 11], HexEncoding::Byte), "v3.0 hex words plain\n07 09 0b");
    assert_eq!(read_with_encoding(&data, false), vec![0x0403_0201, 0xDDCC_BBAA]);
    assert_eq!(read_with_encoding(&data, true), vec![0x0102_0304, 0xAABB_CCDD]);
    assert_eq!(read_with_encoding(&[], true), Vec::<u64>::new());
}

fn txt_binary() -> Binary {
    Binary {
        entry: 4,
        regions: vec![
            RawRegion {
                address: 4,
                data: vec![1, 2, 3, 4],
                flags: RegionFlags { readable: true, writable: false, executable: true },
            },
            RawRegion {
                address: 0x20,
                data: vec![],
                flags: RegionFlags { readable: true, writable: true, executable: false },
            },
            RawRegion {
                address: 10,
                data: vec![9, 9],
                flags: RegionFlags { readable: true, writable: true, executable: false },
            },
            RawRegion {
                address: 6,
                data: vec![7],
                flags: RegionFlags { readable: false, writable: false, executable: true },
            },
        ],
    }
}

#[test]
fn base64_text_is_the_standard_one() {
    assert_eq!(base64_checked(b"").unwrap(), "");
    assert_eq!(base64_checked(b"f").unwrap(), "Zg==");
    assert_eq!(base64_checked(b"fo").unwrap(), "Zm8=");
    assert_eq!(base64_checked(b"foobar").unwrap(), "Zm9vYmFy");
    assert_eq!(base64_checked(&[0xFB, 0xFF]).unwrap(), "+/8=");
}

#[test]
fn region_data_goes_out_plain_or_as_hex_text() {
    let plain = AssembleRegionsOptions { kind: AssembleRegionsKind::Plain, continuous: false, encoding: HexEncoding::Byte };
    assert_eq!(encode_region_data(&[1, 2, 3], &plain).unwrap(), "AQID");
    let hex = AssembleRegionsOptions { kind: AssembleRegionsKind::HexV3, continuous: false, encoding: HexEncoding::Byte };
    assert_eq!(
        encode_region_data(&[1, 2, 3], &hex).unwrap(),
        base64_checked(b"v3.0 hex words plain\n01 02 03").unwrap()
    );
    assert_eq!(encode_region_data(&[1, 2, 3], &hex).unwrap(), "djMuMCBoZXggd29yZHMgcGxhaW4KMDEgMDIgMDM=");
    let words = AssembleRegionsOptions { kind: AssembleRegionsKind::HexV3, continuous: false, encoding: HexEncoding::Big32 };
    assert_eq!(encode_region_data(&[1, 2, 3], &words), None);
    assert_eq!(
        encode_region_data(&[1, 2, 3, 4], &words).unwrap(),
        base64_checked(b"v3.0 hex words plain\n01020304").unwrap()
    );
}

#[test]
fn regions_are_named_by_kind_address_and_flags() {
    let binary = txt_binary();
    assert_eq!(region_name(&binary.regions[0], true), "entry_4_xro");
    assert_eq!(region_name(&binary.regions[0], false), "code_4_xro");
    assert_eq!(region_name(&binary.regions[1], false), "data_20_orw");
    assert_eq!(region_name(&binary.regions[3], false), "code_6_xoo");
}

#[test]
fn continuous_export_lays_regions_at_their_addresses() {
    let binary = txt_binary();
    let plain = AssembleRegionsOptions { kind: AssembleRegionsKind::Plain, continuous: true, encoding: HexEncoding::Byte };
    let expected = base64_checked(&[0, 0, 0, 0, 1, 2, 7, 4, 0, 0, 9, 9]).unwrap();
    assert_eq!(export_continuous(&binary, &plain).unwrap(), expected);
    assert!(matches!(assemble_regions(&binary, plain), Some(AssembledRegions::Binary(text)) if text == expected));
}

#[test]
fn split_export_names_each_region_with_bytes() {
    let binary = txt_binary();
    let plain = AssembleRegionsOptions { kind: AssembleRegionsKind::Plain, continuous: false, encoding: HexEncoding::Byte };
    let regions = export_regions(&binary, &plain).unwrap();
    assert_eq!(regions.len(), 3);
    assert_eq!(regions[0].name, "entry_4_xro");
    assert_eq!(regions[0].data, "AQIDBA==");
    assert_eq!(regions[1].name, "data_a_orw");
    assert_eq!(regions[1].data, "CQk=");
    assert_eq!(regions[2].name, "code_6_xoo");
    assert_eq!(regions[2].data, "Bw==");
    assert!(matches!(assemble_regions(&binary, plain), Some(AssembledRegions::Split(list)) if list.len() == 3));
    let words = AssembleRegionsOptions { kind: AssembleRegionsKind::HexV3, continuous: false, encoding: HexEncoding::Little32 };
    assert!(export_regions(&binary, &words).is_none());
}

#[test]
fn finished_pcs_lie_behind_executable_regions() {
    assert_eq!(get_binary_finished_pcs(&txt_binary()), vec![8, 7]);
    let binary = Binary {
        entry: 0,
        regions: vec![RawRegion {
            address: 0xFFFF_FFFC,
            data: vec![0; 4],
            flags: RegionFlags { readable: true, writable: false, executable: true },
        }],
    };
    assert_eq!(get_binary_finished_pcs(&binary), vec![0]);
}

fn txt_elf() -> Vec<u8> {
    let mut bytes = Vec::new();
    bytes.extend_from_slice(&0x464c457fu32.to_le_bytes());
    bytes.extend_from_slice(&[1, 1, 1, 0]);
    bytes.extend_from_slice(&[0, 1, 2, 3, 4, 5, 6, 7]);
    bytes.extend_from_slice(&2u16.to_le_bytes());
    bytes.extend_from_slice(&8u16.to_le_bytes());
    bytes.extend_from_slice(&1u32.to_le_bytes());
    bytes.extend_from_slice(&0x0040_0000u32.to_le_bytes());
    bytes.extend_from_slice(&52u32.to_le_bytes());
    bytes.extend_from_slice(&0u32.to_le_bytes());
    bytes.extend_from_slice(&0x1234u32.to_le_bytes());
    bytes.extend_from_slice(&52u16.to_le_bytes());
    bytes.extend_from_slice(&32u16.to_le_bytes());
    bytes.extend_from_slice(&3u16.to_le_bytes());
    bytes.extend_from_slice(&40u16.to_le_bytes());
    bytes.extend_from_slice(&0u16.to_le_bytes());
    bytes.extend_from_slice(&0u16.to_le_bytes());
    assert_eq!(bytes.len(), 52);
    let entries: [[u32; 8]; 3] = [
        [1, 148, 0x0040_0000, 0, 8, 8, 5, 4],
        [5, 148, 0x0050_0000, 0, 4, 4, 7, 4],
        [1, 156, 0x1001_0000, 0, 3, 16, 0xFFFF_FFF6, 4],
    ];
    for entry in entries {
        for field in entry {
            bytes.extend_from_slice(&field.to_le_bytes());
        }
    }
    assert_eq!(bytes.len(), 148);
    bytes.extend_from_slice(&[10, 11, 12, 13, 14, 15, 16, 17, 20, 21, 22]);
    bytes
}

#[test]
fn elf_file_gives_its_header_and_readable_entries() {
    let elf = Elf::read(&txt_elf()).unwrap();
    assert_eq!(elf.header.magic, 0x464c457f);
    assert_eq!(elf.header.binary_type, BinaryType::Binary32);
    assert_eq!(elf.header.endian, Endian::Little);
    assert_eq!(elf.header.header_version, 1);
    assert_eq!(elf.header.abi, 0);
    assert_eq!(elf.header.padding, [0, 1, 2, 3, 4, 5, 6, 7]);
    assert_eq!(elf.header.package, 2);
    assert_eq!(elf.header.cpu, InstructionSet::Mips);
    assert_eq!(elf.header.elf_version, 1);
    assert_eq!(elf.header.program_entry, 0x0040_0000);
    assert_eq!(elf.program_headers.len(), 2);
    let first: &ProgramHeader = &elf.program_headers[0];
    assert_eq!(first.header_type, ProgramHeaderType::Load);
    assert_eq!(first.virtual_address, 0x0040_0000);
    assert_eq!(first.memory_size, 8);
    assert_eq!(first.flags, ProgramHeaderFlags { bits: 5 });
    assert!(first.flags.executable());
    assert!(first.flags.readable());
    assert!(!first.flags.writable());
    assert_eq!(first.alignment, 4);
    assert_eq!(first.data, vec![10, 11, 12, 13, 14, 15, 16, 17]);
    let second = &elf.program_headers[1];
    assert_eq!(second.virtual_address, 0x1001_0000);
    assert_eq!(second.memory_size, 16);
    assert_eq!(second.flags, ProgramHeaderFlags { bits: 6 });
    assert_eq!(second.data, vec![20, 21, 22]);
    assert_eq!(get_elf_finished_pcs(&elf), vec![0x0040_0008]);
    assert_eq!(ProgramHeaderFlags::known_mask(), 7);
}

#[test]
fn elf_header_faults_come_in_the_order_of_the_file() {
    let good = txt_elf();
    assert_eq!(Elf::read(&good[..3]).err(), Some(ElfError::UnexpectedEnd));
    assert_eq!(Elf::read(&good[..4]).err(), Some(ElfError::UnexpectedEnd));
    let mut bad = good.clone();
    bad[4] = 3;
    bad[0] = 0;
    assert_eq!(Elf::read(&bad).err(), Some(ElfError::InvalidBinaryType));
    let mut bad = good.clone();
    bad[5] = 0;
    assert_eq!(Elf::read(&bad).err(), Some(ElfError::InvalidEndian));
    assert_eq!(Elf::read(&bad[..5]).err(), Some(ElfError::UnexpectedEnd));
    let mut bad = good.clone();
    bad[18] = 9;
    assert_eq!(Elf::read(&bad).err(), Some(ElfError::InvalidInstructionSet));
    assert_eq!(Elf::read(&good[..19]).err(), Some(ElfError::UnexpectedEnd));
    let mut bad = good.clone();
    bad[0] = 0x7E;
    assert_eq!(Elf::read(&bad).err(), Some(ElfError::InvalidMagic(0x464c457e)));
    assert_eq!(Elf::read(&bad[..27]).err(), Some(ElfError::UnexpectedEnd));
    let mut bad = good.clone();
    bad[4] = 2;
    assert_eq!(Elf::read(&bad).err(), Some(ElfError::NotBinary32));
    assert_eq!(Elf::read(&good[..51]).err(), Some(ElfError::UnexpectedEnd));
    assert_eq!(Elf::read(&good[..52]).unwrap().program_headers.len(), 0);
    assert_eq!(Elf::read(&good[..147]).unwrap().program_headers.len(), 0);
    assert_eq!(Elf::read(&good[..156]).unwrap().program_headers.len(), 1);
}

#[test]
fn elf_errors_have_messages() {
    assert_eq!(ElfError::InvalidMagic(0x1234).message(), "ELF Magic is invalid, found 0x00001234 but expected 0x464c457f.");
    assert_eq!(ElfError::InvalidHeaderType(5).message(), "Invalid header type 5.");
    assert_eq!(ElfError::InvalidBinaryType.message(), "Invalid binary type.");
    assert_eq!(ElfError::InvalidEndian.message(), "Invalid endian value.");
    assert_eq!(ElfError::InvalidInstructionSet.message(), "Invalid version type.");
    assert_eq!(ElfError::NotBinary32.message(), "32 Binary ELF is required, instead found 2");
    assert_eq!(ProgramHeader::read(&txt_elf(), 84).err(), Some(ElfError::InvalidHeaderType(5)));
    assert_eq!(ProgramHeader::read(&txt_elf(), 156).err(), Some(ElfError::UnexpectedEnd));
    assert_eq!(ProgramHeader::read(&txt_elf(), 140).err(), Some(ElfError::InvalidHeaderType(0xFFFF_FFF6)));
}

#[test]
fn access_selection_decides_by_extension() {
    let list = vec!["elf".to_string(), "bin".to_string()];
    assert!(!AccessSelection::AllText.is_binary(&Some("elf")));
    assert!(AccessSelection::AllBinary.is_binary(&None));
    assert!(AccessSelection::Binary(list.clone()).is_binary(&Some("bin")));
    assert!(!AccessSelection::Binary(list.clone()).is_binary(&Some("asm")));
    assert!(!AccessSelection::Binary(list.clone()).is_binary(&None));
    assert!(!AccessSelection::Text(list.clone()).is_binary(&Some("elf")));
    assert!(AccessSelection::Text(list.clone()).is_binary(&Some("asm")));
    assert!(!AccessSelection::Text(list).is_binary(&None));
    assert!(!AccessSelection::Binary(vec![]).is_binary(&Some("")));
}

#[test]
fn access_errors_name_the_path() {
    assert_eq!(AccessError::NotFound("/a/b.asm".to_string()).message(), "Could not find file at /a/b.asm.");
    assert_eq!(AccessError::AccessDenied("c".to_string()).message(), "Access to file c is denied.");
}
