//! Reading 32-bit little-endian ELF files.
//!
//! The header takes the first 52 bytes of the file: 28 bytes of
//! identification and 24 bytes that tell where the tables lie. Each entry of
//! the program table takes 32 bytes and names a run of bytes of the file,
//! which is the data of the entry. An entry that cannot be read is left out.

use vstd::prelude::*;
use vstd::string::StringExecFns;
use crate::memory::{le_u16, le_u32};
use crate::text::{numeral, padded_hex, push_hex_padded, push_numeral};

verus! {

/// The first four bytes of every ELF file, as a little-endian word.
pub const MAGIC: u32 = 0x464c457f;

/// The size of the header in bytes.
pub const HEADER_SIZE: usize = 52;

/// The size of an entry of the program table in bytes.
pub const PROGRAM_ENTRY_SIZE: usize = 32;

/// Whether the file is for 32-bit or 64-bit machines.
#[derive(Clone, Copy, Debug, PartialEq, Eq, Structural)]
pub enum BinaryType {
    /// 32 bits, code 1.
    Binary32,
    /// 64 bits, code 2.
    Binary64,
}

/// The byte order of the file.
#[derive(Clone, Copy, Debug, PartialEq, Eq, Structural)]
pub enum Endian {
    /// The lowest byte first, code 1.
    Little,
    /// The highest byte first, code 2.
    Big,
}

/// The processor that the file is for.
#[derive(Clone, Copy, Debug, PartialEq, Eq, Structural)]
pub enum InstructionSet {
    Generic,
    Sparc,
    X86,
    Mips,
    PowerPC,
    Arm,
    SuperH,
    IA64,
    X64,
    AArch64,
    RiscV,
}

/// The kind of an entry of the program table.
#[derive(Clone, Copy, Debug, PartialEq, Eq, Structural)]
pub enum ProgramHeaderType {
    Null,
    Load,
    Dynamic,
    Interpreter,
    Note,
    ProgramHeader,
}

/// The binary type with this code.
pub open spec fn binary_type_of(code: u8) -> Option<BinaryType> {
    if code == 1 {
        Some(BinaryType::Binary32)
    } else if code == 2 {
        Some(BinaryType::Binary64)
    } else {
        None
    }
}

/// The byte order with this code.
pub open spec fn endian_of(code: u8) -> Option<Endian> {
    if code == 1 {
        Some(Endian::Little)
    } else if code == 2 {
        Some(Endian::Big)
    } else {
        None
    }
}

/// The processor with this code.
pub open spec fn instruction_set_of(code: u16) -> Option<InstructionSet> {
    if code == 0x00 {
        Some(InstructionSet::Generic)
    } else if code == 0x02 {
        Some(InstructionSet::Sparc)
    } else if code == 0x03 {
        Some(InstructionSet::X86)
    } else if code == 0x08 {
        Some(InstructionSet::Mips)
    } else if code == 0x14 {
        Some(InstructionSet::PowerPC)
    } else if code == 0x28 {
        Some(InstructionSet::Arm)
    } else if code == 0x2A {
        Some(InstructionSet::SuperH)
    } else if code == 0x32 {
        Some(InstructionSet::IA64)
    } else if code == 0x3E {
        Some(InstructionSet::X64)
    } else if code == 0xB7 {
        Some(InstructionSet::AArch64)
    } else if code == 0xF3 {
        Some(InstructionSet::RiscV)
    } else {
        None
    }
}

/// The kind of program table entry with this code.
pub open spec fn header_type_of(code: u32) -> Option<ProgramHeaderType> {
    if code == 0 {
        Some(ProgramHeaderType::Null)
    } else if code == 1 {
        Some(ProgramHeaderType::Load)
    } else if code == 2 {
        Some(ProgramHeaderType::Dynamic)
    } else if code == 3 {
        Some(ProgramHeaderType::Interpreter)
    } else if code == 4 {
        Some(ProgramHeaderType::Note)
    } else if code == 6 {
        Some(ProgramHeaderType::ProgramHeader)
    } else {
        None
    }
}

impl BinaryType {
    /// The binary type with this code.
    pub fn from_code(code: u8) -> (kind: Option<BinaryType>)
        ensures
            kind == binary_type_of(code),
    {
        match code {
            1 => Some(BinaryType::Binary32),
            2 => Some(BinaryType::Binary64),
            _ => None,
        }
    }
}

impl Endian {
    /// The byte order with this code.
    pub fn from_code(code: u8) -> (order: Option<Endian>)
        ensures
            order == endian_of(code),
    {
        match code {
            1 => Some(Endian::Little),
            2 => Some(Endian::Big),
            _ => None,
        }
    }
}

impl InstructionSet {
    /// The processor with this code.
    pub fn from_code(code: u16) -> (cpu: Option<InstructionSet>)
        ensures
            cpu == instruction_set_of(code),
    {
        match code {
            0x00 => Some(InstructionSet::Generic),
            0x02 => Some(InstructionSet::Sparc),
            0x03 => Some(InstructionSet::X86),
            0x08 => Some(InstructionSet::Mips),
            0x14 => Some(InstructionSet::PowerPC),
            0x28 => Some(InstructionSet::Arm),
            0x2A => Some(InstructionSet::SuperH),
            0x32 => Some(InstructionSet::IA64),
            0x3E => Some(InstructionSet::X64),
            0xB7 => Some(InstructionSet::AArch64),
            0xF3 => Some(InstructionSet::RiscV),
            _ => None,
        }
    }
}

impl ProgramHeaderType {
    /// The kind of program table entry with this code.
    pub fn from_code(code: u32) -> (kind: Option<ProgramHeaderType>)
        ensures
            kind == header_type_of(code),
    {
        match code {
            0 => Some(ProgramHeaderType::Null),
            1 => Some(ProgramHeaderType::Load),
            2 => Some(ProgramHeaderType::Dynamic),
            3 => Some(ProgramHeaderType::Interpreter),
            4 => Some(ProgramHeaderType::Note),
            6 => Some(ProgramHeaderType::ProgramHeader),
            _ => None,
        }
    }
}

/// What a run of bytes of the program may be used for.
#[derive(Clone, Copy, Debug, PartialEq, Eq, Structural)]
pub struct ProgramHeaderFlags {
    /// Bit 0: executable. Bit 1: writable. Bit 2: readable.
    pub bits: u32,
}

impl ProgramHeaderFlags {
    /// The bits that mean something: executable, writable and readable.
    pub fn known_mask() -> (mask: u32)
        ensures
            mask == 7,
    {
        7
    }

    /// The flags that the flag word of an entry stands for: its three low
    /// bits.
    pub open spec fn of(word: u32) -> ProgramHeaderFlags {
        ProgramHeaderFlags { bits: word % 8 }
    }

    /// The flags that the flag word of an entry stands for.
    pub fn from_word(word: u32) -> (flags: ProgramHeaderFlags)
        ensures
            flags == Self::of(word),
    {
        ProgramHeaderFlags { bits: word % 8 }
    }

    /// Whether the bytes hold code.
    pub fn executable(&self) -> (set: bool)
        ensures
            set == (self.bits % 2 == 1),
    {
        self.bits % 2 == 1
    }

    /// Whether the bytes may be written.
    pub fn writable(&self) -> (set: bool)
        ensures
            set == (self.bits / 2 % 2 == 1),
    {
        self.bits / 2 % 2 == 1
    }

    /// Whether the bytes may be read.
    pub fn readable(&self) -> (set: bool)
        ensures
            set == (self.bits / 4 % 2 == 1),
    {
        self.bits / 4 % 2 == 1
    }
}

/// The identification of an ELF file.
#[derive(Clone, Copy, Debug)]
pub struct Header {
    pub magic: u32,
    pub binary_type: BinaryType,
    pub endian: Endian,
    pub header_version: u8,
    pub abi: u8,
    pub padding: [u8; 8],
    pub package: u16,
    pub cpu: InstructionSet,
    pub elf_version: u32,
    pub program_entry: u32,
}

/// Where the tables of an ELF file lie.
#[derive(Clone, Copy, Debug)]
pub struct HeaderDetails {
    pub program_table_position: u32,
    pub section_table_point: u32,
    pub flags: u32,
    pub header_size: u16,
    pub program_entry_size: u16,
    pub program_entry_count: u16,
    pub section_entry_size: u16,
    pub section_entry_count: u16,
    pub names_point: u16,
}

/// An entry of the program table, with the bytes that it names.
#[derive(Debug)]
pub struct ProgramHeader {
    pub header_type: ProgramHeaderType,
    pub virtual_address: u32,
    pub padding: u32,
    pub memory_size: u32,
    pub flags: ProgramHeaderFlags,
    pub alignment: u32,
    pub data: Vec<u8>,
}

/// An ELF file.
#[derive(Debug)]
pub struct Elf {
    pub header: Header,
    pub program_headers: Vec<ProgramHeader>,
}

/// Why an ELF file could not be read.
#[derive(Clone, Copy, Debug, PartialEq, Eq, Structural)]
pub enum ElfError {
    /// The file ends before what is read from it.
    UnexpectedEnd,
    /// Byte 4 names no binary type.
    InvalidBinaryType,
    /// Byte 5 names no byte order.
    InvalidEndian,
    /// Bytes 18 and 19 name no processor.
    InvalidInstructionSet,
    /// The file does not start with the magic word, but with this one.
    InvalidMagic(u32),
    /// The file is not for 32-bit machines.
    NotBinary32,
    /// The entry of the program table has a kind with this unknown code.
    InvalidHeaderType(u32),
}

impl ElfError {
    /// The error in words.
    pub open spec fn text(self) -> Seq<char> {
        match self {
            ElfError::UnexpectedEnd => "failed to fill whole buffer"@,
            ElfError::InvalidBinaryType => "Invalid binary type."@,
            ElfError::InvalidEndian => "Invalid endian value."@,
            ElfError::InvalidInstructionSet => "Invalid version type."@,
            ElfError::InvalidMagic(found) => "ELF Magic is invalid, found 0x"@ + padded_hex(
                found as nat,
                8,
            ) + " but expected 0x464c457f."@,
            ElfError::NotBinary32 => "32 Binary ELF is required, instead found 2"@,
            ElfError::InvalidHeaderType(code) => "Invalid header type "@ + numeral(code as nat, 10)
                + "."@,
        }
    }

    /// The error in words.
    pub fn message(&self) -> (message: String)
        ensures
            message@ == self.text(),
    {
        match self {
            ElfError::UnexpectedEnd => String::from_str("failed to fill whole buffer"),
            ElfError::InvalidBinaryType => String::from_str("Invalid binary type."),
            ElfError::InvalidEndian => String::from_str("Invalid endian value."),
            ElfError::InvalidInstructionSet => String::from_str("Invalid version type."),
            ElfError::InvalidMagic(found) => {
                let mut message = String::from_str("ELF Magic is invalid, found 0x");
                push_hex_padded(&mut message, *found as u64, 8);
                message.append(" but expected 0x464c457f.");
                message
            },
            ElfError::NotBinary32 => String::from_str("32 Binary ELF is required, instead found 2"),
            ElfError::InvalidHeaderType(code) => {
                let mut message = String::from_str("Invalid header type ");
                push_numeral(&mut message, *code, 10);
                message.append(".");
                message
            },
        }
    }
}

/// The half-word at offset `at`, the low byte first.
pub open spec fn u16_at(bytes: Seq<u8>, at: int) -> u16 {
    le_u16(bytes[at], bytes[at + 1])
}

/// The word at offset `at`, the lowest byte first.
pub open spec fn u32_at(bytes: Seq<u8>, at: int) -> u32 {
    le_u32(bytes[at], bytes[at + 1], bytes[at + 2], bytes[at + 3])
}

/// Reads the half-word at offset `at`.
pub fn read_u16(bytes: &[u8], at: usize) -> (value: Result<u16, ElfError>)
    ensures
        value == if at + 2 <= bytes@.len() {
            Ok::<u16, ElfError>(u16_at(bytes@, at as int))
        } else {
            Err::<u16, ElfError>(ElfError::UnexpectedEnd)
        },
{
    if bytes.len() < 2 || at > bytes.len() - 2 {
        return Err(ElfError::UnexpectedEnd);
    }
    Ok(bytes[at] as u16 + 0x100 * (bytes[at + 1] as u16))
}

/// Reads the word at offset `at`.
pub fn read_u32(bytes: &[u8], at: usize) -> (value: Result<u32, ElfError>)
    ensures
        value == if at + 4 <= bytes@.len() {
            Ok::<u32, ElfError>(u32_at(bytes@, at as int))
        } else {
            Err::<u32, ElfError>(ElfError::UnexpectedEnd)
        },
{
    if bytes.len() < 4 || at > bytes.len() - 4 {
        return Err(ElfError::UnexpectedEnd);
    }
    Ok(
        bytes[at] as u32 + 0x100 * (bytes[at + 1] as u32) + 0x1_0000 * (bytes[at + 2] as u32)
            + 0x100_0000 * (bytes[at + 3] as u32),
    )
}

/// Why the header of `bytes` cannot be read, if it cannot. The fields are
/// read in the order of the file, so a file that ends early fails with the
/// first fault before its end; the magic word and the binary type are
/// checked once the identification is read.
pub open spec fn header_fault(bytes: Seq<u8>) -> Option<ElfError> {
    if bytes.len() < 5 {
        Some(ElfError::UnexpectedEnd)
    } else if binary_type_of(bytes[4]) is None {
        Some(ElfError::InvalidBinaryType)
    } else if bytes.len() < 6 {
        Some(ElfError::UnexpectedEnd)
    } else if endian_of(bytes[5]) is None {
        Some(ElfError::InvalidEndian)
    } else if bytes.len() < 20 {
        Some(ElfError::UnexpectedEnd)
    } else if instruction_set_of(u16_at(bytes, 18)) is None {
        Some(ElfError::InvalidInstructionSet)
    } else if bytes.len() < 28 {
        Some(ElfError::UnexpectedEnd)
    } else if u32_at(bytes, 0) != MAGIC {
        Some(ElfError::InvalidMagic(u32_at(bytes, 0)))
    } else if bytes[4] != 1 {
        Some(ElfError::NotBinary32)
    } else if bytes.len() < 52 {
        Some(ElfError::UnexpectedEnd)
    } else {
        None
    }
}

/// Whether `header` and `details` are what the first 52 bytes of `bytes`
/// hold.
pub open spec fn header_holds(bytes: Seq<u8>, header: Header, details: HeaderDetails) -> bool {
    &&& header.magic == u32_at(bytes, 0)
    &&& Some(header.binary_type) == binary_type_of(bytes[4])
    &&& Some(header.endian) == endian_of(bytes[5])
    &&& header.header_version == bytes[6]
    &&& header.abi == bytes[7]
    &&& header.padding@ == bytes.subrange(8, 16)
    &&& header.package == u16_at(bytes, 16)
    &&& Some(header.cpu) == instruction_set_of(u16_at(bytes, 18))
    &&& header.elf_version == u32_at(bytes, 20)
    &&& header.program_entry == u32_at(bytes, 24)
    &&& details.program_table_position == u32_at(bytes, 28)
    &&& details.section_table_point == u32_at(bytes, 32)
    &&& details.flags == u32_at(bytes, 36)
    &&& details.header_size == u16_at(bytes, 40)
    &&& details.program_entry_size == u16_at(bytes, 42)
    &&& details.program_entry_count == u16_at(bytes, 44)
    &&& details.section_entry_size == u16_at(bytes, 46)
    &&& details.section_entry_count == u16_at(bytes, 48)
    &&& details.names_point == u16_at(bytes, 50)
}

impl HeaderDetails {
    /// Reads the 24 bytes behind the identification.
    pub fn read(bytes: &[u8]) -> (result: Result<HeaderDetails, ElfError>)
        ensures
            match result {
                Ok(details) => bytes@.len() >= 52 && details.program_table_position == u32_at(
                    bytes@,
                    28,
                ) && details.section_table_point == u32_at(bytes@, 32) && details.flags == u32_at(
                    bytes@,
                    36,
                ) && details.header_size == u16_at(bytes@, 40) && details.program_entry_size
                    == u16_at(bytes@, 42) && details.program_entry_count == u16_at(bytes@, 44)
                    && details.section_entry_size == u16_at(bytes@, 46)
                    && details.section_entry_count == u16_at(bytes@, 48) && details.names_point
                    == u16_at(bytes@, 50),
                Err(error) => bytes@.len() < 52 && error == ElfError::UnexpectedEnd,
            },
    {
        if bytes.len() < HEADER_SIZE {
            return Err(ElfError::UnexpectedEnd);
        }
        Ok(
            HeaderDetails {
                program_table_position: read_u32(bytes, 28)?,
                section_table_point: read_u32(bytes, 32)?,
                flags: read_u32(bytes, 36)?,
                header_size: read_u16(bytes, 40)?,
                program_entry_size: read_u16(bytes, 42)?,
                program_entry_count: read_u16(bytes, 44)?,
                section_entry_size: read_u16(bytes, 46)?,
                section_entry_count: read_u16(bytes, 48)?,
                names_point: read_u16(bytes, 50)?,
            },
        )
    }
}

impl Header {
    /// Reads the header of an ELF file.
    pub fn read(bytes: &[u8]) -> (result: Result<(Header, HeaderDetails), ElfError>)
        ensures
            match result {
                Ok((header, details)) => header_fault(bytes@) is None && header_holds(
                    bytes@,
                    header,
                    details,
                ),
                Err(error) => header_fault(bytes@) == Some(error),
            },
    {
        let magic: u32 = read_u32(bytes, 0)?;
        if bytes.len() < 5 {
            return Err(ElfError::UnexpectedEnd);
        }
        let binary_type = match BinaryType::from_code(bytes[4]) {
            Some(kind) => kind,
            None => {
                return Err(ElfError::InvalidBinaryType);
            },
        };
        if bytes.len() < 6 {
            return Err(ElfError::UnexpectedEnd);
        }
        let endian = match Endian::from_code(bytes[5]) {
            Some(order) => order,
            None => {
                return Err(ElfError::InvalidEndian);
            },
        };
        if bytes.len() < 20 {
            return Err(ElfError::UnexpectedEnd);
        }
        let header_version: u8 = bytes[6];
        let abi: u8 = bytes[7];
        let padding: [u8; 8] = [
            bytes[8],
            bytes[9],
            bytes[10],
            bytes[11],
            bytes[12],
            bytes[13],
            bytes[14],
            bytes[15],
        ];
        let package: u16 = read_u16(bytes, 16)?;
        let cpu = match InstructionSet::from_code(read_u16(bytes, 18)?) {
            Some(cpu) => cpu,
            None => {
                return Err(ElfError::InvalidInstructionSet);
            },
        };
        let elf_version: u32 = read_u32(bytes, 20)?;
        let program_entry: u32 = read_u32(bytes, 24)?;
        if magic != MAGIC {
            return Err(ElfError::InvalidMagic(magic));
        }
        if bytes[4] != 1 {
            return Err(ElfError::NotBinary32);
        }
        let details = HeaderDetails::read(bytes)?;
        let header = Header {
            magic,
            binary_type,
            endian,
            header_version,
            abi,
            padding,
            package,
            cpu,
            elf_version,
            program_entry,
        };
        assert(header.padding@ =~= bytes@.subrange(8, 16));
        Ok((header, details))
    }
}

/// Why the entry of the program table at offset `at` cannot be read, if it
/// cannot.
pub open spec fn entry_fault(bytes: Seq<u8>, at: int) -> Option<ElfError> {
    if at + 4 > bytes.len() {
        Some(ElfError::UnexpectedEnd)
    } else if header_type_of(u32_at(bytes, at)) is None {
        Some(ElfError::InvalidHeaderType(u32_at(bytes, at)))
    } else if at + 32 > bytes.len() {
        Some(ElfError::UnexpectedEnd)
    } else if u32_at(bytes, at + 4) + u32_at(bytes, at + 16) > bytes.len() {
        Some(ElfError::UnexpectedEnd)
    } else {
        None
    }
}

/// Whether `entry` is what the 32 bytes at offset `at` hold, together with
/// the bytes of the file that they name.
pub open spec fn entry_holds(bytes: Seq<u8>, at: int, entry: ProgramHeader) -> bool {
    &&& Some(entry.header_type) == header_type_of(u32_at(bytes, at))
    &&& entry.virtual_address == u32_at(bytes, at + 8)
    &&& entry.padding == u32_at(bytes, at + 12)
    &&& entry.memory_size == u32_at(bytes, at + 20)
    &&& entry.flags == ProgramHeaderFlags::of(u32_at(bytes, at + 24))
    &&& entry.alignment == u32_at(bytes, at + 28)
    &&& entry.data@ == bytes.subrange(
        u32_at(bytes, at + 4) as int,
        u32_at(bytes, at + 4) + u32_at(bytes, at + 16),
    )
}

impl ProgramHeader {
    /// Reads the entry of the program table at offset `at`.
    pub fn read(bytes: &[u8], at: usize) -> (result: Result<ProgramHeader, ElfError>)
        requires
            at + 32 <= usize::MAX,
        ensures
            match result {
                Ok(entry) => entry_fault(bytes@, at as int) is None && entry_holds(
                    bytes@,
                    at as int,
                    entry,
                ),
                Err(error) => entry_fault(bytes@, at as int) == Some(error),
            },
    {
        let raw: u32 = read_u32(bytes, at)?;
        let header_type = match ProgramHeaderType::from_code(raw) {
            Some(kind) => kind,
            None => {
                return Err(ElfError::InvalidHeaderType(raw));
            },
        };
        if bytes.len() < 32 || at > bytes.len() - 32 {
            return Err(ElfError::UnexpectedEnd);
        }
        let file_offset: u32 = read_u32(bytes, at + 4)?;
        let virtual_address: u32 = read_u32(bytes, at + 8)?;
        let padding: u32 = read_u32(bytes, at + 12)?;
        let file_size: u32 = read_u32(bytes, at + 16)?;
        let memory_size: u32 = read_u32(bytes, at + 20)?;
        let flags: u32 = read_u32(bytes, at + 24)?;
        let alignment: u32 = read_u32(bytes, at + 28)?;
        let end: u64 = file_offset as u64 + file_size as u64;
        if end > bytes.len() as u64 {
            return Err(ElfError::UnexpectedEnd);
        }
        let data = vstd::slice::slice_to_vec(
            vstd::slice::slice_subrange(bytes, file_offset as usize, end as usize),
        );
        Ok(
            ProgramHeader {
                header_type,
                virtual_address,
                padding,
                memory_size,
                flags: ProgramHeaderFlags::from_word(flags),
                alignment,
                data,
            },
        )
    }
}

/// The offset of entry `index` of the program table.
pub open spec fn entry_offset(details: HeaderDetails, index: int) -> int {
    details.program_table_position + index * details.program_entry_size
}

/// The number of entries among the first `count` of the program table that
/// can be read.
pub open spec fn readable_entries(bytes: Seq<u8>, details: HeaderDetails, count: nat) -> nat
    decreases count,
{
    if count == 0 {
        0
    } else if entry_fault(bytes, entry_offset(details, count - 1)) is None {
        readable_entries(bytes, details, (count - 1) as nat) + 1
    } else {
        readable_entries(bytes, details, (count - 1) as nat)
    }
}

/// The offset of the entry that comes out as number `rank` of those among
/// the first `count` entries of the program table that can be read.
pub open spec fn entry_at_rank(bytes: Seq<u8>, details: HeaderDetails, count: nat, rank: int) -> int
    decreases count,
{
    if count == 0 {
        0
    } else if entry_fault(bytes, entry_offset(details, count - 1)) is None && rank
        == readable_entries(bytes, details, (count - 1) as nat) {
        entry_offset(details, count - 1)
    } else {
        entry_at_rank(bytes, details, (count - 1) as nat, rank)
    }
}

/// Whether `entries` are those among the first `count` entries of the
/// program table that can be read, in the order of the table.
pub open spec fn entries_hold(
    bytes: Seq<u8>,
    details: HeaderDetails,
    count: nat,
    entries: Seq<ProgramHeader>,
) -> bool {
    &&& entries.len() == readable_entries(bytes, details, count)
    &&& forall|rank: int|
        0 <= rank < entries.len() ==> entry_holds(
            bytes,
            entry_at_rank(bytes, details, count, rank),
            #[trigger] entries[rank],
        )
}

impl Elf {
    /// Reads an ELF file: its header, and the entries of its program table
    /// that can be read.
    pub fn read(bytes: &[u8]) -> (result: Result<Elf, ElfError>)
        requires
            bytes@.len() <= usize::MAX - 32,
        ensures
            match result {
                Ok(elf) => header_fault(bytes@) is None && exists|details: HeaderDetails|
                    #![trigger header_holds(bytes@, elf.header, details)]
                    header_holds(bytes@, elf.header, details) && entries_hold(
                        bytes@,
                        details,
                        details.program_entry_count as nat,
                        elf.program_headers@,
                    ),
                Err(error) => header_fault(bytes@) == Some(error),
            },
    {
        let (header, details) = Header::read(bytes)?;
        let mut program_headers: Vec<ProgramHeader> = Vec::new();
        let mut index: u16 = 0;
        while index < details.program_entry_count
            invariant
                index <= details.program_entry_count,
                bytes@.len() <= usize::MAX - 32,
                entries_hold(bytes@, details, index as nat, program_headers@),
            decreases details.program_entry_count - index,
        {
            let step: u64 = details.program_entry_size as u64;
            assert(0 <= index as int * step as int <= 0xFFFF * 0xFFFF) by (nonlinear_arith)
                requires
                    0 <= index as int <= 0xFFFF,
                    0 <= step as int <= 0xFFFF,
            ;
            let start: u64 = details.program_table_position as u64 + index as u64 * step;
            let ghost before = program_headers@;
            let ghost rank = readable_entries(bytes@, details, index as nat);
            if start <= bytes.len() as u64 {
                if let Ok(entry) = ProgramHeader::read(bytes, start as usize) {
                    program_headers.push(entry);
                }
            }
            proof {
                let next = (index + 1) as nat;
                assert forall|r: int| 0 <= r < program_headers@.len() implies entry_holds(
                    bytes@,
                    entry_at_rank(bytes@, details, next, r),
                    #[trigger] program_headers@[r],
                ) by {
                    if r < before.len() {
                        assert(program_headers@[r] == before[r]);
                    }
                }
            }
            index = index + 1;
        }
        Ok(Elf { header, program_headers })
    }
}

/// The addresses one past the end of each executable run of bytes among the
/// first `count` entries.
pub open spec fn elf_finished_pcs(entries: Seq<ProgramHeader>, count: nat) -> Seq<u32>
    decreases count,
{
    if count == 0 || count > entries.len() {
        Seq::empty()
    } else if entries[count - 1].flags.bits % 2 == 1 {
        elf_finished_pcs(entries, (count - 1) as nat).push(
            crate::alu::wrap(entries[count - 1].virtual_address + entries[count - 1].data@.len()),
        )
    } else {
        elf_finished_pcs(entries, (count - 1) as nat)
    }
}

/// The addresses one past the end of each executable run of bytes: a
/// program that arrives at one of them has run off its code.
pub fn get_elf_finished_pcs(elf: &Elf) -> (pcs: Vec<u32>)
    ensures
        pcs@ == elf_finished_pcs(elf.program_headers@, elf.program_headers@.len()),
{
    let mut pcs: Vec<u32> = Vec::new();
    let mut index: usize = 0;
    while index < elf.program_headers.len()
        invariant
            index <= elf.program_headers@.len(),
            pcs@ == elf_finished_pcs(elf.program_headers@, index as nat),
        decreases elf.program_headers@.len() - index,
    {
        let entry = &elf.program_headers[index];
        if entry.flags.executable() {
            let length: u64 = (entry.data.len() as u64) % 0x1_0000_0000;
            pcs.push(((entry.virtual_address as u64 + length) % 0x1_0000_0000) as u32);
        }
        index = index + 1;
    }
    pcs
}

} // verus!
