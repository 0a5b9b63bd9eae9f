//! The system calls.
//!
//! A program asks for a system call with the `syscall` instruction and names
//! it in `$v0`. `dispatch` decides what the call does. Where the call needs
//! the host (to print, to wait for input, to reach a file, the clock or the
//! synthesizer, to sleep) it returns the request; the host carries the
//! request out and hands its reply to `complete`, which finishes the call or
//! asks for the next thing. A call that needs the host is aborted while the
//! run is cancelled.
//!
//! A note is played in steps: the host plays it where the instrument is
//! installed; where it is not, the instrument is installed and, if that
//! worked, the note is played then. A call that waits for its note takes
//! these steps one after the other. A call that does not wait ends at once
//! and leaves the installing to the host, beside the run.

use vstd::prelude::*;
use vstd::string::StringExecFns;
use std::collections::HashSet;
use rand_chacha::ChaCha8Rng;
use crate::alu::{signed, wrap};
use crate::channels::{scan_until, ByteChannel};
use crate::cpu::StateView;
use crate::error::Error;
use crate::executor::{Executor, ExecutorView};
use crate::random::Generators;
use crate::scanners::{line_data, IntegerScanner, LineScanner};
use crate::text::{
    binary,
    hexadecimal,
    latin1,
    numeral,
    push_numeral,
    signed_decimal,
    signed_numeral,
    text_of_bytes,
    text_of_char,
    unsigned_decimal,
};
use crate::watched::{WatchedMemory, WatchedView};

verus! {

/// The address at which the heap of `sbrk` starts.
pub const HEAP_START: u32 = 0x20000000;

/// The first file descriptor that `open` hands out.
pub const FIRST_FILE: u32 = 3;

/// The most bytes that `print_string` prints.
pub const PRINT_LIMIT: usize = 1000;

/// The most bytes of a file name.
pub const PATH_LIMIT: usize = 400;

/// A note for the synthesizer.
#[derive(Clone, Copy, Debug, PartialEq, Eq, Structural)]
pub struct MidiRequest {
    /// The pitch, 0 to 127.
    pub pitch: u32,
    /// The duration in milliseconds.
    pub duration: u32,
    /// The instrument, 0 to 127.
    pub instrument: u32,
    /// The volume, 0 to 127.
    pub volume: u32,
}

/// How a system call ended.
#[derive(Debug)]
pub enum SyscallResult {
    /// The call is done; the program goes on.
    Completed,
    /// The call failed with this message.
    Failure(String),
    /// The program asked to end with this code.
    Terminated(u32),
    /// The run was cancelled during the call.
    Aborted,
    /// The call is known and not offered.
    Unimplemented(u32),
    /// No call has this number.
    Unknown(u32),
    /// The call met a memory or processor fault.
    Exception(Error),
}

/// How a system call ended, as mathematical values: the variants of
/// `SyscallResult`, with the message as a sequence of characters.
pub enum ResultView {
    Completed,
    Failure(Seq<char>),
    Terminated(u32),
    Aborted,
    Unimplemented(u32),
    Unknown(u32),
    Exception(Error),
}

impl View for SyscallResult {
    type V = ResultView;

    open spec fn view(&self) -> ResultView {
        match self {
            SyscallResult::Completed => ResultView::Completed,
            SyscallResult::Failure(message) => ResultView::Failure(message@),
            SyscallResult::Terminated(code) => ResultView::Terminated(*code),
            SyscallResult::Aborted => ResultView::Aborted,
            SyscallResult::Unimplemented(code) => ResultView::Unimplemented(*code),
            SyscallResult::Unknown(code) => ResultView::Unknown(*code),
            SyscallResult::Exception(error) => ResultView::Exception(*error),
        }
    }
}

/// What a system call needs the host to do.
#[derive(Debug)]
pub enum SyscallRequest {
    /// Print the text on the console.
    Print { text: String },
    /// Wait until more input has arrived, and send it.
    Input,
    /// Open the file: flags 0 to read, 1 to create, 9 to append. The file
    /// will be known by `descriptor`.
    Open { path: String, flags: u32, descriptor: u32 },
    /// Read up to `size` bytes from the file.
    ReadFile { descriptor: u32, size: u32 },
    /// Write the bytes to the file.
    WriteFile { descriptor: u32, data: Vec<u8> },
    /// Close the file.
    Close { descriptor: u32 },
    /// Read the clock.
    Time,
    /// Play the note if its instrument is installed, and tell whether it
    /// was.
    Play { request: MidiRequest, sync: bool },
    /// Install the instrument of the note, and tell whether that worked.
    Install { request: MidiRequest, sync: bool },
    /// Play the note on its instrument, which has just been installed.
    Sound { request: MidiRequest, sync: bool },
    /// Wait until the note that plays has ended.
    WaitSync,
    /// Sleep for so many milliseconds.
    Sleep { millis: u32 },
}

/// What a system call needs the host to do, as mathematical values: the
/// variants of `SyscallRequest`, with texts and bytes as sequences.
pub enum RequestView {
    Print { text: Seq<char> },
    Input,
    Open { path: Seq<char>, flags: u32, descriptor: u32 },
    ReadFile { descriptor: u32, size: u32 },
    WriteFile { descriptor: u32, data: Seq<u8> },
    Close { descriptor: u32 },
    Time,
    Play { request: MidiRequest, sync: bool },
    Install { request: MidiRequest, sync: bool },
    Sound { request: MidiRequest, sync: bool },
    WaitSync,
    Sleep { millis: u32 },
}

impl View for SyscallRequest {
    type V = RequestView;

    open spec fn view(&self) -> RequestView {
        match self {
            SyscallRequest::Print { text } => RequestView::Print { text: text@ },
            SyscallRequest::Input => RequestView::Input,
            SyscallRequest::Open { path, flags, descriptor } => RequestView::Open {
                path: path@,
                flags: *flags,
                descriptor: *descriptor,
            },
            SyscallRequest::ReadFile { descriptor, size } => RequestView::ReadFile {
                descriptor: *descriptor,
                size: *size,
            },
            SyscallRequest::WriteFile { descriptor, data } => RequestView::WriteFile {
                descriptor: *descriptor,
                data: data@,
            },
            SyscallRequest::Close { descriptor } => RequestView::Close { descriptor: *descriptor },
            SyscallRequest::Time => RequestView::Time,
            SyscallRequest::Play { request, sync } => RequestView::Play {
                request: *request,
                sync: *sync,
            },
            SyscallRequest::Install { request, sync } => RequestView::Install {
                request: *request,
                sync: *sync,
            },
            SyscallRequest::Sound { request, sync } => RequestView::Sound {
                request: *request,
                sync: *sync,
            },
            SyscallRequest::WaitSync => RequestView::WaitSync,
            SyscallRequest::Sleep { millis } => RequestView::Sleep { millis: *millis },
        }
    }
}

/// What the host answers to a request.
#[derive(Debug)]
pub enum SyscallReply {
    /// The request was carried out.
    Done,
    /// The run was cancelled before the request was carried out.
    Cancelled,
    /// Whether the file was opened.
    Opened(bool),
    /// The bytes read, or `None` where the file cannot be read.
    FileRead(Option<Vec<u8>>),
    /// The number of bytes written, or `None` where the file cannot be
    /// written.
    FileWritten(Option<u32>),
    /// Milliseconds since the Unix epoch, or `None` where the clock failed.
    Time(Option<u64>),
    /// Whether the note plays: whether its instrument was installed.
    Played(bool),
    /// Whether the instrument is installed now.
    Installed(bool),
}

/// What the host answers to a request, as mathematical values: the variants
/// of `SyscallReply`, with bytes as sequences.
pub enum ReplyView {
    Done,
    Cancelled,
    Opened(bool),
    FileRead(Option<Seq<u8>>),
    FileWritten(Option<u32>),
    Time(Option<u64>),
    Played(bool),
    Installed(bool),
}

impl View for SyscallReply {
    type V = ReplyView;

    open spec fn view(&self) -> ReplyView {
        match self {
            SyscallReply::Done => ReplyView::Done,
            SyscallReply::Cancelled => ReplyView::Cancelled,
            SyscallReply::Opened(opened) => ReplyView::Opened(*opened),
            SyscallReply::FileRead(bytes) => ReplyView::FileRead(
                match bytes {
                    Some(read) => Some(read@),
                    None => None,
                },
            ),
            SyscallReply::FileWritten(count) => ReplyView::FileWritten(*count),
            SyscallReply::Time(millis) => ReplyView::Time(*millis),
            SyscallReply::Played(plays) => ReplyView::Played(*plays),
            SyscallReply::Installed(worked) => ReplyView::Installed(*worked),
        }
    }
}

/// What the host does next for a request that it carries out beside the run,
/// once it has the reply: after an instrument is installed, the note is
/// played on it. Nothing follows anything else.
pub open spec fn follows(request: RequestView, reply: ReplyView) -> Option<RequestView> {
    match request {
        RequestView::Install { request: note, sync } => if reply == ReplyView::Installed(true) {
            Some(RequestView::Sound { request: note, sync })
        } else {
            None
        },
        _ => None,
    }
}

/// What the host does next for a request that it carries out beside the run.
pub fn follow_up(request: &SyscallRequest, reply: &SyscallReply) -> (next: Option<SyscallRequest>)
    ensures
        match follows(request@, reply@) {
            Some(then) => next matches Some(asked) && asked@ == then,
            None => next is None,
        },
{
    match request {
        SyscallRequest::Install { request: note, sync } => {
            if let SyscallReply::Installed(true) = reply {
                Some(SyscallRequest::Sound { request: *note, sync: *sync })
            } else {
                None
            }
        },
        _ => None,
    }
}

/// Where a system call stands: ended, waiting for the host, or ended with
/// work left to the host.
#[derive(Debug)]
pub enum SyscallStep {
    /// The call ended.
    Finished(SyscallResult),
    /// The call needs the host: it goes on with the reply.
    Pending(SyscallRequest),
    /// The call ended well and the run goes on. The request is for the host
    /// to carry out beside the run, with what `follow_up` names after it.
    Detached(SyscallRequest),
}

/// Where a system call stands, as mathematical values: the variants of
/// `SyscallStep`.
pub enum StepView {
    Finished(ResultView),
    Pending(RequestView),
    Detached(RequestView),
}

impl View for SyscallStep {
    type V = StepView;

    open spec fn view(&self) -> StepView {
        match self {
            SyscallStep::Finished(result) => StepView::Finished(result@),
            SyscallStep::Pending(request) => StepView::Pending(request@),
            SyscallStep::Detached(request) => StepView::Detached(request@),
        }
    }
}

/// The console of the host.
pub trait ConsoleHandler {
    /// Shows `text`, as an error where `error` is set.
    fn print(&mut self, text: &str, error: bool);
}

/// The synthesizer of the host.
pub trait MidiHandler {
    /// Plays a note.
    fn play(&mut self, request: &MidiRequest, sync: bool);

    /// Installs the instrument, and tells whether it can be played now.
    fn install(&mut self, instrument: u32) -> bool;

    /// Whether the instrument can be played.
    fn installed(&mut self, instrument: u32) -> bool;
}

/// The note that the argument registers describe.
pub fn midi_request(registers: &crate::registers::Registers) -> (request: MidiRequest)
    ensures
        request == (MidiRequest {
            pitch: registers.line[4],
            duration: registers.line[5],
            instrument: registers.line[6],
            volume: registers.line[7],
        }),
{
    MidiRequest {
        pitch: registers.line[4],
        duration: registers.line[5],
        instrument: registers.line[6],
        volume: registers.line[7],
    }
}

/// The length of the UTF-8 form of the character with code `byte`.
pub open spec fn utf8_len(byte: u8) -> nat {
    if byte < 0x80 {
        1
    } else {
        2
    }
}

/// The bytes of the string at `address`, up to its zero byte, and the memory
/// after reading them. The string ends early once the UTF-8 form of its
/// characters has reached `max` bytes. A failed read fails the whole; a
/// string that runs over the end of the address space fails with a trap.
pub open spec fn grab(
    memory: WatchedView,
    address: u32,
    max: Option<usize>,
    bytes: Seq<u8>,
    size: nat,
) -> (Result<Seq<u8>, Error>, WatchedView)
    decreases 0x1_0000_0000 - address,
{
    if max is Some && size >= max->0 {
        (Ok(bytes), memory)
    } else {
        match memory.get(address).0 {
            Err(error) => (Err(error), memory.get(address).1),
            Ok(byte) => if byte == 0 {
                (Ok(bytes), memory.get(address).1)
            } else if address == 0xFFFF_FFFF {
                (Err(Error::CpuTrap), memory.get(address).1)
            } else {
                grab(
                    memory.get(address).1,
                    (address + 1) as u32,
                    max,
                    bytes.push(byte),
                    size + utf8_len(byte),
                )
            },
        }
    }
}

/// The outcome of writing `bytes` from `address` on, wrapping at the end of
/// the address space, and the memory after it. The first write that fails
/// ends the whole; the bytes before it stay written.
pub open spec fn store(memory: WatchedView, address: u32, bytes: Seq<u8>) -> (
    Result<(), Error>,
    WatchedView,
)
    decreases bytes.len(),
{
    if bytes.len() == 0 {
        (Ok(()), memory)
    } else {
        match memory.set(address, bytes[0]).0 {
            Err(error) => (Err(error), memory.set(address, bytes[0]).1),
            Ok(_) => store(
                memory.set(address, bytes[0]).1,
                wrap(address + 1),
                bytes.skip(1),
            ),
        }
    }
}

/// The outcome of writing `bytes` from `address` on, and the memory after
/// it. A byte that would lie behind the end of the address space fails with
/// a trap.
pub open spec fn store_checked(memory: WatchedView, address: int, bytes: Seq<u8>) -> (
    Result<(), Error>,
    WatchedView,
)
    decreases bytes.len(),
{
    if bytes.len() == 0 {
        (Ok(()), memory)
    } else if address > 0xFFFF_FFFF {
        (Err(Error::CpuTrap), memory)
    } else {
        match memory.set(address as u32, bytes[0]).0 {
            Err(error) => (Err(error), memory.set(address as u32, bytes[0]).1),
            Ok(_) => store_checked(memory.set(address as u32, bytes[0]).1, address + 1, bytes.skip(1)),
        }
    }
}

/// The `count` bytes from `address` on, and the memory after reading them. A
/// byte that would lie behind the end of the address space fails with a trap.
pub open spec fn load(memory: WatchedView, address: int, count: nat, bytes: Seq<u8>) -> (
    Result<Seq<u8>, Error>,
    WatchedView,
)
    decreases count,
{
    if count == 0 {
        (Ok(bytes), memory)
    } else if address > 0xFFFF_FFFF {
        (Err(Error::CpuTrap), memory)
    } else {
        match memory.get(address as u32).0 {
            Err(error) => (Err(error), memory.get(address as u32).1),
            Ok(byte) => load(
                memory.get(address as u32).1,
                address + 1,
                (count - 1) as nat,
                bytes.push(byte),
            ),
        }
    }
}

/// Reads the string at `address`.
pub fn grab_string(address: u32, memory: &mut WatchedMemory, max: Option<usize>) -> (result: Result<
    Vec<u8>,
    Error,
>)
    requires
        old(memory).backing.wf(),
    ensures
        final(memory).backing.wf(),
        final(memory)@ == grab(old(memory)@, address, max, Seq::empty(), 0).1,
        match grab(old(memory)@, address, max, Seq::empty(), 0).0 {
            Ok(bytes) => result matches Ok(read) && read@ == bytes,
            Err(error) => result == Err::<Vec<u8>, Error>(error),
        },
{
    let mut buffer: Vec<u8> = Vec::new();
    let mut size: u64 = 0;
    let mut cursor: u32 = address;
    loop
        invariant
            memory.backing.wf(),
            address <= cursor,
            buffer@.len() == cursor - address,
            size <= 2 * buffer@.len(),
            grab(old(memory)@, address, max, Seq::empty(), 0) == grab(
                memory@,
                cursor,
                max,
                buffer@,
                size as nat,
            ),
        decreases 0x1_0000_0000 - cursor,
    {
        if let Some(most) = max {
            if size >= most as u64 {
                return Ok(buffer);
            }
        }
        let byte: u8 = match memory.get(cursor) {
            Ok(byte) => byte,
            Err(error) => {
                return Err(error);
            },
        };
        if byte == 0 {
            return Ok(buffer);
        }
        if cursor == 0xFFFF_FFFF {
            return Err(Error::CpuTrap);
        }
        buffer.push(byte);
        size = size + if byte < 0x80 {
            1
        } else {
            2
        };
        cursor = cursor + 1;
    }
}

/// Writes `bytes` from `address` on, wrapping at the end of the address space.
pub fn store_bytes(memory: &mut WatchedMemory, address: u32, bytes: &Vec<u8>) -> (result: Result<
    (),
    Error,
>)
    requires
        old(memory).backing.wf(),
    ensures
        final(memory).backing.wf(),
        (result, final(memory)@) == store(old(memory)@, address, bytes@),
{
    let mut index: usize = 0;
    let mut cursor: u32 = address;
    assert(bytes@.skip(0) =~= bytes@);
    while index < bytes.len()
        invariant
            memory.backing.wf(),
            index <= bytes@.len(),
            store(old(memory)@, address, bytes@) == store(memory@, cursor, bytes@.skip(index as int)),
        decreases bytes@.len() - index,
    {
        let ghost rest = bytes@.skip(index as int);
        assert(rest[0] == bytes@[index as int]);
        assert(rest.skip(1) =~= bytes@.skip(index + 1));
        if let Err(error) = memory.set(cursor, bytes[index]) {
            return Err(error);
        }
        cursor = cursor.wrapping_add(1);
        index = index + 1;
    }
    Ok(())
}

/// Writes `bytes` from `address` on, and traps where a byte would lie behind
/// the end of the address space.
pub fn store_bytes_checked(memory: &mut WatchedMemory, address: u32, bytes: &Vec<u8>) -> (result:
    Result<(), Error>)
    requires
        old(memory).backing.wf(),
    ensures
        final(memory).backing.wf(),
        (result, final(memory)@) == store_checked(old(memory)@, address as int, bytes@),
{
    let mut index: usize = 0;
    let mut cursor: u64 = address as u64;
    assert(bytes@.skip(0) =~= bytes@);
    while index < bytes.len()
        invariant
            memory.backing.wf(),
            index <= bytes@.len(),
            cursor <= 0x1_0000_0000,
            store_checked(old(memory)@, address as int, bytes@) == store_checked(
                memory@,
                cursor as int,
                bytes@.skip(index as int),
            ),
        decreases bytes@.len() - index,
    {
        let ghost rest = bytes@.skip(index as int);
        assert(rest[0] == bytes@[index as int]);
        assert(rest.skip(1) =~= bytes@.skip(index + 1));
        if cursor > 0xFFFF_FFFF {
            return Err(Error::CpuTrap);
        }
        if let Err(error) = memory.set(cursor as u32, bytes[index]) {
            return Err(error);
        }
        cursor = cursor + 1;
        index = index + 1;
    }
    Ok(())
}

/// Reads `count` bytes from `address` on, and traps where a byte would lie
/// behind the end of the address space.
pub fn load_bytes(memory: &mut WatchedMemory, address: u32, count: u32) -> (result: Result<
    Vec<u8>,
    Error,
>)
    requires
        old(memory).backing.wf(),
    ensures
        final(memory).backing.wf(),
        final(memory)@ == load(old(memory)@, address as int, count as nat, Seq::empty()).1,
        match load(old(memory)@, address as int, count as nat, Seq::empty()).0 {
            Ok(bytes) => result matches Ok(read) && read@ == bytes,
            Err(error) => result == Err::<Vec<u8>, Error>(error),
        },
{
    let mut buffer: Vec<u8> = Vec::new();
    let mut cursor: u64 = address as u64;
    let mut left: u32 = count;
    while left > 0
        invariant
            memory.backing.wf(),
            cursor <= 0x2_0000_0000,
            load(old(memory)@, address as int, count as nat, Seq::empty()) == load(
                memory@,
                cursor as int,
                left as nat,
                buffer@,
            ),
        decreases left,
    {
        if cursor > 0xFFFF_FFFF {
            return Err(Error::CpuTrap);
        }
        let byte: u8 = match memory.get(cursor as u32) {
            Ok(byte) => byte,
            Err(error) => {
                return Err(error);
            },
        };
        buffer.push(byte);
        cursor = cursor + 1;
        left = left - 1;
    }
    Ok(buffer)
}

/// The message for a file opened with flags that mean nothing.
pub open spec fn invalid_flags_message(flags: u32, path: Seq<char>) -> Seq<char> {
    "Invalid flags "@ + numeral(flags as nat, 10) + " for opening file "@ + path
}

/// The message for a draw from a generator that was never seeded.
pub open spec fn no_generator_message(id: u32) -> Seq<char> {
    "No generator initialized for id "@ + numeral(id as nat, 10)
        + ", try using the default $a0 = 0 generator or create one with syscall 40."@
}

/// The message for a draw below a bound of 0.
pub open spec fn empty_range_message() -> Seq<char> {
    "No random number lies below the bound 0 in $a1, set $a1 to a bound above 0."@
}

/// The message for a clock that cannot be read.
pub open spec fn clock_message() -> Seq<char> {
    "System clock failed to get current time."@
}

/// What the system calls keep between calls, as mathematical values.
pub struct SyscallView {
    /// Whether the run is cancelled.
    pub cancelled: bool,
    /// The input that waits to be read.
    pub input: Seq<u8>,
    /// Whether a call waits for the note that plays to end.
    pub sync_waiting: bool,
    /// The address that `sbrk` hands out next.
    pub heap_start: u32,
    /// The numbers of the generators.
    pub generators: Set<u32>,
    /// The descriptor that `open` hands out next.
    pub next_file: u32,
    /// The descriptors of the open files.
    pub files: Set<u32>,
}

/// The debugger and what the system calls keep.
pub struct World {
    /// The debugger.
    pub executor: ExecutorView,
    /// What the system calls keep.
    pub syscalls: SyscallView,
}

/// A system call's outcome: where the call stands, and the world after it.
pub struct Dispatched {
    /// Where the call stands.
    pub step: StepView,
    /// The world.
    pub world: World,
}

/// Whether the call with this number needs the host.
pub open spec fn needs_host(code: u32) -> bool {
    code == 1 || code == 4 || code == 5 || code == 8 || (11 <= code <= 16) || (30 <= code <= 36)
}

impl World {
    /// Entry `index` of the register line.
    pub open spec fn line(self, index: int) -> u32 {
        self.executor.state.registers.line[index]
    }

    /// The world after the host or a system call writes a register.
    pub open spec fn put(self, index: int, value: u32) -> World {
        World {
            executor: ExecutorView {
                state: StateView {
                    registers: self.executor.state.registers.with_line(index, value),
                    ..self.executor.state
                },
                ..self.executor
            },
            ..self
        }
    }

    /// The world with another memory.
    pub open spec fn with_memory(self, memory: WatchedView) -> World {
        World {
            executor: ExecutorView {
                state: StateView { memory, ..self.executor.state },
                ..self.executor
            },
            ..self
        }
    }

    /// The world with other input waiting.
    pub open spec fn with_input(self, input: Seq<u8>) -> World {
        World { syscalls: SyscallView { input, ..self.syscalls }, ..self }
    }

    /// The call ended with `result`.
    pub open spec fn finished(self, result: ResultView) -> Dispatched {
        Dispatched { step: StepView::Finished(result), world: self }
    }

    /// The call ended well.
    pub open spec fn completed(self) -> Dispatched {
        self.finished(ResultView::Completed)
    }

    /// The call needs the host.
    pub open spec fn pending(self, request: RequestView) -> Dispatched {
        Dispatched { step: StepView::Pending(request), world: self }
    }

    /// The call ended well and leaves the host a request to carry out beside
    /// the run.
    pub open spec fn detached(self, request: RequestView) -> Dispatched {
        Dispatched { step: StepView::Detached(request), world: self }
    }

    /// What follows once a note plays: a call that waits for its note waits
    /// until the host says that the note has ended; another call ends.
    pub open spec fn sounding(self, sync: bool) -> Dispatched {
        if sync {
            World {
                syscalls: SyscallView { sync_waiting: true, ..self.syscalls },
                ..self
            }.pending(RequestView::WaitSync)
        } else {
            self.completed()
        }
    }

    /// `print_string`: prints the string at `$a0`, 1000 bytes at most.
    pub open spec fn print_string(self) -> Dispatched {
        let grabbed = grab(
            self.executor.state.memory,
            self.line(4),
            Some(PRINT_LIMIT),
            Seq::empty(),
            0,
        );
        match grabbed.0 {
            Ok(bytes) => self.with_memory(grabbed.1).pending(RequestView::Print { text: latin1(bytes) }),
            Err(error) => self.with_memory(grabbed.1).finished(ResultView::Exception(error)),
        }
    }

    /// `read_int`: reads a decimal number from the input into `$v0`. Where
    /// the input that waits does not show the end of the number, the call
    /// waits for more.
    pub open spec fn read_integer(self) -> Dispatched {
        let scanned = scan_until(IntegerScanner { positive: None, value: 0 }, self.syscalls.input, 0);
        match scanned.0 {
            Some(end) => self.with_input(self.syscalls.input.skip(end)).put(
                2,
                scanned.1.number(),
            ).completed(),
            None => self.pending(RequestView::Input),
        }
    }

    /// `read_string`: reads a line of at most `$a1 - 1` bytes from the input
    /// and writes it, with a zero byte behind it, to `$a0`. With `$a1` at 1
    /// or below there is no room for a byte of the line, and the call does
    /// nothing: it reads no input and writes no byte.
    pub open spec fn read_string(self) -> Dispatched {
        let count = self.line(5);
        if count <= 1 {
            self.completed()
        } else {
            match scan_until(
                LineScanner { stored: 0, limit: (count - 1) as usize },
                self.syscalls.input,
                0,
            ).0 {
                Some(end) => self.with_input(self.syscalls.input.skip(end)).write_string(
                    line_data(self.syscalls.input.take(end)),
                ),
                None => self.pending(RequestView::Input),
            }
        }
    }

    /// Writes `data` and a zero byte to `$a0`.
    pub open spec fn write_string(self, data: Seq<u8>) -> Dispatched {
        let stored = store(self.executor.state.memory, self.line(4), data.push(0));
        match stored.0 {
            Ok(_) => self.with_memory(stored.1).completed(),
            Err(error) => self.with_memory(stored.1).finished(ResultView::Exception(error)),
        }
    }

    /// `sbrk`: hands out the heap address in `$v0` and moves it on by `$a0`.
    pub open spec fn alloc_heap(self) -> Dispatched {
        World {
            syscalls: SyscallView {
                heap_start: wrap(self.syscalls.heap_start + self.line(4)),
                ..self.syscalls
            },
            ..self
        }.put(2, self.syscalls.heap_start).completed()
    }

    /// `read_char`: reads one byte from the input into `$v0`.
    pub open spec fn read_character(self) -> Dispatched {
        if self.syscalls.input.len() < 1 {
            self.pending(RequestView::Input)
        } else {
            self.with_input(self.syscalls.input.skip(1)).put(
                2,
                self.syscalls.input[0] as u32,
            ).completed()
        }
    }

    /// `open`: opens the file named at `$a0` with the flags in `$a1`. The
    /// file will be known by the next descriptor.
    pub open spec fn open_file(self) -> Dispatched {
        let grabbed = grab(
            self.executor.state.memory,
            self.line(4),
            Some(PATH_LIMIT),
            Seq::empty(),
            0,
        );
        let flags = self.line(5);
        match grabbed.0 {
            Err(error) => self.with_memory(grabbed.1).finished(ResultView::Exception(error)),
            Ok(bytes) => if flags == 0 || flags == 1 || flags == 9 {
                self.with_memory(grabbed.1).pending(
                    RequestView::Open {
                        path: latin1(bytes),
                        flags,
                        descriptor: self.syscalls.next_file,
                    },
                )
            } else {
                self.with_memory(grabbed.1).finished(
                    ResultView::Failure(invalid_flags_message(flags, latin1(bytes))),
                )
            },
        }
    }

    /// `read_file`: reads `$a2` bytes from file `$a0` to `$a1`. With a
    /// descriptor that is not open, `$v0` becomes -1.
    pub open spec fn read_file(self) -> Dispatched {
        if self.syscalls.files.contains(self.line(4)) {
            self.pending(RequestView::ReadFile { descriptor: self.line(4), size: self.line(6) })
        } else {
            self.put(2, 0xFFFF_FFFF).completed()
        }
    }

    /// `write_file`: writes the `$a2` bytes at `$a1` to file `$a0`. With a
    /// descriptor that is not open, `$v0` becomes -1.
    pub open spec fn write_file(self) -> Dispatched {
        if self.syscalls.files.contains(self.line(4)) {
            let loaded = load(
                self.executor.state.memory,
                self.line(5) as int,
                self.line(6) as nat,
                Seq::empty(),
            );
            match loaded.0 {
                Ok(data) => self.with_memory(loaded.1).pending(
                    RequestView::WriteFile { descriptor: self.line(4), data },
                ),
                Err(error) => self.with_memory(loaded.1).finished(ResultView::Exception(error)),
            }
        } else {
            self.put(2, 0xFFFF_FFFF).completed()
        }
    }

    /// `close`: closes file `$a0`.
    pub open spec fn close_file(self) -> Dispatched {
        if self.syscalls.files.contains(self.line(4)) {
            World {
                syscalls: SyscallView {
                    files: self.syscalls.files.remove(self.line(4)),
                    ..self.syscalls
                },
                ..self
            }.pending(RequestView::Close { descriptor: self.line(4) })
        } else {
            self.completed()
        }
    }

    /// The note that the argument registers describe.
    pub open spec fn note(self) -> MidiRequest {
        MidiRequest {
            pitch: self.line(4),
            duration: self.line(5),
            instrument: self.line(6),
            volume: self.line(7),
        }
    }

    /// `seed_rng`: puts a generator seeded with `$a1` under number `$a0`.
    pub open spec fn set_seed(self) -> Dispatched {
        World {
            syscalls: SyscallView {
                generators: self.syscalls.generators.insert(self.line(4)),
                ..self.syscalls
            },
            ..self
        }.completed()
    }

    /// `rand_int`: puts the value `drawn` from generator `$a0` into `$a0`.
    pub open spec fn random_int(self, drawn: u32) -> Dispatched {
        if self.syscalls.generators.contains(self.line(4)) {
            self.put(4, drawn).completed()
        } else {
            self.finished(ResultView::Failure(no_generator_message(self.line(4))))
        }
    }

    /// `rand_int_ranged`: puts the value `drawn` from generator `$a0` into
    /// `$a0`. No value lies below a bound of 0: the call fails.
    pub open spec fn random_int_ranged(self, drawn: u32) -> Dispatched {
        if !self.syscalls.generators.contains(self.line(4)) {
            self.finished(ResultView::Failure(no_generator_message(self.line(4))))
        } else if self.line(5) == 0 {
            self.finished(ResultView::Failure(empty_range_message()))
        } else {
            self.put(4, drawn).completed()
        }
    }

    /// What the call with number `code` does. `drawn` is the value that a
    /// generator hands out, where the call draws one.
    pub open spec fn dispatch(self, code: u32, drawn: u32) -> Dispatched {
        if self.syscalls.cancelled && needs_host(code) {
            self.finished(ResultView::Aborted)
        } else if code == 1 {
            self.pending(RequestView::Print { text: signed_numeral(signed(self.line(4))) })
        } else if code == 4 {
            self.print_string()
        } else if code == 5 {
            self.read_integer()
        } else if code == 8 {
            self.read_string()
        } else if code == 9 {
            self.alloc_heap()
        } else if code == 10 {
            self.finished(ResultView::Terminated(0))
        } else if code == 11 {
            self.pending(
                RequestView::Print { text: seq![(self.line(4) % 0x100) as u8 as char] },
            )
        } else if code == 12 {
            self.read_character()
        } else if code == 13 {
            self.open_file()
        } else if code == 14 {
            self.read_file()
        } else if code == 15 {
            self.write_file()
        } else if code == 16 {
            self.close_file()
        } else if code == 17 {
            self.finished(ResultView::Terminated(self.line(4)))
        } else if code == 30 {
            self.pending(RequestView::Time)
        } else if code == 31 {
            self.pending(RequestView::Play { request: self.note(), sync: false })
        } else if code == 32 {
            self.pending(RequestView::Sleep { millis: self.line(4) })
        } else if code == 33 {
            self.pending(RequestView::Play { request: self.note(), sync: true })
        } else if code == 34 {
            self.pending(RequestView::Print { text: numeral(self.line(4) as nat, 16) })
        } else if code == 35 {
            self.pending(RequestView::Print { text: numeral(self.line(4) as nat, 2) })
        } else if code == 36 {
            self.pending(RequestView::Print { text: numeral(self.line(4) as nat, 10) })
        } else if code == 40 {
            self.set_seed()
        } else if code == 41 {
            self.random_int(drawn)
        } else if code == 42 {
            self.random_int_ranged(drawn)
        } else if code == 2 || code == 3 || code == 6 || code == 7 || code == 43 || code == 44 {
            self.finished(ResultView::Unimplemented(code))
        } else {
            self.finished(ResultView::Unknown(code))
        }
    }

    /// The world in which no call waits for a note to end.
    pub open spec fn without_waiter(self) -> World {
        World { syscalls: SyscallView { sync_waiting: false, ..self.syscalls }, ..self }
    }

    /// How a call that needed the host goes on once the host has answered.
    /// A reply of another kind than the request asks for counts as a failure
    /// of what was asked.
    ///
    /// A note that did not play because its instrument is missing leads to
    /// the installing of the instrument: as the next request where the call
    /// waits for its note, and beside the run where it does not, so that the
    /// call ends at once. Once installed, the note is played; where the
    /// installing fails, the call ends well without a note.
    pub open spec fn complete(self, request: RequestView, reply: ReplyView, drawn: u32) -> Dispatched {
        if reply is Cancelled {
            self.without_waiter().finished(ResultView::Aborted)
        } else {
            match request {
                RequestView::Input => self.dispatch(self.line(2), drawn),
                RequestView::Open { path, flags, descriptor } => if reply == ReplyView::Opened(
                    true,
                ) {
                    World {
                        syscalls: SyscallView {
                            files: self.syscalls.files.insert(descriptor),
                            next_file: wrap(descriptor + 1),
                            ..self.syscalls
                        },
                        ..self
                    }.put(2, descriptor).completed()
                } else {
                    self.put(2, 0xFFFF_FFFF).completed()
                },
                RequestView::ReadFile { descriptor, size } => match reply {
                    ReplyView::FileRead(Some(bytes)) => self.file_read(
                        if bytes.len() > size {
                            bytes.take(size as int)
                        } else {
                            bytes
                        },
                    ),
                    _ => self.put(2, 0xFFFF_FFFE).completed(),
                },
                RequestView::WriteFile { descriptor, data } => match reply {
                    ReplyView::FileWritten(Some(count)) => self.put(2, count).completed(),
                    _ => self.put(2, 0xFFFF_FFFE).completed(),
                },
                RequestView::Time => match reply {
                    ReplyView::Time(Some(millis)) => self.put(4, (millis % 0x1_0000_0000) as u32).put(
                        5,
                        (millis / 0x1_0000_0000) as u32,
                    ).completed(),
                    _ => self.finished(ResultView::Failure(clock_message())),
                },
                RequestView::Play { request: note, sync } => match reply {
                    ReplyView::Played(true) => self.sounding(sync),
                    ReplyView::Played(false) => if sync {
                        self.pending(RequestView::Install { request: note, sync })
                    } else {
                        self.detached(RequestView::Install { request: note, sync })
                    },
                    _ => self.completed(),
                },
                RequestView::Install { .. } => match follows(request, reply) {
                    Some(next) => self.pending(next),
                    None => self.completed(),
                },
                RequestView::Sound { request: note, sync } => self.sounding(sync),
                RequestView::WaitSync => self.without_waiter().completed(),
                _ => self.completed(),
            }
        }
    }

    /// `read_file`, once the host has read `data`: writes the bytes to `$a1`
    /// and their number to `$v0`.
    pub open spec fn file_read(self, data: Seq<u8>) -> Dispatched {
        let stored = store_checked(self.executor.state.memory, self.line(5) as int, data);
        match stored.0 {
            Ok(_) => self.with_memory(stored.1).put(2, data.len() as u32).completed(),
            Err(error) => self.with_memory(stored.1).finished(ResultView::Exception(error)),
        }
    }
}

/// What the system calls keep between calls: the cancellation flag, the
/// input, the waiter for the synthesizer, the heap address, the generators
/// and the descriptors of the open files.
pub struct SyscallState {
    cancelled: bool,
    input_buffer: ByteChannel,
    sync_waiting: bool,
    heap_start: u32,
    generators: Generators,
    next_file: u32,
    files: HashSet<u32>,
}

impl View for SyscallState {
    type V = SyscallView;

    closed spec fn view(&self) -> SyscallView {
        SyscallView {
            cancelled: self.cancelled,
            input: self.input_buffer@,
            sync_waiting: self.sync_waiting,
            heap_start: self.heap_start,
            generators: self.generators@,
            next_file: self.next_file,
            files: self.files@,
        }
    }
}

/// The world that a debugger and a system call state make up.
pub open spec fn world(executor: &Executor, syscalls: &SyscallState) -> World {
    World { executor: executor@, syscalls: syscalls@ }
}

/// The outcome that a step and the values after it make up.
pub open spec fn outcome(step: SyscallStep, executor: &Executor, syscalls: &SyscallState) -> Dispatched {
    Dispatched { step: step@, world: world(executor, syscalls) }
}

impl SyscallState {
    /// The state of a fresh run: not cancelled, no input, the heap at
    /// `0x20000000`, `default` as generator 0, descriptors from 3 on.
    pub fn new(default: ChaCha8Rng) -> (state: SyscallState)
        ensures
            state@ == (SyscallView {
                cancelled: false,
                input: Seq::empty(),
                sync_waiting: false,
                heap_start: HEAP_START,
                generators: set![0u32],
                next_file: FIRST_FILE,
                files: Set::empty(),
            }),
    {
        SyscallState {
            cancelled: false,
            input_buffer: ByteChannel::new(),
            sync_waiting: false,
            heap_start: HEAP_START,
            generators: Generators::new(default),
            next_file: FIRST_FILE,
            files: HashSet::new(),
        }
    }

    /// Lifts the cancellation.
    pub fn renew(&mut self)
        ensures
            final(self)@ == (SyscallView { cancelled: false, ..old(self)@ }),
    {
        self.cancelled = false;
    }

    /// Cancels the run: a call that needs the host is aborted from now on.
    pub fn cancel(&mut self)
        ensures
            final(self)@ == (SyscallView { cancelled: true, ..old(self)@ }),
    {
        self.cancelled = true;
    }

    /// Whether the run is cancelled.
    pub fn is_cancelled(&self) -> (cancelled: bool)
        ensures
            cancelled == self@.cancelled,
    {
        self.cancelled
    }

    /// Puts `data` behind the input that waits.
    pub fn post_input(&mut self, data: Vec<u8>)
        ensures
            final(self)@ == (SyscallView { input: old(self)@.input + data@, ..old(self)@ }),
    {
        self.input_buffer.send(data);
    }

    /// Tells the waiting call that the note has ended. Returns whether a call
    /// was waiting; where none was, nothing changes.
    pub fn wake_sync(&mut self) -> (woken: bool)
        ensures
            woken == old(self)@.wake_sync().0,
            final(self)@ == old(self)@.wake_sync().1,
    {
        let woken: bool = self.sync_waiting;
        self.sync_waiting = false;
        woken
    }

    /// `print_string`: prints the string at `$a0`.
    pub fn print_string(&mut self, executor: &mut Executor) -> (step: SyscallStep)
        requires
            old(executor).wf(),
        ensures
            final(executor).wf(),
            outcome(step, final(executor), final(self)) == world(old(executor), old(self)).print_string(),
    {
        let address: u32 = executor.state.registers.line[4];
        match grab_string(address, &mut executor.state.memory, Some(PRINT_LIMIT)) {
            Ok(bytes) => SyscallStep::Pending(SyscallRequest::Print { text: text_of_bytes(&bytes) }),
            Err(error) => SyscallStep::Finished(SyscallResult::Exception(error)),
        }
    }

    /// `read_int`: reads a decimal number from the input into `$v0`, or asks
    /// for more input where the number has not ended.
    pub fn read_integer(&mut self, executor: &mut Executor) -> (step: SyscallStep)
        requires
            old(executor).wf(),
        ensures
            final(executor).wf(),
            outcome(step, final(executor), final(self)) == world(old(executor), old(self)).read_integer(),
    {
        let mut scanner = IntegerScanner::new();
        match self.input_buffer.read_until(&mut scanner) {
            Some(_) => {
                executor.state.registers.line[2] = scanner.finish();
                SyscallStep::Finished(SyscallResult::Completed)
            },
            None => SyscallStep::Pending(SyscallRequest::Input),
        }
    }

    /// Writes `data` and a zero byte to the address in `$a0`.
    pub fn write_string(&mut self, executor: &mut Executor, data: Vec<u8>) -> (step: SyscallStep)
        requires
            old(executor).wf(),
        ensures
            final(executor).wf(),
            outcome(step, final(executor), final(self)) == world(old(executor), old(self)).write_string(
                data@,
            ),
    {
        let address: u32 = executor.state.registers.line[4];
        let mut data = data;
        data.push(0);
        match store_bytes(&mut executor.state.memory, address, &data) {
            Ok(_) => SyscallStep::Finished(SyscallResult::Completed),
            Err(error) => SyscallStep::Finished(SyscallResult::Exception(error)),
        }
    }

    /// `read_string`: reads a line from the input to the address in `$a0`, or
    /// asks for more input where the line has not ended. With `$a1` at 1 or
    /// below it does nothing.
    pub fn read_string(&mut self, executor: &mut Executor) -> (step: SyscallStep)
        requires
            old(executor).wf(),
        ensures
            final(executor).wf(),
            outcome(step, final(executor), final(self)) == world(old(executor), old(self)).read_string(),
    {
        let count: u32 = executor.state.registers.line[5];
        if count <= 1 {
            return SyscallStep::Finished(SyscallResult::Completed);
        }
        let mut scanner = LineScanner::new((count - 1) as usize);
        match self.input_buffer.read_until(&mut scanner) {
            Some(read) => {
                let mut data = read;
                let length: usize = data.len();
                if length > 0 && data[length - 1] == 10 {
                    let _ = data.pop();
                    assert(data@ =~= line_data(read@));
                }
                self.write_string(executor, data)
            },
            None => SyscallStep::Pending(SyscallRequest::Input),
        }
    }

    /// `sbrk`: hands out the heap address and moves it on by `$a0`.
    pub fn alloc_heap(&mut self, executor: &mut Executor) -> (step: SyscallStep)
        requires
            old(executor).wf(),
        ensures
            final(executor).wf(),
            outcome(step, final(executor), final(self)) == world(old(executor), old(self)).alloc_heap(),
    {
        let count: u32 = executor.state.registers.line[4];
        let pointer: u32 = self.heap_start;
        self.heap_start = pointer.wrapping_add(count);
        executor.state.registers.line[2] = pointer;
        SyscallStep::Finished(SyscallResult::Completed)
    }

    /// `read_char`: reads one byte from the input into `$v0`, or asks for
    /// more input.
    pub fn read_character(&mut self, executor: &mut Executor) -> (step: SyscallStep)
        requires
            old(executor).wf(),
        ensures
            final(executor).wf(),
            outcome(step, final(executor), final(self)) == world(
                old(executor),
                old(self),
            ).read_character(),
    {
        match self.input_buffer.read(1) {
            Some(read) => {
                executor.state.registers.line[2] = read[0] as u32;
                SyscallStep::Finished(SyscallResult::Completed)
            },
            None => SyscallStep::Pending(SyscallRequest::Input),
        }
    }

    /// `open`: asks the host to open the file named at `$a0`.
    pub fn open_file(&mut self, executor: &mut Executor) -> (step: SyscallStep)
        requires
            old(executor).wf(),
        ensures
            final(executor).wf(),
            outcome(step, final(executor), final(self)) == world(old(executor), old(self)).open_file(),
    {
        let address: u32 = executor.state.registers.line[4];
        let flags: u32 = executor.state.registers.line[5];
        let bytes = match grab_string(address, &mut executor.state.memory, Some(PATH_LIMIT)) {
            Ok(bytes) => bytes,
            Err(error) => {
                return SyscallStep::Finished(SyscallResult::Exception(error));
            },
        };
        let path = text_of_bytes(&bytes);
        if flags == 0 || flags == 1 || flags == 9 {
            SyscallStep::Pending(SyscallRequest::Open { path, flags, descriptor: self.next_file })
        } else {
            let mut message = String::from_str("Invalid flags ");
            push_numeral(&mut message, flags, 10);
            message.append(" for opening file ");
            message.append(path.as_str());
            SyscallStep::Finished(SyscallResult::Failure(message))
        }
    }

    /// `read_file`: asks the host to read from file `$a0`.
    pub fn read_file(&mut self, executor: &mut Executor) -> (step: SyscallStep)
        requires
            old(executor).wf(),
        ensures
            final(executor).wf(),
            outcome(step, final(executor), final(self)) == world(old(executor), old(self)).read_file(),
    {
        broadcast use vstd::std_specs::hash::group_hash_axioms;

        let descriptor: u32 = executor.state.registers.line[4];
        let size: u32 = executor.state.registers.line[6];
        if self.files.contains(&descriptor) {
            SyscallStep::Pending(SyscallRequest::ReadFile { descriptor, size })
        } else {
            executor.state.registers.line[2] = 0xFFFF_FFFF;
            SyscallStep::Finished(SyscallResult::Completed)
        }
    }

    /// `write_file`: asks the host to write the bytes at `$a1` to file `$a0`.
    pub fn write_file(&mut self, executor: &mut Executor) -> (step: SyscallStep)
        requires
            old(executor).wf(),
        ensures
            final(executor).wf(),
            outcome(step, final(executor), final(self)) == world(old(executor), old(self)).write_file(),
    {
        broadcast use vstd::std_specs::hash::group_hash_axioms;

        let descriptor: u32 = executor.state.registers.line[4];
        let address: u32 = executor.state.registers.line[5];
        let size: u32 = executor.state.registers.line[6];
        if !self.files.contains(&descriptor) {
            executor.state.registers.line[2] = 0xFFFF_FFFF;
            return SyscallStep::Finished(SyscallResult::Completed);
        }
        match load_bytes(&mut executor.state.memory, address, size) {
            Ok(data) => SyscallStep::Pending(SyscallRequest::WriteFile { descriptor, data }),
            Err(error) => SyscallStep::Finished(SyscallResult::Exception(error)),
        }
    }

    /// `close`: forgets file `$a0` and asks the host to close it.
    pub fn close_file(&mut self, executor: &mut Executor) -> (step: SyscallStep)
        requires
            old(executor).wf(),
        ensures
            final(executor).wf(),
            outcome(step, final(executor), final(self)) == world(old(executor), old(self)).close_file(),
    {
        broadcast use vstd::std_specs::hash::group_hash_axioms;

        let descriptor: u32 = executor.state.registers.line[4];
        if self.files.remove(&descriptor) {
            SyscallStep::Pending(SyscallRequest::Close { descriptor })
        } else {
            assert(self.files@ =~= old(self).files@);
            SyscallStep::Finished(SyscallResult::Completed)
        }
    }

    /// `seed_rng`: puts a generator seeded with `$a1` under number `$a0`.
    pub fn set_seed(&mut self, executor: &mut Executor) -> (step: SyscallStep)
        requires
            old(executor).wf(),
        ensures
            final(executor).wf(),
            outcome(step, final(executor), final(self)) == world(old(executor), old(self)).set_seed(),
    {
        let id: u32 = executor.state.registers.line[4];
        let seed: u32 = executor.state.registers.line[5];
        self.generators.seed(id, seed as u64);
        SyscallStep::Finished(SyscallResult::Completed)
    }

    /// The failure of a draw from a generator that was never seeded.
    pub fn fail_generator(id: u32) -> (result: SyscallResult)
        ensures
            result@ == ResultView::Failure(no_generator_message(id)),
    {
        let mut message = String::from_str("No generator initialized for id ");
        push_numeral(&mut message, id, 10);
        message.append(
            ", try using the default $a0 = 0 generator or create one with syscall 40.",
        );
        SyscallResult::Failure(message)
    }

    /// `rand_int`: draws 32 bits from generator `$a0` into `$a0`.
    pub fn random_int(&mut self, executor: &mut Executor) -> (step: SyscallStep)
        requires
            old(executor).wf(),
        ensures
            final(executor).wf(),
            outcome(step, final(executor), final(self)) == world(old(executor), old(self)).random_int(
                final(executor).state.registers.line[4],
            ),
    {
        let id: u32 = executor.state.registers.line[4];
        match self.generators.draw(id) {
            Some(value) => {
                executor.state.registers.line[4] = value;
                SyscallStep::Finished(SyscallResult::Completed)
            },
            None => SyscallStep::Finished(Self::fail_generator(id)),
        }
    }

    /// `rand_int_ranged`: draws a value below `$a1` from generator `$a0` into
    /// `$a0`.
    pub fn random_int_ranged(&mut self, executor: &mut Executor) -> (step: SyscallStep)
        requires
            old(executor).wf(),
        ensures
            final(executor).wf(),
            outcome(step, final(executor), final(self)) == world(
                old(executor),
                old(self),
            ).random_int_ranged(final(executor).state.registers.line[4]),
            step@ == StepView::Finished(ResultView::Completed)
                ==> final(executor).state.registers.line[4] < old(executor).state.registers.line[5],
    {
        let id: u32 = executor.state.registers.line[4];
        let max: u32 = executor.state.registers.line[5];
        if !self.generators.has(id) {
            return SyscallStep::Finished(Self::fail_generator(id));
        }
        if max == 0 {
            return SyscallStep::Finished(
                SyscallResult::Failure(
                    String::from_str(
                        "No random number lies below the bound 0 in $a1, set $a1 to a bound above 0.",
                    ),
                ),
            );
        }
        match self.generators.draw_below(id, max) {
            Some(value) => {
                executor.state.registers.line[4] = value;
                SyscallStep::Finished(SyscallResult::Completed)
            },
            None => SyscallStep::Finished(Self::fail_generator(id)),
        }
    }

    /// Carries out the system call with number `code`, as far as it goes
    /// without the host. Where the call draws a random number, the value
    /// drawn is the one that `$a0` holds afterwards.
    pub fn dispatch(&mut self, executor: &mut Executor, code: u32) -> (step: SyscallStep)
        requires
            old(executor).wf(),
        ensures
            final(executor).wf(),
            outcome(step, final(executor), final(self)) == world(old(executor), old(self)).dispatch(
                code,
                final(executor).state.registers.line[4],
            ),
            code == 42 && step@ == StepView::Finished(ResultView::Completed)
                ==> final(executor).state.registers.line[4] < old(executor).state.registers.line[5],
    {
        let needs_host: bool = code == 1 || code == 4 || code == 5 || code == 8 || (11 <= code
            && code <= 16) || (30 <= code && code <= 36);
        if self.cancelled && needs_host {
            return SyscallStep::Finished(SyscallResult::Aborted);
        }
        let a0: u32 = executor.state.registers.line[4];
        match code {
            1 => SyscallStep::Pending(SyscallRequest::Print { text: signed_decimal(a0) }),
            4 => self.print_string(executor),
            5 => self.read_integer(executor),
            8 => self.read_string(executor),
            9 => self.alloc_heap(executor),
            10 => SyscallStep::Finished(SyscallResult::Terminated(0)),
            11 => SyscallStep::Pending(
                SyscallRequest::Print { text: text_of_char((a0 % 0x100) as u8 as char) },
            ),
            12 => self.read_character(executor),
            13 => self.open_file(executor),
            14 => self.read_file(executor),
            15 => self.write_file(executor),
            16 => self.close_file(executor),
            17 => SyscallStep::Finished(SyscallResult::Terminated(a0)),
            30 => SyscallStep::Pending(SyscallRequest::Time),
            31 => SyscallStep::Pending(
                SyscallRequest::Play { request: midi_request(&executor.state.registers), sync: false },
            ),
            32 => SyscallStep::Pending(SyscallRequest::Sleep { millis: a0 }),
            33 => SyscallStep::Pending(
                SyscallRequest::Play { request: midi_request(&executor.state.registers), sync: true },
            ),
            34 => SyscallStep::Pending(SyscallRequest::Print { text: hexadecimal(a0) }),
            35 => SyscallStep::Pending(SyscallRequest::Print { text: binary(a0) }),
            36 => SyscallStep::Pending(SyscallRequest::Print { text: unsigned_decimal(a0) }),
            40 => self.set_seed(executor),
            41 => self.random_int(executor),
            42 => self.random_int_ranged(executor),
            2 | 3 | 6 | 7 | 43 | 44 => SyscallStep::Finished(SyscallResult::Unimplemented(code)),
            _ => SyscallStep::Finished(SyscallResult::Unknown(code)),
        }
    }

    /// `read_file`, once the host has read `data`: writes the bytes to the
    /// address in `$a1` and their number to `$v0`.
    pub fn file_read(&mut self, executor: &mut Executor, data: Vec<u8>) -> (step: SyscallStep)
        requires
            old(executor).wf(),
            data@.len() <= u32::MAX,
        ensures
            final(executor).wf(),
            outcome(step, final(executor), final(self)) == world(old(executor), old(self)).file_read(
                data@,
            ),
    {
        let address: u32 = executor.state.registers.line[5];
        match store_bytes_checked(&mut executor.state.memory, address, &data) {
            Ok(_) => {
                executor.state.registers.line[2] = data.len() as u32;
                SyscallStep::Finished(SyscallResult::Completed)
            },
            Err(error) => SyscallStep::Finished(SyscallResult::Exception(error)),
        }
    }

    /// Notes that a note plays, and tells what follows.
    fn sounding(&mut self, sync: bool) -> (step: SyscallStep)
        ensures
            step@ == if sync {
                StepView::Pending(RequestView::WaitSync)
            } else {
                StepView::Finished(ResultView::Completed)
            },
            final(self)@ == if sync {
                SyscallView { sync_waiting: true, ..old(self)@ }
            } else {
                old(self)@
            },
    {
        if sync {
            self.sync_waiting = true;
            SyscallStep::Pending(SyscallRequest::WaitSync)
        } else {
            SyscallStep::Finished(SyscallResult::Completed)
        }
    }

    /// Goes on with a call that needed the host, now that the host has
    /// answered `request` with `reply`, whatever the reply is.
    pub fn complete(
        &mut self,
        executor: &mut Executor,
        request: SyscallRequest,
        reply: SyscallReply,
    ) -> (step: SyscallStep)
        requires
            old(executor).wf(),
        ensures
            final(executor).wf(),
            outcome(step, final(executor), final(self)) == world(old(executor), old(self)).complete(
                request@,
                reply@,
                final(executor).state.registers.line[4],
            ),
    {
        broadcast use vstd::std_specs::hash::group_hash_axioms;

        if let SyscallReply::Cancelled = reply {
            self.sync_waiting = false;
            return SyscallStep::Finished(SyscallResult::Aborted);
        }
        match request {
            SyscallRequest::Input => {
                let code: u32 = executor.state.registers.line[2];
                self.dispatch(executor, code)
            },
            SyscallRequest::Open { path, flags, descriptor } => {
                if let SyscallReply::Opened(true) = reply {
                    self.next_file = descriptor.wrapping_add(1);
                    self.files.insert(descriptor);
                    executor.state.registers.line[2] = descriptor;
                } else {
                    executor.state.registers.line[2] = 0xFFFF_FFFF;
                }
                SyscallStep::Finished(SyscallResult::Completed)
            },
            SyscallRequest::ReadFile { descriptor, size } => {
                match reply {
                    SyscallReply::FileRead(Some(bytes)) => {
                        let mut data = bytes;
                        if data.len() > size as usize {
                            data.truncate(size as usize);
                        }
                        assert(data@ =~= if bytes@.len() > size {
                            bytes@.take(size as int)
                        } else {
                            bytes@
                        });
                        self.file_read(executor, data)
                    },
                    _ => {
                        executor.state.registers.line[2] = 0xFFFF_FFFE;
                        SyscallStep::Finished(SyscallResult::Completed)
                    },
                }
            },
            SyscallRequest::WriteFile { descriptor, data } => {
                match reply {
                    SyscallReply::FileWritten(Some(count)) => {
                        executor.state.registers.line[2] = count;
                    },
                    _ => {
                        executor.state.registers.line[2] = 0xFFFF_FFFE;
                    },
                }
                SyscallStep::Finished(SyscallResult::Completed)
            },
            SyscallRequest::Time => {
                match reply {
                    SyscallReply::Time(Some(millis)) => {
                        executor.state.registers.line[4] = (millis % 0x1_0000_0000) as u32;
                        executor.state.registers.line[5] = (millis / 0x1_0000_0000) as u32;
                        SyscallStep::Finished(SyscallResult::Completed)
                    },
                    _ => SyscallStep::Finished(
                        SyscallResult::Failure(
                            String::from_str("System clock failed to get current time."),
                        ),
                    ),
                }
            },
            SyscallRequest::Play { request: note, sync } => {
                match reply {
                    SyscallReply::Played(true) => self.sounding(sync),
                    SyscallReply::Played(false) => {
                        let install = SyscallRequest::Install { request: note, sync };
                        if sync {
                            SyscallStep::Pending(install)
                        } else {
                            SyscallStep::Detached(install)
                        }
                    },
                    _ => SyscallStep::Finished(SyscallResult::Completed),
                }
            },
            SyscallRequest::Install { .. } => {
                match follow_up(&request, &reply) {
                    Some(next) => SyscallStep::Pending(next),
                    None => SyscallStep::Finished(SyscallResult::Completed),
                }
            },
            SyscallRequest::Sound { request: note, sync } => self.sounding(sync),
            SyscallRequest::WaitSync => {
                self.sync_waiting = false;
                SyscallStep::Finished(SyscallResult::Completed)
            },
            _ => SyscallStep::Finished(SyscallResult::Completed),
        }
    }
}

impl SyscallView {
    /// What `wake_sync` returns, and what the system calls keep after it.
    pub open spec fn wake_sync(self) -> (bool, SyscallView) {
        (self.sync_waiting, SyscallView { sync_waiting: false, ..self })
    }
}

/// Two calls of `sbrk` in a row hand out addresses that lie the size of the
/// first block apart, modulo 2^32.
pub proof fn lemma_sbrk_blocks_are_consecutive(before: World, first: u32, second: u32)
    ensures
        ({
            let one = before.put(4, first).alloc_heap().world;
            let two = one.put(4, second).alloc_heap().world;
            &&& one.line(2) == before.syscalls.heap_start
            &&& two.line(2) == wrap(one.line(2) + first)
            &&& two.syscalls.heap_start == wrap(two.line(2) + second)
        }),
{
    broadcast use vstd::array::axiom_spec_array_update;

}

/// A call that waits for a note to end is released by `wake_sync`: from then
/// on nothing waits, the call ends well once the host hands it on, and more
/// calls of `wake_sync` find no waiter and change nothing.
pub proof fn lemma_wake_sync_releases_once(before: World, drawn: u32)
    requires
        before.syscalls.sync_waiting,
    ensures
        before.syscalls.wake_sync().0,
        !before.syscalls.wake_sync().1.sync_waiting,
        before.syscalls.wake_sync().1.wake_sync() == (false, before.syscalls.wake_sync().1),
        ({
            let woken = World { syscalls: before.syscalls.wake_sync().1, ..before };
            woken.complete(RequestView::WaitSync, ReplyView::Done, drawn) == woken.completed()
        }),
{
}

/// `read_string` with room for the zero byte alone, or for nothing, does
/// nothing: the call ends well at once, whatever waits in the input and
/// wherever `$a0` points, and it reads no input and changes no byte, no
/// register and no journal.
pub proof fn lemma_read_string_without_room(before: World, drawn: u32)
    requires
        before.line(5) <= 1,
    ensures
        before.read_string() == before.completed(),
        !before.syscalls.cancelled ==> before.dispatch(8, drawn) == before.completed(),
{
}

/// How a note is played. A note whose instrument is installed plays at once.
/// Where it is not, a call that does not wait for its note ends at once and
/// leaves the installing beside the run, and a call that waits asks for the
/// installing next. After the installing worked the note is played, and a
/// call that waited then waits for the note to end; after it failed the call
/// ends well without a note.
pub proof fn lemma_note_is_played_in_steps(before: World, note: MidiRequest, sync: bool, drawn: u32)
    ensures
        before.complete(RequestView::Play { request: note, sync }, ReplyView::Played(true), drawn)
            == before.sounding(sync),
        before.complete(
            RequestView::Play { request: note, sync: false },
            ReplyView::Played(false),
            drawn,
        ) == before.detached(RequestView::Install { request: note, sync: false }),
        before.complete(
            RequestView::Play { request: note, sync: true },
            ReplyView::Played(false),
            drawn,
        ) == before.pending(RequestView::Install { request: note, sync: true }),
        before.complete(
            RequestView::Install { request: note, sync },
            ReplyView::Installed(true),
            drawn,
        ) == before.pending(RequestView::Sound { request: note, sync }),
        before.complete(
            RequestView::Install { request: note, sync },
            ReplyView::Installed(false),
            drawn,
        ) == before.completed(),
        before.complete(RequestView::Sound { request: note, sync }, ReplyView::Done, drawn)
            == before.sounding(sync),
        follows(RequestView::Install { request: note, sync }, ReplyView::Installed(true)) == Some(
            RequestView::Sound { request: note, sync },
        ),
        follows(RequestView::Sound { request: note, sync }, ReplyView::Done) is None,
{
}

} // verus!
