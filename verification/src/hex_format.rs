//! The hex format of memory images: `v3.0 hex words plain`.
//!
//! The text starts with the line `v3.0 hex words plain`. The words follow in
//! hexadecimal, sixteen to a line, with one space between them. A word below
//! `0x100` shows as two digits, one below `0x10000` as four, one below
//! `0x100000000` as eight, any other as sixteen.

use vstd::prelude::*;
use vstd::string::StringExecFns;
use byteorder::ByteOrder;
use crate::memory::le_u32;
use crate::text::{padded_hex, push_hex_padded};

verus! {

/// How the bytes of an image make up the words of its hex text.
#[derive(Clone, Copy, Debug, PartialEq, Eq, Structural)]
pub enum HexEncoding {
    /// Each byte is a word.
    Byte,
    /// Four bytes make a word, the lowest first.
    Little32,
    /// Four bytes make a word, the highest first.
    Big32,
}

/// The number of words on a line.
pub const ITEMS_PER_LINE: usize = 16;

/// `byteorder::LittleEndian::read_u32`: the value of the first four bytes of
/// `chunk`, the lowest byte first. The outside function panics on fewer than
/// four bytes.
#[verifier::external_body]
fn read_little(chunk: &[u8]) -> (word: u32)
    requires
        chunk@.len() >= 4,
    ensures
        word == le_u32(chunk@[0], chunk@[1], chunk@[2], chunk@[3]),
{
    byteorder::LittleEndian::read_u32(chunk)
}

/// `byteorder::BigEndian::read_u32`: the value of the first four bytes of
/// `chunk`, the highest byte first. The outside function panics on fewer
/// than four bytes.
#[verifier::external_body]
fn read_big(chunk: &[u8]) -> (word: u32)
    requires
        chunk@.len() >= 4,
    ensures
        word == le_u32(chunk@[3], chunk@[2], chunk@[1], chunk@[0]),
{
    byteorder::BigEndian::read_u32(chunk)
}

/// Word `index` of `data` in a 32-bit encoding.
pub open spec fn word_at(data: Seq<u8>, index: int, big: bool) -> u64 {
    if big {
        le_u32(data[4 * index + 3], data[4 * index + 2], data[4 * index + 1], data[4 * index]) as u64
    } else {
        le_u32(data[4 * index], data[4 * index + 1], data[4 * index + 2], data[4 * index + 3]) as u64
    }
}

/// The words of `data` in an encoding.
pub open spec fn words_of(data: Seq<u8>, encoding: HexEncoding) -> Seq<u64> {
    match encoding {
        HexEncoding::Byte => Seq::new(data.len(), |i: int| data[i] as u64),
        HexEncoding::Little32 => Seq::new(data.len() / 4, |i: int| word_at(data, i, false)),
        HexEncoding::Big32 => Seq::new(data.len() / 4, |i: int| word_at(data, i, true)),
    }
}

/// Whether `data` can be put into words: a 32-bit encoding takes whole words
/// only.
pub open spec fn encodable(data: Seq<u8>, encoding: HexEncoding) -> bool {
    encoding is Byte || data.len() % 4 == 0
}

/// The 32-bit words of `data`, the highest byte first where `big` is set.
pub fn read_with_encoding(data: &[u8], big: bool) -> (words: Vec<u64>)
    requires
        data@.len() % 4 == 0,
    ensures
        words@ == Seq::new(data@.len() / 4, |i: int| word_at(data@, i, big)),
{
    let mut words: Vec<u64> = Vec::new();
    let mut index: usize = 0;
    while index < data.len()
        invariant
            index <= data@.len(),
            index % 4 == 0,
            data@.len() % 4 == 0,
            words@ == Seq::new(index as nat / 4, |i: int| word_at(data@, i, big)),
        decreases data@.len() - index,
    {
        let chunk = vstd::slice::slice_subrange(data, index, index + 4);
        let word: u32 = if big {
            read_big(chunk)
        } else {
            read_little(chunk)
        };
        words.push(word as u64);
        proof {
            let done = index as int / 4;
            assert(chunk@[0] == data@[4 * done]);
            assert(chunk@[1] == data@[4 * done + 1]);
            assert(chunk@[2] == data@[4 * done + 2]);
            assert(chunk@[3] == data@[4 * done + 3]);
            assert(words@ =~= Seq::new((index + 4) as nat / 4, |i: int| word_at(data@, i, big)));
        }
        index = index + 4;
    }
    words
}

/// The digits that a word shows with.
pub open spec fn word_width(value: u64) -> nat {
    if value < 0x100 {
        2
    } else if value < 0x1_0000 {
        4
    } else if value < 0x1_0000_0000 {
        8
    } else {
        16
    }
}

/// What stands before word `index`: nothing before the first, a line break
/// before the first of a line, a space before any other.
pub open spec fn separator(index: int) -> Seq<char> {
    if index == 0 {
        ""@
    } else if index % 16 == 0 {
        "\n"@
    } else {
        " "@
    }
}

/// The text of the first `count` words.
pub open spec fn hex_body(data: Seq<u64>, count: nat) -> Seq<char>
    decreases count,
{
    if count == 0 || count > data.len() {
        Seq::empty()
    } else {
        hex_body(data, (count - 1) as nat) + separator(count - 1) + padded_hex(
            data[count - 1] as nat,
            word_width(data[count - 1]),
        )
    }
}

/// The hex text of the words `data`.
pub open spec fn hex_text(data: Seq<u64>) -> Seq<char> {
    "v3.0 hex words plain\n"@ + hex_body(data, data.len())
}

/// Writes the words `data` as hex text.
pub fn encode_hex(data: &[u64]) -> (text: String)
    ensures
        text@ == hex_text(data@),
{
    let mut text = String::from_str("v3.0 hex words plain\n");
    let mut index: usize = 0;
    while index < data.len()
        invariant
            index <= data@.len(),
            text@ == "v3.0 hex words plain\n"@ + hex_body(data@, index as nat),
        decreases data@.len() - index,
    {
        let ghost before = text@;
        text.append(if index == 0 {
            ""
        } else if index % ITEMS_PER_LINE == 0 {
            "\n"
        } else {
            " "
        });
        let value: u64 = data[index];
        let width: usize = if value < 0x100 {
            2
        } else if value < 0x1_0000 {
            4
        } else if value < 0x1_0000_0000 {
            8
        } else {
            16
        };
        push_hex_padded(&mut text, value, width);
        proof {
            assert(text@ =~= "v3.0 hex words plain\n"@ + (hex_body(data@, index as nat) + separator(
                index as int,
            ) + padded_hex(value as nat, word_width(value))));
        }
        index = index + 1;
    }
    text
}

/// Writes the bytes `data` as hex text, put into words as `encoding` says.
pub fn encode_hex_with_encoding(data: &[u8], encoding: HexEncoding) -> (text: String)
    requires
        encodable(data@, encoding),
    ensures
        text@ == hex_text(words_of(data@, encoding)),
{
    let words: Vec<u64> = match encoding {
        HexEncoding::Byte => {
            let mut words: Vec<u64> = Vec::new();
            let mut index: usize = 0;
            while index < data.len()
                invariant
                    index <= data@.len(),
                    words@ == Seq::new(index as nat, |i: int| data@[i] as u64),
                decreases data@.len() - index,
            {
                words.push(data[index] as u64);
                index = index + 1;
                assert(words@ =~= Seq::new(index as nat, |i: int| data@[i] as u64));
            }
            words
        },
        HexEncoding::Little32 => read_with_encoding(data, false),
        HexEncoding::Big32 => read_with_encoding(data, true),
    };
    encode_hex(words.as_slice())
}

} // verus!
