//! Exporting the regions of an assembled program.
//!
//! A program is exported either as one image, in which every region lies at
//! its address and the gaps are zero, or region by region. Either way the
//! bytes go out in base64, as they are or as hex text.

use vstd::prelude::*;
use vstd::string::StringExecFns;
use base64::Engine;
use crate::device::{Binary, RawRegion};
use crate::hex_format::{encodable, encode_hex_with_encoding, hex_text, words_of, HexEncoding};
use crate::text::{numeral, push_numeral};

verus! {

/// An exported region: its name and its bytes in base64.
#[derive(Debug)]
pub struct HexRegion {
    /// The name: what the region is, its address and its flags.
    pub name: String,
    /// The bytes, in base64.
    pub data: String,
}

/// What goes into the base64 text.
#[derive(Clone, Copy, Debug, PartialEq, Eq, Structural)]
pub enum AssembleRegionsKind {
    /// The bytes themselves.
    Plain,
    /// The hex text of the bytes.
    HexV3,
}

/// How the regions are exported.
#[derive(Clone, Copy, Debug)]
pub struct AssembleRegionsOptions {
    /// What goes into the base64 text.
    pub kind: AssembleRegionsKind,
    /// Whether the regions go out as one image.
    pub continuous: bool,
    /// How the bytes make up the words of the hex text.
    pub encoding: HexEncoding,
}

/// The exported program.
#[derive(Debug)]
pub enum AssembledRegions {
    /// One image, in base64.
    Binary(String),
    /// The regions, one by one.
    Split(Vec<HexRegion>),
}

/// The base64 text of `data` in the standard alphabet, with padding.
pub uninterp spec fn base64_text(data: Seq<u8>) -> Seq<char>;

/// `base64::engine::general_purpose::STANDARD.encode`: the base64 text of
/// `data`. The outside function panics where the length of the text does not
/// fit a `usize`, which cannot happen below half of the range.
#[verifier::external_body]
fn base64_standard(data: &[u8]) -> (text: String)
    requires
        data@.len() <= usize::MAX / 2,
    ensures
        text@ == base64_text(data@),
{
    base64::engine::general_purpose::STANDARD.encode(data)
}

/// The base64 text of `data`, or `None` where `data` is too long to have one.
pub fn base64_checked(data: &[u8]) -> (text: Option<String>)
    ensures
        match text {
            Some(encoded) => data@.len() <= usize::MAX / 2 && encoded@ == base64_text(data@),
            None => data@.len() > usize::MAX / 2,
        },
{
    if data.len() <= usize::MAX / 2 {
        Some(base64_standard(data))
    } else {
        None
    }
}

/// The flags of a region as three letters: `x`, `r` and `w` where the region
/// is executable, readable and writable, `o` where it is not.
pub open spec fn flags_text(region: RawRegion) -> Seq<char> {
    (if region.flags.executable {
        "x"@
    } else {
        "o"@
    }) + (if region.flags.readable {
        "r"@
    } else {
        "o"@
    }) + (if region.flags.writable {
        "w"@
    } else {
        "o"@
    })
}

/// The name of a region: `entry`, `code` or `data`, then its address in
/// hexadecimal, then its flags.
pub open spec fn region_name_text(region: RawRegion, entry: bool) -> Seq<char> {
    (if entry {
        "entry"@
    } else if region.flags.executable {
        "code"@
    } else {
        "data"@
    }) + "_"@ + numeral(region.address as nat, 16) + "_"@ + flags_text(region)
}

/// The name of a region.
pub fn region_name(region: &RawRegion, entry: bool) -> (name: String)
    ensures
        name@ == region_name_text(*region, entry),
{
    let mut name = String::from_str(if entry {
        "entry"
    } else if region.flags.executable {
        "code"
    } else {
        "data"
    });
    name.append("_");
    push_numeral(&mut name, region.address, 16);
    name.append("_");
    let ghost before = name@;
    name.append(if region.flags.executable {
        "x"
    } else {
        "o"
    });
    name.append(if region.flags.readable {
        "r"
    } else {
        "o"
    });
    name.append(if region.flags.writable {
        "w"
    } else {
        "o"
    });
    assert(name@ =~= before + flags_text(*region));
    name
}

/// The bytes that go into the base64 text of `data`: `data` itself, or the
/// UTF-8 form of its hex text.
pub open spec fn payload(data: Seq<u8>, options: AssembleRegionsOptions) -> Seq<u8> {
    match options.kind {
        AssembleRegionsKind::Plain => data,
        AssembleRegionsKind::HexV3 => vstd::utf8::encode_utf8(
            hex_text(words_of(data, options.encoding)),
        ),
    }
}

/// Whether `data` can be exported: as hex text it must make up whole words,
/// and what goes into the base64 text must not be too long.
pub open spec fn exportable(data: Seq<u8>, options: AssembleRegionsOptions) -> bool {
    &&& options.kind is HexV3 ==> encodable(data, options.encoding)
    &&& payload(data, options).len() <= usize::MAX / 2
}

/// The base64 text of `data`, or `None` where `data` cannot be exported.
pub fn encode_region_data(data: &[u8], options: &AssembleRegionsOptions) -> (text: Option<String>)
    ensures
        match text {
            Some(encoded) => exportable(data@, *options) && encoded@ == base64_text(
                payload(data@, *options),
            ),
            None => !exportable(data@, *options),
        },
{
    match options.kind {
        AssembleRegionsKind::HexV3 => {
            let whole: bool = match options.encoding {
                HexEncoding::Byte => true,
                _ => data.len() % 4 == 0,
            };
            if !whole {
                return None;
            }
            let hex = encode_hex_with_encoding(data, options.encoding);
            base64_checked(hex.as_str().as_bytes())
        },
        AssembleRegionsKind::Plain => base64_checked(data),
    }
}

/// The image of the first `count` regions: each region that has bytes lies
/// at its address, a later one over an earlier one, and the gaps are zero.
pub open spec fn image(regions: Seq<RawRegion>, count: nat) -> Seq<u8>
    decreases count,
{
    if count == 0 || count > regions.len() {
        Seq::empty()
    } else {
        let before = image(regions, (count - 1) as nat);
        let region = regions[count - 1];
        let end = region.address + region.data@.len();
        if region.data@.len() == 0 {
            before
        } else {
            Seq::new(
                if end > before.len() {
                    end as nat
                } else {
                    before.len()
                },
                |i: int|
                    if region.address <= i < end {
                        region.data@[i - region.address]
                    } else if i < before.len() {
                        before[i]
                    } else {
                        0u8
                    },
            )
        }
    }
}

/// Whether the image of the regions fits into memory.
pub open spec fn image_fits(regions: Seq<RawRegion>) -> bool {
    forall|i: int|
        0 <= i < regions.len() ==> (#[trigger] regions[i]).address + regions[i].data@.len()
            <= usize::MAX
}

/// The image of a program.
pub fn build_image(binary: &Binary) -> (output: Vec<u8>)
    requires
        image_fits(binary.regions@),
    ensures
        output@ == image(binary.regions@, binary.regions@.len()),
{
    let mut output: Vec<u8> = Vec::new();
    let mut index: usize = 0;
    while index < binary.regions.len()
        invariant
            index <= binary.regions@.len(),
            image_fits(binary.regions@),
            output@ == image(binary.regions@, index as nat),
        decreases binary.regions@.len() - index,
    {
        let region = &binary.regions[index];
        assert(region == binary.regions@[index as int]);
        if region.data.len() > 0 {
            let ghost before = output@;
            let start: usize = region.address as usize;
            let end: usize = start + region.data.len();
            while output.len() < end
                invariant
                    before.len() <= output@.len(),
                    output@.len() <= end || output@.len() == before.len(),
                    forall|i: int| 0 <= i < before.len() ==> output@[i] == before[i],
                    forall|i: int| before.len() <= i < output@.len() ==> output@[i] == 0,
                decreases end - output@.len(),
            {
                output.push(0);
            }
            let ghost grown = output@;
            let mut offset: usize = 0;
            while offset < region.data.len()
                invariant
                    offset <= region.data@.len(),
                    end == start + region.data@.len(),
                    end <= output@.len(),
                    output@.len() == grown.len(),
                    forall|i: int| 0 <= i < output@.len() && !(start <= i < start + offset) ==> output@[i]
                        == grown[i],
                    forall|i: int| start <= i < start + offset ==> output@[i] == region.data@[i - start],
                decreases region.data@.len() - offset,
            {
                output[start + offset] = region.data[offset];
                offset = offset + 1;
            }
            proof {
                let next = image(binary.regions@, (index + 1) as nat);
                assert(before == image(binary.regions@, index as nat));
                assert(grown.len() == if end > before.len() {
                    end as nat
                } else {
                    before.len()
                });
                assert(output@.len() == next.len());
                assert forall|i: int| 0 <= i < output@.len() implies output@[i] == next[i] by {
                    if start <= i < end {
                        assert(output@[i] == region.data@[i - start]);
                    } else {
                        assert(output@[i] == grown[i]);
                    }
                }
                assert(output@ =~= next);
            }
        }
        index = index + 1;
    }
    output
}

/// Exports a program as one image, or `None` where the image cannot be
/// exported.
pub fn export_continuous(binary: &Binary, options: &AssembleRegionsOptions) -> (text: Option<String>)
    requires
        image_fits(binary.regions@),
    ensures
        match text {
            Some(encoded) => exportable(image(binary.regions@, binary.regions@.len()), *options)
                && encoded@ == base64_text(
                payload(image(binary.regions@, binary.regions@.len()), *options),
            ),
            None => !exportable(image(binary.regions@, binary.regions@.len()), *options),
        },
{
    let output = build_image(binary);
    encode_region_data(output.as_slice(), options)
}

/// The regions among the first `count` that have bytes.
pub open spec fn filled(regions: Seq<RawRegion>, count: nat) -> Seq<RawRegion>
    decreases count,
{
    if count == 0 || count > regions.len() {
        Seq::empty()
    } else if regions[count - 1].data@.len() == 0 {
        filled(regions, (count - 1) as nat)
    } else {
        filled(regions, (count - 1) as nat).push(regions[count - 1])
    }
}

/// Whether `list` holds the regions `regions` as they are exported: each
/// under its name, with its bytes in base64.
pub open spec fn exported_as(
    list: Seq<HexRegion>,
    regions: Seq<RawRegion>,
    entry: u32,
    options: AssembleRegionsOptions,
) -> bool {
    &&& list.len() == regions.len()
    &&& forall|i: int|
        #![trigger list[i]]
        #![trigger regions[i]]
        0 <= i < list.len() ==> {
            &&& exportable(regions[i].data@, options)
            &&& list[i].name@ == region_name_text(regions[i], regions[i].address == entry)
            &&& list[i].data@ == base64_text(payload(regions[i].data@, options))
        }
}

/// An exported list stays one when a region joins it as it is exported.
proof fn lemma_exported_push(
    list: Seq<HexRegion>,
    regions: Seq<RawRegion>,
    entry: u32,
    options: AssembleRegionsOptions,
    item: HexRegion,
    region: RawRegion,
)
    requires
        exported_as(list, regions, entry, options),
        exportable(region.data@, options),
        item.name@ == region_name_text(region, region.address == entry),
        item.data@ == base64_text(payload(region.data@, options)),
    ensures
        exported_as(list.push(item), regions.push(region), entry, options),
{
    let longer = list.push(item);
    let more = regions.push(region);
    assert forall|i: int|
        #![trigger longer[i]]
        #![trigger more[i]]
        0 <= i < longer.len() implies {
        &&& exportable(more[i].data@, options)
        &&& longer[i].name@ == region_name_text(more[i], more[i].address == entry)
        &&& longer[i].data@ == base64_text(payload(more[i].data@, options))
    } by {
        if i < list.len() {
            assert(longer[i] == list[i]);
            assert(more[i] == regions[i]);
        }
    }
}

/// Exports a program region by region: each region that has bytes, under its
/// name. `None` where one of them cannot be exported.
pub fn export_regions(binary: &Binary, options: &AssembleRegionsOptions) -> (exported: Option<
    Vec<HexRegion>,
>)
    ensures
        match exported {
            Some(list) => exported_as(
                list@,
                filled(binary.regions@, binary.regions@.len()),
                binary.entry,
                *options,
            ),
            None => exists|i: int|
                0 <= i < binary.regions@.len() && (#[trigger] binary.regions@[i]).data@.len() > 0
                    && !exportable(binary.regions@[i].data@, *options),
        },
{
    let mut list: Vec<HexRegion> = Vec::new();
    let mut index: usize = 0;
    while index < binary.regions.len()
        invariant
            index <= binary.regions@.len(),
            exported_as(list@, filled(binary.regions@, index as nat), binary.entry, *options),
        decreases binary.regions@.len() - index,
    {
        let region = &binary.regions[index];
        assert(region == binary.regions@[index as int]);
        let ghost earlier = filled(binary.regions@, index as nat);
        let ghost regions = filled(binary.regions@, (index + 1) as nat);
        if region.data.len() > 0 {
            let data = match encode_region_data(region.data.as_slice(), options) {
                Some(data) => data,
                None => {
                    return None;
                },
            };
            let name = region_name(region, region.address == binary.entry);
            let ghost before = list@;
            list.push(HexRegion { name, data });
            proof {
                assert(regions == earlier.push(*region));
                lemma_exported_push(before, earlier, binary.entry, *options, list@.last(), *region);
                assert(list@ == before.push(list@.last()));
            }
        } else {
            assert(regions == earlier);
        }
        index = index + 1;
    }
    Some(list)
}

/// Exports an assembled program as the options say: as one image or region
/// by region. `None` where it cannot be exported.
pub fn assemble_regions(binary: &Binary, options: AssembleRegionsOptions) -> (exported: Option<
    AssembledRegions,
>)
    requires
        image_fits(binary.regions@),
    ensures
        options.continuous ==> match exported {
            Some(AssembledRegions::Binary(encoded)) => exportable(
                image(binary.regions@, binary.regions@.len()),
                options,
            ) && encoded@ == base64_text(
                payload(image(binary.regions@, binary.regions@.len()), options),
            ),
            Some(_) => false,
            None => !exportable(image(binary.regions@, binary.regions@.len()), options),
        },
        !options.continuous ==> match exported {
            Some(AssembledRegions::Split(list)) => exported_as(
                list@,
                filled(binary.regions@, binary.regions@.len()),
                binary.entry,
                options,
            ),
            Some(_) => false,
            None => exists|i: int|
                0 <= i < binary.regions@.len() && (#[trigger] binary.regions@[i]).data@.len() > 0
                    && !exportable(binary.regions@[i].data@, options),
        },
{
    if options.continuous {
        match export_continuous(binary, &options) {
            Some(encoded) => Some(AssembledRegions::Binary(encoded)),
            None => None,
        }
    } else {
        match export_regions(binary, &options) {
            Some(list) => Some(AssembledRegions::Split(list)),
            None => None,
        }
    }
}

} // verus!
