//! The output assembler: the merged records together with the header
//! metadata the generated plugin carries.
//!
//! The header names the tool as author, carries the plugin-format version,
//! and lists the dependency entries accumulated during the merge. The
//! codec's canonical record ordering and the byte encoding are the
//! serializer's business; this module only fixes what the header says.

use vstd::prelude::*;

use crate::merge::MergeState;
use crate::records::Master;
use crate::records::MasterView;
use crate::records::Record;
use crate::records::RecordView;

verus! {

/// The IEEE-754 bit pattern of the plugin-format version the header
/// carries (1.3 as a 32-bit fractional value).
pub const FORMAT_VERSION_BITS: u32 = 0x3FA6_6666;

/// The fixed author field of the generated plugin ("S3").
pub open spec fn author_bytes() -> Seq<u8> {
    seq![83u8, 51]
}

/// The fixed description field of the generated plugin
/// ("Plugin generated by s3-lightfixes").
pub open spec fn description_bytes() -> Seq<u8> {
    seq![
        80u8, 108, 117, 103, 105, 110, 32, 103, 101, 110, 101, 114, 97, 116, 101, 100, 32, 98,
        121, 32, 115, 51, 45, 108, 105, 103, 104, 116, 102, 105, 120, 101, 115,
    ]
}

/// The header of the generated plugin: format version (as its bit
/// pattern), author, description, and the dependency entries.
pub struct HeaderInfo {
    pub version_bits: u32,
    pub author: Vec<u8>,
    pub description: Vec<u8>,
    pub masters: Vec<Master>,
}

/// The mathematical value of the header.
pub struct HeaderView {
    pub version_bits: u32,
    pub author: Seq<u8>,
    pub description: Seq<u8>,
    pub masters: Seq<MasterView>,
}

impl View for HeaderInfo {
    type V = HeaderView;

    open spec fn view(&self) -> HeaderView {
        HeaderView {
            version_bits: self.version_bits,
            author: self.author@,
            description: self.description@,
            masters: self.masters@.map_values(|m: Master| m@),
        }
    }
}

/// The assembled output: the merged records in discovery order and the
/// header. The serializer appends the header and applies the codec's
/// canonical record ordering when it writes the file.
pub struct OutputPlugin {
    pub records: Vec<Record>,
    pub header: HeaderInfo,
}

fn author_vec() -> (r: Vec<u8>)
    ensures
        r@ == author_bytes(),
{
    let mut v: Vec<u8> = Vec::new();
    v.push(83);
    v.push(51);
    proof {
        assert(v@ =~= author_bytes());
    }
    v
}

fn description_vec() -> (r: Vec<u8>)
    ensures
        r@ == description_bytes(),
{
    let mut v: Vec<u8> = Vec::new();
    v.push(80);
    v.push(108);
    v.push(117);
    v.push(103);
    v.push(105);
    v.push(110);
    v.push(32);
    v.push(103);
    v.push(101);
    v.push(110);
    v.push(101);
    v.push(114);
    v.push(97);
    v.push(116);
    v.push(101);
    v.push(100);
    v.push(32);
    v.push(98);
    v.push(121);
    v.push(32);
    v.push(115);
    v.push(51);
    v.push(45);
    v.push(108);
    v.push(105);
    v.push(103);
    v.push(104);
    v.push(116);
    v.push(102);
    v.push(105);
    v.push(120);
    v.push(101);
    v.push(115);
    proof {
        assert(v@ =~= description_bytes());
    }
    v
}

/// Assembles the output plugin from the final merge state: the collected
/// records unchanged and in order, and a header whose dependency list is
/// exactly the state's. The state is consumed; a run assembles exactly one
/// output.
pub fn assemble_output(state: MergeState) -> (out: OutputPlugin)
    ensures
        out.records@.map_values(|r: Record| r@) == state@.records,
        out.header@.masters == state@.masters,
        out.header@.author == author_bytes(),
        out.header@.description == description_bytes(),
        out.header@.version_bits == FORMAT_VERSION_BITS,
{
    let MergeState { claimed: _, records, masters } = state;
    OutputPlugin {
        records,
        header: HeaderInfo {
            version_bits: FORMAT_VERSION_BITS,
            author: author_vec(),
            description: description_vec(),
            masters,
        },
    }
}

} // verus!
