//! The sub-formats of ICU data files and the format versions that each of them
//! can be read in.

use vstd::prelude::*;

use crate::reader::be_u32;

verus! {

/// The sub-format that a data file declares in its header.
///
/// Each sub-format goes by a tag of four ASCII characters; as a number the tag
/// is those four bytes read high byte first.
#[derive(Clone, Copy, Debug, PartialEq, Eq, Structural)]
pub enum DataFormat {
    /// `ResB`
    ResourceBundle,
    /// `UCol`
    Collation,
    /// `Dict`
    Dictionary,
    /// `CmnD`
    Dat,
    /// `Nrm2`
    Normalized2,
    /// `UPro`
    CharacterProperty,
    /// `Brk `
    BreakIteration,
    /// `Cfu `
    Spoof,
    /// `SPRP`
    StringPrep,
    /// `BiDi`
    BiDi,
    /// `cASE`
    Case,
    /// `unam`
    CharacterName,
    /// `CvAl`
    ConverterAlias,
    /// `cnvt`
    Converter,
    /// `pnam`
    PropertyAlias,
}

impl DataFormat {
    /// The four bytes by which a header declares this sub-format.
    pub open spec fn spec_tag_bytes(self) -> Seq<u8> {
        match self {
            DataFormat::ResourceBundle => seq![0x52u8, 0x65u8, 0x73u8, 0x42u8],
            DataFormat::Collation => seq![0x55u8, 0x43u8, 0x6fu8, 0x6cu8],
            DataFormat::Dictionary => seq![0x44u8, 0x69u8, 0x63u8, 0x74u8],
            DataFormat::Dat => seq![0x43u8, 0x6du8, 0x6eu8, 0x44u8],
            DataFormat::Normalized2 => seq![0x4eu8, 0x72u8, 0x6du8, 0x32u8],
            DataFormat::CharacterProperty => seq![0x55u8, 0x50u8, 0x72u8, 0x6fu8],
            DataFormat::BreakIteration => seq![0x42u8, 0x72u8, 0x6bu8, 0x20u8],
            DataFormat::Spoof => seq![0x43u8, 0x66u8, 0x75u8, 0x20u8],
            DataFormat::StringPrep => seq![0x53u8, 0x50u8, 0x52u8, 0x50u8],
            DataFormat::BiDi => seq![0x42u8, 0x69u8, 0x44u8, 0x69u8],
            DataFormat::Case => seq![0x63u8, 0x41u8, 0x53u8, 0x45u8],
            DataFormat::CharacterName => seq![0x75u8, 0x6eu8, 0x61u8, 0x6du8],
            DataFormat::ConverterAlias => seq![0x43u8, 0x76u8, 0x41u8, 0x6cu8],
            DataFormat::Converter => seq![0x63u8, 0x6eu8, 0x76u8, 0x74u8],
            DataFormat::PropertyAlias => seq![0x70u8, 0x6eu8, 0x61u8, 0x6du8],
        }
    }

    /// The tag as one number: its four bytes read high byte first.
    pub open spec fn spec_tag(self) -> u32 {
        be_u32(self.spec_tag_bytes())
    }

    /// Whether a file of this sub-format whose header gives the format version
    /// `v` (major, minor, milli, micro) can be read. Each sub-format has a rule
    /// of its own.
    pub open spec fn accepts(self, v: Seq<u8>) -> bool {
        match self {
            DataFormat::ResourceBundle => (v[0] == 1 && v[1] >= 1) || v[0] == 2 || v[0] == 3,
            DataFormat::Collation => v[0] == 5,
            DataFormat::Dictionary => true,
            DataFormat::Dat => v[0] == 1,
            DataFormat::Normalized2 => v[0] == 3,
            DataFormat::CharacterProperty => v[0] == 7,
            DataFormat::BreakIteration => be_u32(v) == 0x0400_0000,
            DataFormat::Spoof => v[0] == 2 || v[1] != 0 || v[2] != 0 || v[3] != 0,
            DataFormat::StringPrep => v[0] == 3 && v[2] == 5 && v[3] == 2,
            DataFormat::BiDi => v[0] == 2,
            DataFormat::Case => v[0] == 3,
            DataFormat::CharacterName => v[0] == 1,
            DataFormat::ConverterAlias => v[0] == 3 && v[1] == 0 && v[2] == 1,
            DataFormat::Converter => v[0] == 6,
            DataFormat::PropertyAlias => v[0] == 2,
        }
    }

    /// The tag as one number.
    pub fn tag(&self) -> (r: u32)
        ensures
            r == self.spec_tag(),
    {
        match self {
            DataFormat::ResourceBundle => 0x5265_7342,
            DataFormat::Collation => 0x5543_6f6c,
            DataFormat::Dictionary => 0x4469_6374,
            DataFormat::Dat => 0x436d_6e44,
            DataFormat::Normalized2 => 0x4e72_6d32,
            DataFormat::CharacterProperty => 0x5550_726f,
            DataFormat::BreakIteration => 0x4272_6b20,
            DataFormat::Spoof => 0x4366_7520,
            DataFormat::StringPrep => 0x5350_5250,
            DataFormat::BiDi => 0x4269_4469,
            DataFormat::Case => 0x6341_5345,
            DataFormat::CharacterName => 0x756e_616d,
            DataFormat::ConverterAlias => 0x4376_416c,
            DataFormat::Converter => 0x636e_7674,
            DataFormat::PropertyAlias => 0x706e_616d,
        }
    }

    /// The four bytes by which a header declares this sub-format.
    pub fn tag_bytes(&self) -> (r: [u8; 4])
        ensures
            r@ == self.spec_tag_bytes(),
    {
        let r: [u8; 4] = match self {
            DataFormat::ResourceBundle => [0x52, 0x65, 0x73, 0x42],
            DataFormat::Collation => [0x55, 0x43, 0x6f, 0x6c],
            DataFormat::Dictionary => [0x44, 0x69, 0x63, 0x74],
            DataFormat::Dat => [0x43, 0x6d, 0x6e, 0x44],
            DataFormat::Normalized2 => [0x4e, 0x72, 0x6d, 0x32],
            DataFormat::CharacterProperty => [0x55, 0x50, 0x72, 0x6f],
            DataFormat::BreakIteration => [0x42, 0x72, 0x6b, 0x20],
            DataFormat::Spoof => [0x43, 0x66, 0x75, 0x20],
            DataFormat::StringPrep => [0x53, 0x50, 0x52, 0x50],
            DataFormat::BiDi => [0x42, 0x69, 0x44, 0x69],
            DataFormat::Case => [0x63, 0x41, 0x53, 0x45],
            DataFormat::CharacterName => [0x75, 0x6e, 0x61, 0x6d],
            DataFormat::ConverterAlias => [0x43, 0x76, 0x41, 0x6c],
            DataFormat::Converter => [0x63, 0x6e, 0x76, 0x74],
            DataFormat::PropertyAlias => [0x70, 0x6e, 0x61, 0x6d],
        };
        assert(r@ =~= self.spec_tag_bytes());
        r
    }

    /// Whether a file of this sub-format with the format version
    /// `format_version` (major, minor, milli, micro) can be read.
    pub fn is_acceptable_version(&self, format_version: [u8; 4]) -> (r: bool)
        ensures
            r == self.accepts(format_version@),
    {
        match self {
            DataFormat::ResourceBundle => {
                (format_version[0] == 1 && format_version[1] >= 1) || format_version[0] == 2
                    || format_version[0] == 3
            },
            DataFormat::Collation => format_version[0] == 5,
            DataFormat::Dictionary => true,
            DataFormat::Dat => format_version[0] == 1,
            DataFormat::Normalized2 => format_version[0] == 3,
            DataFormat::CharacterProperty => format_version[0] == 7,
            DataFormat::BreakIteration => {
                proof {
                    lemma_shift_places(format_version[0]);
                    lemma_shift_places(format_version[1]);
                    lemma_shift_places(format_version[2]);
                }
                let ver: u32 = ((format_version[0] as u32) << 24) + ((format_version[1] as u32)
                    << 16) + ((format_version[2] as u32) << 8) + (format_version[3] as u32);
                ver == 0x0400_0000
            },
            DataFormat::Spoof => {
                format_version[0] == 2 || format_version[1] != 0 || format_version[2] != 0
                    || format_version[3] != 0
            },
            DataFormat::StringPrep => {
                format_version[0] == 3 && format_version[2] == 5 && format_version[3] == 2
            },
            DataFormat::BiDi => format_version[0] == 2,
            DataFormat::Case => format_version[0] == 3,
            DataFormat::CharacterName => format_version[0] == 1,
            DataFormat::ConverterAlias => {
                format_version[0] == 3 && format_version[1] == 0 && format_version[2] == 1
            },
            DataFormat::Converter => format_version[0] == 6,
            DataFormat::PropertyAlias => format_version[0] == 2,
        }
    }
}

/// A byte shifted left by one, two or three bytes is the byte times the weight
/// of that place.
proof fn lemma_shift_places(b: u8)
    by (bit_vector)
    ensures
        (b as u32) << 24 == (b as u32) * 0x100_0000,
        (b as u32) << 16 == (b as u32) * 0x1_0000,
        (b as u32) << 8 == (b as u32) * 0x100,
{
}

/// A break-iteration file is read in format version 4.0.0.0 and in no other.
pub proof fn lemma_break_iteration_version(v: Seq<u8>)
    ensures
        DataFormat::BreakIteration.accepts(v) <==> (v[0] == 4 && v[1] == 0 && v[2] == 0 && v[3]
            == 0),
{
}

} // verus!
