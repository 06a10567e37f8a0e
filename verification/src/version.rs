//! The release of the data that a file holds.

use vstd::prelude::*;

use crate::error::BundleError;

verus! {

/// A version in four parts: major, minor, milli, micro.
pub type PiecewiseVersion = (u8, u8, u8, u8);

/// The Unicode release that a file's data belongs to, together with the data
/// version as the header spells it.
#[allow(non_camel_case_types)]
#[derive(Clone, Copy, Debug, Ord, PartialOrd, Eq, PartialEq)]
pub enum Version {
    Unicode1_0(PiecewiseVersion),
    Unicode1_0_1(PiecewiseVersion),
    Unicode1_1_0(PiecewiseVersion),
    Unicode1_1_5(PiecewiseVersion),
    Unicode2_0(PiecewiseVersion),
    Unicode2_1_2(PiecewiseVersion),
    Unicode2_1_5(PiecewiseVersion),
    Unicode2_1_8(PiecewiseVersion),
    Unicode2_1_9(PiecewiseVersion),
    Unicode3_0(PiecewiseVersion),
    Unicode3_0_1(PiecewiseVersion),
    Unicode3_1_0(PiecewiseVersion),
    Unicode3_1_1(PiecewiseVersion),
    Unicode3_2(PiecewiseVersion),
    Unicode4_0(PiecewiseVersion),
    Unicode4_0_1(PiecewiseVersion),
    Unicode4_1(PiecewiseVersion),
    Unicode5_0(PiecewiseVersion),
    Unicode5_1(PiecewiseVersion),
    Unicode5_2(PiecewiseVersion),
    Unicode6_0(PiecewiseVersion),
    Unicode6_1(PiecewiseVersion),
    Unicode6_2(PiecewiseVersion),
    Unicode6_3(PiecewiseVersion),
    Unicode7_0(PiecewiseVersion),
    Unicode8_0(PiecewiseVersion),
    Unicode9_0(PiecewiseVersion),
    Unicode10_0(PiecewiseVersion),
}

impl Version {
    /// The release that the data version `version` resolves to.
    ///
    /// No table from data versions to releases is known yet, so every data
    /// version resolves to the newest release, which carries it unchanged.
    pub open spec fn resolve(version: PiecewiseVersion) -> Version {
        Version::Unicode10_0(version)
    }
}

impl TryFrom<PiecewiseVersion> for Version {
    type Error = BundleError;

    /// Resolves a data version to a release. It fails for none.
    fn try_from(version: PiecewiseVersion) -> (r: Result<Self, Self::Error>) {
        Ok(Version::Unicode10_0(version))
    }
}

impl vstd::std_specs::convert::TryFromSpecImpl<PiecewiseVersion> for Version {
    open spec fn obeys_try_from_spec() -> bool {
        true
    }

    open spec fn try_from_spec(version: PiecewiseVersion) -> Result<Self, Self::Error> {
        Ok(Version::resolve(version))
    }
}

} // verus!
