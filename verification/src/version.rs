use vstd::prelude::*;

verus! {

/// The ICAP protocol version. RFC 3507 defines a single version, ICAP/1.0,
/// so the set is a closed singleton: no other version can be represented,
/// and a codec that meets a different version string must reject it itself.
#[derive(PartialEq, PartialOrd, Copy, Clone, Eq, Ord, Hash, Debug)]
pub enum Version {
    Icap10,
}

impl Version {
    /// ICAP/1.0, the only version.
    pub const ICAP_10: Version = Version::Icap10;

    /// The wire token for this version.
    pub fn as_str(&self) -> (r: &'static str)
        ensures
            r@ == "ICAP/1.0"@,
    {
        "ICAP/1.0"
    }
}

impl Default for Version {
    /// The default version is ICAP/1.0.
    fn default() -> (r: Version)
        ensures
            r == Version::Icap10,
    {
        Version::Icap10
    }
}

} // verus!
