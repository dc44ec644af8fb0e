//! Application information in the form that instance creation borrows it.

use vstd::prelude::*;
use crate::openxr::types::packed_version;
pub use crate::openxr::types::GraphicsBackend;

verus! {

/// An application or engine version: `(major, minor, patch)`.
#[derive(Clone, Copy, Debug, PartialEq, Eq, Structural)]
pub struct Version(pub u8, pub u8, pub u16);

impl Default for Version {
    /// Version 0.0.0.
    fn default() -> (v: Self)
        ensures
            v == Version(0, 0, 0),
    {
        Version(0, 0, 0)
    }
}

impl Version {
    /// The engine version reported to the runtime.
    pub fn bevy() -> (v: Self)
        ensures
            v == Version(0, 12, 1),
    {
        Version(0, 12, 1)
    }

    /// The packed 32-bit form of this version: major in bits 24..32, minor in
    /// bits 16..24, patch in bits 0..16.
    pub fn to_u32(self) -> (r: u32)
        ensures
            r == packed_version(self.0, self.1, self.2),
            r as int == self.0 as int * 0x100_0000 + self.1 as int * 0x1_0000 + self.2 as int,
    {
        let major = (self.0 as u32) << 24u32;
        let minor = (self.1 as u32) << 16u32;
        let a = self.0;
        let b = self.1;
        let c = self.2;
        assert(((c as u32) | ((a as u32) << 24u32) | ((b as u32) << 16u32)) as int
            == a as int * 0x100_0000 + b as int * 0x1_0000 + c as int) by (bit_vector);
        self.2 as u32 | major | minor
    }
}

/// Information about the application, borrowed for instance creation.
#[derive(Clone, Copy, Debug)]
pub struct AppInfo<'a> {
    pub name: &'a str,
    pub version: Version,
}

impl<'a> Default for AppInfo<'a> {
    /// An application with an empty name, at version 0.0.0.
    fn default() -> (r: Self)
        ensures
            r.name@.len() == 0,
            r.version == Version(0, 0, 0),
    {
        let name: &'a str = "";
        proof {
            reveal_strlit("");
        }
        AppInfo { name, version: Version::default() }
    }
}

} // verus!
