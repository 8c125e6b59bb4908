//! The version of Windows.

use vstd::prelude::*;
use crate::number;
use crate::number::push_decimal;

verus! {

/// A version of Windows.
#[derive(Debug, Clone, Copy, PartialEq, Eq, Structural)]
pub struct OsVersion {
    pub major: u32,
    pub minor: u32,
    pub build: u32,
}

impl OsVersion {
    /// Whether this is Windows 10 or a later one.
    pub fn is_windows_10_or_newer(self) -> (r: bool)
        ensures
            r == (self.major >= 10),
    {
        self.major >= 10
    }

    /// The three numbers with dots between them.
    pub fn display(self) -> (r: String)
        ensures
            r@ == number::decimal(self.major as nat) + "."@ + number::decimal(self.minor as nat)
                + "."@ + number::decimal(self.build as nat),
    {
        let mut s = String::new();
        push_decimal(&mut s, self.major as u128);
        assert(s@ =~= number::decimal(self.major as nat));
        s.append(".");
        push_decimal(&mut s, self.minor as u128);
        s.append(".");
        push_decimal(&mut s, self.build as u128);
        s
    }
}

/// The version that `RtlGetVersion` has reported, if its status says that it did.
pub fn current(status: i32, major: u32, minor: u32, build: u32) -> (r: Option<OsVersion>)
    ensures
        r == (if status == 0 {
            Some(OsVersion { major, minor, build })
        } else {
            None::<OsVersion>
        }),
{
    if status != 0 {
        return None;
    }
    Some(OsVersion { major, minor, build })
}

} // verus!
