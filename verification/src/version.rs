//! Minimum-version constraints attached to declarations and imports.

use vstd::prelude::*;
use vstd::string::StringExecFns;

use crate::text::dec_digits;
use crate::text::push_dec;

verus! {

/// A runtime version: major, minor and patch components, ordered
/// lexicographically.
#[derive(Clone, Copy, PartialEq, Eq, Structural)]
pub struct Version {
    pub major: u16,
    pub minor: u16,
    pub patch: u16,
}

impl Version {
    /// Strict lexicographic order on (major, minor, patch).
    pub open spec fn spec_lt(self, other: Version) -> bool {
        self.major < other.major || (self.major == other.major && (self.minor < other.minor || (
        self.minor == other.minor && self.patch < other.patch)))
    }

    /// Lexicographic order on (major, minor, patch), equality allowed.
    pub open spec fn spec_le(self, other: Version) -> bool {
        self.spec_lt(other) || self == other
    }

    /// Strict comparison against another version.
    pub fn lt(&self, other: &Version) -> (r: bool)
        ensures
            r == self.spec_lt(*other),
    {
        self.major < other.major || (self.major == other.major && (self.minor < other.minor || (
        self.minor == other.minor && self.patch < other.patch)))
    }

    /// Comparison against another version, equality allowed.
    pub fn le(&self, other: &Version) -> (r: bool)
        ensures
            r == self.spec_le(*other),
    {
        self.major < other.major || (self.major == other.major && (self.minor < other.minor || (
        self.minor == other.minor && self.patch <= other.patch)))
    }

    /// The feature condition that gates code on this version: the patch
    /// component is spelled out only when it is nonzero.
    pub open spec fn to_cfg_text(self) -> Seq<char> {
        "feature = \"v"@ + dec_digits(self.major as nat) + "_"@ + dec_digits(self.minor as nat) + (
        if self.patch == 0 {
            Seq::<char>::empty()
        } else {
            "_"@ + dec_digits(self.patch as nat)
        }) + "\""@
    }

    /// Renders the feature condition that gates code on this version.
    pub fn to_cfg(&self) -> (r: String)
        ensures
            r@ == self.to_cfg_text(),
    {
        let mut r = String::from_str("feature = \"v");
        push_dec(&mut r, self.major);
        r.append("_");
        push_dec(&mut r, self.minor);
        if self.patch != 0 {
            r.append("_");
            push_dec(&mut r, self.patch);
        }
        r.append("\"");
        proof {
            assert(r@ =~= self.to_cfg_text());
        }
        r
    }
}

} // verus!
