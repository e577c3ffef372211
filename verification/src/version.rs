//! Four-part firmware and hardware versions.

use crate::text::{decimal, push_decimal};
use vstd::prelude::*;
use vstd::string::StringExecFns;

verus! {

/// A version quad `major.minor.patch.bugfix`, one byte each.
#[derive(Debug, Clone, Copy, PartialEq, Eq)]
pub struct ControllerVersion {
    major: u8,
    minor: u8,
    patch: u8,
    bugfix: u8,
}

/// The textual form of a version: its four parts in decimal, a dot between
/// each two.
pub open spec fn version_text(major: u8, minor: u8, patch: u8, bugfix: u8) -> Seq<char> {
    decimal(major) + seq!['.'] + decimal(minor) + seq!['.'] + decimal(patch) + seq!['.']
        + decimal(bugfix)
}

impl ControllerVersion {
    pub closed spec fn spec_major(&self) -> u8 {
        self.major
    }

    pub closed spec fn spec_minor(&self) -> u8 {
        self.minor
    }

    pub closed spec fn spec_patch(&self) -> u8 {
        self.patch
    }

    pub closed spec fn spec_bugfix(&self) -> u8 {
        self.bugfix
    }

    /// The version whose four parts are the first four bytes of `bytes`.
    pub closed spec fn from_quad(bytes: Seq<u8>) -> ControllerVersion {
        ControllerVersion { major: bytes[0], minor: bytes[1], patch: bytes[2], bugfix: bytes[3] }
    }

    pub fn new(major: u8, minor: u8, patch: u8, bugfix: u8) -> (version: Self)
        ensures
            version.major() == major,
            version.minor() == minor,
            version.patch() == patch,
            version.bugfix() == bugfix,
            version == Self::from_quad(seq![major, minor, patch, bugfix]),
    {
        ControllerVersion { major, minor, patch, bugfix }
    }

    #[verifier::when_used_as_spec(spec_major)]
    pub fn major(&self) -> (major: u8)
        ensures
            major == self.spec_major(),
    {
        self.major
    }

    #[verifier::when_used_as_spec(spec_minor)]
    pub fn minor(&self) -> (minor: u8)
        ensures
            minor == self.spec_minor(),
    {
        self.minor
    }

    #[verifier::when_used_as_spec(spec_patch)]
    pub fn patch(&self) -> (patch: u8)
        ensures
            patch == self.spec_patch(),
    {
        self.patch
    }

    #[verifier::when_used_as_spec(spec_bugfix)]
    pub fn bugfix(&self) -> (bugfix: u8)
        ensures
            bugfix == self.spec_bugfix(),
    {
        self.bugfix
    }

    /// The version as `major.minor.patch.bugfix`.
    pub fn to_string(&self) -> (s: String)
        ensures
            s@ == version_text(self.major(), self.minor(), self.patch(), self.bugfix()),
    {
        let mut out = String::new();
        proof {
            reveal_strlit(".");
            assert("."@ =~= seq!['.']);
        }
        push_decimal(&mut out, self.major);
        out.append(".");
        push_decimal(&mut out, self.minor);
        out.append(".");
        push_decimal(&mut out, self.patch);
        out.append(".");
        push_decimal(&mut out, self.bugfix);
        assert(out@ =~= version_text(self.major(), self.minor(), self.patch(), self.bugfix()));
        out
    }

    /// `from_quad` reads the four parts in order.
    pub proof fn lemma_from_quad(bytes: Seq<u8>)
        ensures
            Self::from_quad(bytes).major() == bytes[0],
            Self::from_quad(bytes).minor() == bytes[1],
            Self::from_quad(bytes).patch() == bytes[2],
            Self::from_quad(bytes).bugfix() == bytes[3],
    {
    }

    /// Two versions with the same four parts are the same version.
    pub proof fn lemma_parts_determine(a: ControllerVersion, b: ControllerVersion)
        requires
            a.major() == b.major(),
            a.minor() == b.minor(),
            a.patch() == b.patch(),
            a.bugfix() == b.bugfix(),
        ensures
            a == b,
    {
    }
}

} // verus!
