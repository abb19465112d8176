//! Three-part version numbers and the way they are written.

use vstd::prelude::*;
use vstd::string::*;
use crate::text::{decimal, push_decimal};

verus! {

/// A version made of three numbers, written `major.minor.patch`.
#[derive(Clone, Copy, Debug, PartialEq, Eq, Structural)]
pub struct SemanticVersion {
    pub major: usize,
    pub minor: usize,
    pub patch: usize,
}

impl SemanticVersion {
    /// The written form: the three numerals in decimal, joined by dots.
    pub open spec fn text(self) -> Seq<char> {
        decimal(self.major as nat) + seq!['.'] + decimal(self.minor as nat) + seq!['.'] + decimal(
            self.patch as nat,
        )
    }

    pub fn new(major: usize, minor: usize, patch: usize) -> (version: SemanticVersion)
        ensures
            version.major == major,
            version.minor == minor,
            version.patch == patch,
    {
        SemanticVersion { major, minor, patch }
    }

    /// Writes the version out as `major.minor.patch`.
    pub fn to_string(&self) -> (text: String)
        ensures
            text@ == self.text(),
    {
        proof {
            reveal_strlit(".");
        }
        let mut text = String::new();
        push_decimal(&mut text, self.major as u64);
        text.append(".");
        push_decimal(&mut text, self.minor as u64);
        text.append(".");
        push_decimal(&mut text, self.patch as u64);
        assert(text@ =~= self.text());
        text
    }
}

} // verus!
