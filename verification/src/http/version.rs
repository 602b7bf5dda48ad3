use crate::text::str_eq;
use std::str::FromStr;
use vstd::prelude::*;

verus! {

/// The protocol versions that the server speaks.
#[derive(Eq, PartialEq, Clone, Copy, Debug, Structural)]
pub enum Version {
    HTTP1_1,
}

impl Version {
    /// The version as it is written on the wire.
    pub open spec fn name(self) -> Seq<char> {
        match self {
            Version::HTTP1_1 => "HTTP/1.1"@,
        }
    }

    /// The version that `token` names, if it names one.
    pub open spec fn named(token: Seq<char>) -> Option<Version> {
        if token == "HTTP/1.1"@ {
            Some(Version::HTTP1_1)
        } else {
            None
        }
    }

    /// The version as it is written on the wire.
    pub fn as_str(&self) -> (s: &'static str)
        ensures
            s@ == self.name(),
            Version::named(s@) == Some(*self),
    {
        match self {
            Version::HTTP1_1 => "HTTP/1.1",
        }
    }

    /// The version that `token` names.
    pub fn from_token(token: &str) -> (r: Option<Version>)
        ensures
            r == Version::named(token@),
    {
        if str_eq(token, "HTTP/1.1") {
            Some(Version::HTTP1_1)
        } else {
            None
        }
    }
}

impl FromStr for Version {
    type Err = ();

    fn from_str(input: &str) -> (r: Result<Version, ()>)
        ensures
            match Version::named(input@) {
                Some(version) => r == Ok::<Version, ()>(version),
                None => r is Err,
            },
    {
        match Version::from_token(input) {
            Some(v) => Ok(v),
            None => Err(()),
        }
    }
}

} // verus!
