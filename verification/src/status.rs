use std::convert::TryFrom;
use vstd::prelude::*;
use vstd::std_specs::convert::{TryFromSpec, TryFromSpecImpl};

verus! {

/// The state of a ticket.
#[derive(Debug, PartialEq, Clone)]
pub enum Status {
    ToDo,
    InProgress,
    Done,
}

/// The lowercase form of `s`, as `str::to_lowercase` computes it under the
/// Unicode `Lowercase` mapping.
pub uninterp spec fn lowercase(s: Seq<char>) -> Seq<char>;

/// Whether every character of `s` is ASCII.
pub open spec fn all_ascii(s: Seq<char>) -> bool {
    forall|i: int| 0 <= i < s.len() ==> (#[trigger] s[i] as u32) < 128
}

/// The ASCII lowercase of `c`: `A` to `Z` become `a` to `z`, every other
/// character stays.
pub open spec fn ascii_lowercase_char(c: char) -> char {
    if 'A' <= c && c <= 'Z' {
        ((c as u32) + 32) as char
    } else {
        c
    }
}

/// `s` with `A` to `Z` turned into `a` to `z`.
pub open spec fn ascii_lowercase(s: Seq<char>) -> Seq<char> {
    s.map_values(|c: char| ascii_lowercase_char(c))
}

/// Calls `str::to_lowercase`. The contract names its result `lowercase(s@)`:
/// the Unicode case mapping is a table that is not written out here. Of ASCII
/// text it states what the mapping gives there: `A` to `Z` become `a` to `z`
/// and every other character stays as it is.
#[verifier::external_body]
fn to_lowercase(s: &str) -> (r: String)
    ensures
        r@ == lowercase(s@),
        all_ascii(s@) ==> r@ == ascii_lowercase(s@),
{
    s.to_lowercase()
}

/// The status that the lowercase name `s` stands for: `todo`, `inprogress` or
/// `done`; an error for any other text.
pub open spec fn status_named(s: Seq<char>) -> Result<Status, ()> {
    if s == "todo"@ {
        Ok(Status::ToDo)
    } else if s == "inprogress"@ {
        Ok(Status::InProgress)
    } else if s == "done"@ {
        Ok(Status::Done)
    } else {
        Err(())
    }
}

/// Whether `a` and `b` hold the same characters.
fn same_text(a: &str, b: &str) -> (r: bool)
    ensures
        r == (a@ == b@),
{
    a.to_owned() == b.to_owned()
}

impl Status {
    /// The status named by the already lowercased text `lower`.
    pub fn from_lowercase(lower: &str) -> (r: Result<Status, ()>)
        ensures
            r == status_named(lower@),
    {
        if same_text(lower, "todo") {
            return Ok(Status::ToDo);
        }
        if same_text(lower, "inprogress") {
            return Ok(Status::InProgress);
        }
        if same_text(lower, "done") {
            return Ok(Status::Done);
        } else {
            Err(())
        }
    }
}

impl TryFrom<String> for Status {
    type Error = ();

    /// The status named by `value`, whatever its case.
    fn try_from(value: String) -> (r: Result<Self, Self::Error>)
        ensures
            all_ascii(value@) ==> r == status_named(ascii_lowercase(value@)),
    {
        let lower = to_lowercase(value.as_str());
        Status::from_lowercase(lower.as_str())
    }
}

impl TryFromSpecImpl<String> for Status {
    open spec fn obeys_try_from_spec() -> bool {
        true
    }

    open spec fn try_from_spec(v: String) -> Result<Status, ()> {
        status_named(lowercase(v@))
    }
}

impl TryFrom<&str> for Status {
    type Error = ();

    /// The status named by `value`, whatever its case.
    fn try_from(value: &str) -> (r: Result<Self, Self::Error>)
        ensures
            all_ascii(value@) ==> r == status_named(ascii_lowercase(value@)),
    {
        Self::try_from(value.to_owned())
    }
}

impl TryFromSpecImpl<&str> for Status {
    open spec fn obeys_try_from_spec() -> bool {
        true
    }

    open spec fn try_from_spec(v: &str) -> Result<Status, ()> {
        status_named(lowercase(v@))
    }
}

/// Reading a status does not depend on case: two texts with the same
/// lowercase form name the same status, whether given as a `String` or as a
/// `&str`.
pub proof fn law_case_insensitive(a: String, b: &str)
    requires
        lowercase(a@) == lowercase(b@),
    ensures
        <Status as TryFromSpec<String>>::try_from_spec(a) == <Status as TryFromSpec<&str>>::try_from_spec(b),
{
}

} // verus!
