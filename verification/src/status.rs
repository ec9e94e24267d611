//! A distribution's development status and the rule that reads it from text.

use crate::text::starts_with;
use vstd::prelude::*;

verus! {

/// A distro's status.
///
/// For more information, see
/// [faq: distro status](https://distrowatch.com/dwres.php?resource=faq#distrostatus).
#[derive(Debug, Copy, Clone, PartialEq, Eq, Structural)]
pub enum Status {
    /// This distro is under active development.
    Active,
    /// This distro has not put out a new release in two or more years, or it
    /// no longer plans to put out future releases, ie planned inactivity,
    /// while older releases are maintained.
    Dormant,
    /// This distro is no longer being developed or have websites.
    Discontinued,
}

/// The status that a text stands for: the keyword it begins with. The catalog
/// sometimes appends an explanation to the keyword, which is ignored.
pub open spec fn parse_status(text: Seq<char>) -> Option<Status> {
    if "Active"@.is_prefix_of(text) {
        Some(Status::Active)
    } else if "Dormant"@.is_prefix_of(text) {
        Some(Status::Dormant)
    } else if "Discontinued"@.is_prefix_of(text) {
        Some(Status::Discontinued)
    } else {
        None
    }
}

/// Only the keyword counts: whatever follows it, the status is the keyword's.
pub proof fn suffix_is_ignored(suffix: Seq<char>)
    ensures
        parse_status("Active"@ + suffix) == Some(Status::Active),
        parse_status("Dormant"@ + suffix) == Some(Status::Dormant),
        parse_status("Discontinued"@ + suffix) == Some(Status::Discontinued),
{
    reveal_strlit("Active");
    reveal_strlit("Dormant");
    reveal_strlit("Discontinued");
    let active = "Active"@ + suffix;
    assert(active.subrange(0, 6) =~= "Active"@);
    let dormant = "Dormant"@ + suffix;
    assert(dormant.subrange(0, 7) =~= "Dormant"@);
    assert(!"Active"@.is_prefix_of(dormant)) by {
        assert(dormant.subrange(0, 6)[0] == 'D');
    }
    let discontinued = "Discontinued"@ + suffix;
    assert(discontinued.subrange(0, 12) =~= "Discontinued"@);
    assert(!"Active"@.is_prefix_of(discontinued)) by {
        assert(discontinued.subrange(0, 6)[0] == 'D');
    }
    assert(!"Dormant"@.is_prefix_of(discontinued)) by {
        assert(discontinued.subrange(0, 7)[1] == 'i');
    }
}

/// A text that begins with neither `A` nor `D` is no status.
pub proof fn other_initial_is_no_status(text: Seq<char>)
    requires
        text.len() == 0 || (text[0] != 'A' && text[0] != 'D'),
    ensures
        parse_status(text) is None,
{
    reveal_strlit("Active");
    reveal_strlit("Dormant");
    reveal_strlit("Discontinued");
    if text.len() > 0 {
        if "Active"@.is_prefix_of(text) {
            assert(text.subrange(0, 6)[0] == text[0]);
        }
        if "Dormant"@.is_prefix_of(text) {
            assert(text.subrange(0, 7)[0] == text[0]);
        }
        if "Discontinued"@.is_prefix_of(text) {
            assert(text.subrange(0, 12)[0] == text[0]);
        }
    }
}

impl Status {
    /// Reads a status from the catalog's text. `Err(())` is returned exactly
    /// when the text begins with none of the three keywords.
    pub fn from_str(s: &str) -> (parsed: Result<Status, ()>)
        ensures
            parsed == match parse_status(s@) {
                Some(status) => Ok::<Status, ()>(status),
                None => Err::<Status, ()>(()),
            },
    {
        if starts_with(s, "Active") {
            Ok(Status::Active)
        } else if starts_with(s, "Dormant") {
            Ok(Status::Dormant)
        } else if starts_with(s, "Discontinued") {
            Ok(Status::Discontinued)
        } else {
            Err(())
        }
    }
}

impl std::str::FromStr for Status {
    type Err = ();

    /// As [`Status::from_str`], for callers that go through `str::parse`.
    fn from_str(s: &str) -> (parsed: std::result::Result<Self, Self::Err>)
        ensures
            parsed == match parse_status(s@) {
                Some(status) => Ok::<Status, ()>(status),
                None => Err::<Status, ()>(()),
            },
    {
        Status::from_str(s)
    }
}

} // verus!
