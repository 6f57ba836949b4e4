//! Choosing the executable to launch from a directory listing.

use vstd::prelude::*;
use vstd::string::*;

verus! {

/// Why no executable could be chosen.
#[derive(Debug, Clone, Copy, PartialEq, Eq, Structural)]
pub enum LocateError {
    /// The directory, or one of its entries, could not be read.
    Unreadable,
    /// No entry carries the executable extension.
    NotFound,
    /// More than one entry carries the executable extension.
    Ambiguous,
}

/// A file name whose extension is exactly `exe`: it ends in `.exe` and the
/// part before that dot is not empty (a leading dot starts a hidden name,
/// not an extension).
pub open spec fn is_runnable(name: Seq<char>) -> bool {
    let n = name.len();
    &&& n > 4
    &&& name[n - 4] == '.'
    &&& name[n - 3] == 'e'
    &&& name[n - 2] == 'x'
    &&& name[n - 1] == 'e'
}

/// An entry that was read and names a runnable file.
pub open spec fn entry_runnable(entry: Option<String>) -> bool {
    match entry {
        Some(name) => is_runnable(name@),
        None => false,
    }
}

/// Every entry of the listing could be read.
pub open spec fn listing_readable(entries: Seq<Option<String>>) -> bool {
    forall|i: int| 0 <= i < entries.len() ==> (#[trigger] entries[i]) is Some
}

/// How many entries of the listing name a runnable file.
pub open spec fn runnable_count(entries: Seq<Option<String>>) -> nat
    decreases entries.len(),
{
    if entries.len() == 0 {
        0
    } else {
        runnable_count(entries.drop_last()) + if entry_runnable(entries.last()) {
            1nat
        } else {
            0nat
        }
    }
}

/// Whether a file name marks an executable artifact.
pub fn name_is_runnable(name: &String) -> (r: bool)
    ensures
        r == is_runnable(name@),
{
    let s = name.as_str();
    let n = s.unicode_len();
    if n <= 4 {
        return false;
    }
    s.get_char(n - 4) == '.' && s.get_char(n - 3) == 'e' && s.get_char(n - 2) == 'x'
        && s.get_char(n - 1) == 'e'
}

/// Picks the single runnable artifact of a directory listing. Each entry is
/// a file name, or `None` where reading that entry failed. An unreadable
/// entry fails the whole lookup; otherwise exactly one runnable name must be
/// present, and that name is returned.
pub fn find_challenge_binary(entries: &Vec<Option<String>>) -> (r: Result<String, LocateError>)
    ensures
        !listing_readable(entries@) <==> r == Err::<String, LocateError>(LocateError::Unreadable),
        listing_readable(entries@) ==> {
            &&& runnable_count(entries@) == 0 <==> r == Err::<String, LocateError>(
                LocateError::NotFound,
            )
            &&& runnable_count(entries@) > 1 <==> r == Err::<String, LocateError>(
                LocateError::Ambiguous,
            )
            &&& runnable_count(entries@) == 1 <==> r is Ok
        },
        r matches Ok(name) ==> exists|i: int|
            0 <= i < entries@.len() && #[trigger] entry_runnable(entries@[i]) && entries@[i]->Some_0@
                == name@,
{
    let mut readable = true;
    let mut count: usize = 0;
    let mut found: usize = 0;
    let mut i: usize = 0;
    while i < entries.len()
        invariant
            i <= entries@.len(),
            readable == listing_readable(entries@.subrange(0, i as int)),
            count == runnable_count(entries@.subrange(0, i as int)),
            count <= i,
            count > 0 ==> found < i && entry_runnable(entries@[found as int]),
        decreases entries.len() - i,
    {
        let ghost prefix = entries@.subrange(0, i as int);
        let ghost next = entries@.subrange(0, i + 1);
        assert(next.drop_last() =~= prefix);
        assert(next.last() == entries@[i as int]);
        match &entries[i] {
            Some(name) => {
                if name_is_runnable(name) {
                    count = count + 1;
                    found = i;
                }
            },
            None => {
                readable = false;
            },
        }
        proof {
            if readable {
                assert forall|k: int| 0 <= k < next.len() implies (#[trigger] next[k]) is Some by {
                    if k < i {
                        assert(next[k] == prefix[k]);
                    }
                }
            } else if listing_readable(prefix) {
                assert(next[i as int] is None);
            } else {
                let k = choose|k: int| 0 <= k < prefix.len() && !((#[trigger] prefix[k]) is Some);
                assert(next[k] == prefix[k]);
            }
        }
        i = i + 1;
    }
    assert(entries@.subrange(0, i as int) =~= entries@);
    if !readable {
        Err(LocateError::Unreadable)
    } else if count == 0 {
        Err(LocateError::NotFound)
    } else if count > 1 {
        Err(LocateError::Ambiguous)
    } else {
        match &entries[found] {
            Some(name) => Ok(name.clone()),
            None => Err(LocateError::Unreadable),
        }
    }
}

} // verus!
