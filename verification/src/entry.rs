use vstd::prelude::*;

verus! {

/// The metadata of one archive member. A blank entry starts with no pathname;
/// the parsing session fills the pathname in when a header is read into it.
///
/// An entry exclusively owns its metadata; duplication (via `clone`) builds a
/// fully independent deep copy rather than sharing anything, so destroying
/// either value never affects the other. The design leaves room for further
/// stat-like fields (size, permissions, timestamps) following the same
/// pattern as the pathname.
#[derive(Debug)]
pub struct Entry {
    pathname: Option<String>,
}

impl View for Entry {
    type V = Option<Seq<char>>;

    /// The pathname this entry carries, or `None` while it is blank.
    closed spec fn view(&self) -> Option<Seq<char>> {
        self.pathname.deep_view()
    }
}

impl Entry {
    /// Allocates a fresh, blank entry. In the underlying design this fails
    /// only on memory exhaustion, which is unrecoverable, so no error path
    /// exists here.
    pub fn new() -> (e: Entry)
        ensures
            e@ is None,
    {
        Entry { pathname: None }
    }

    /// Builds the entry a parsing step populated.
    pub(crate) fn from_header(pathname: Option<String>) -> (e: Entry)
        ensures
            e@ == pathname.deep_view(),
    {
        Entry { pathname }
    }

    /// Whether this entry carries a pathname. A populated entry always does;
    /// a blank one never does.
    pub fn has_pathname(&self) -> (r: bool)
        ensures
            r == (self@ is Some),
    {
        self.pathname.is_some()
    }

    /// Returns an owned copy of the pathname of this entry.
    ///
    /// A populated entry always carries a pathname — its absence would be a
    /// contract violation by the engine, not a recoverable condition — so
    /// callers must only ask populated entries.
    pub fn pathname(&self) -> (r: String)
        requires
            self@ is Some,
        ensures
            r@ == self@->0,
    {
        match &self.pathname {
            Some(s) => s.clone(),
            None => unreached(),
        }
    }
}

impl Clone for Entry {
    /// Duplicates the entry into an independently owned deep copy with the
    /// same metadata.
    fn clone(&self) -> (r: Self)
        ensures
            r@ == self@,
    {
        let pathname = match &self.pathname {
            Some(s) => Some(s.clone()),
            None => None,
        };
        Entry { pathname }
    }
}

/// Law: a duplicate made by `clone` carries the same pathname as its
/// original — two entries whose metadata agree answer `pathname` alike.
pub proof fn lemma_clone_preserves_pathname(original: Entry, duplicate: Entry)
    requires
        duplicate@ == original@,
        original@ is Some,
    ensures
        duplicate@->0 == original@->0,
{
}

} // verus!
