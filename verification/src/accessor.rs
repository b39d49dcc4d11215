//! The in-memory accessor: the verified model of the attribute directory.
//!
//! The real gateway reads and writes one control file per invocation; the
//! model holds the same name-to-content association in memory, as a log
//! of writes read from the newest entry back. The dispatcher is verified
//! against this model, and tests observe through it that a rejected
//! invocation never reaches an accessor at all.

use vstd::prelude::*;
use crate::text::str_eq;

verus! {

/// The content the store associates with a name: that of the newest
/// entry carrying the name, if any.
pub open spec fn lookup(store: Seq<(Seq<char>, Seq<char>)>, name: Seq<char>) -> Option<Seq<char>>
    decreases store.len(),
{
    if store.len() == 0 {
        None
    } else if store.last().0 == name {
        Some(store.last().1)
    } else {
        lookup(store.drop_last(), name)
    }
}

/// An in-memory attribute store: a log of `(name, content)` entries,
/// newest last.
pub struct MemAccessor {
    entries: Vec<(String, String)>,
}

impl View for MemAccessor {
    type V = Seq<(Seq<char>, Seq<char>)>;

    closed spec fn view(&self) -> Seq<(Seq<char>, Seq<char>)> {
        self.entries.deep_view()
    }
}

impl MemAccessor {
    /// An empty store: no attribute is present.
    pub fn new() -> (r: MemAccessor)
        ensures
            r@ == Seq::<(Seq<char>, Seq<char>)>::empty(),
    {
        let entries: Vec<(String, String)> = Vec::new();
        let r = MemAccessor { entries };
        proof {
            assert(r@ =~= Seq::<(Seq<char>, Seq<char>)>::empty());
        }
        r
    }

    /// Reads the content stored under a name, exactly as [`lookup`] gives
    /// it; no trimming or interpretation happens here.
    pub fn read(&self, name: &str) -> (r: Option<String>)
        ensures
            lookup(self@, name@) matches Some(c) ==> (r matches Some(s) && s@ == c),
            lookup(self@, name@) is None ==> r is None,
    {
        let n = self.entries.len();
        proof {
            assert(self@.subrange(0, n as int) =~= self@);
        }
        let mut i: usize = n;
        while i > 0
            invariant
                0 <= i <= n,
                n == self.entries.len(),
                self@ == self.entries.deep_view(),
                lookup(self@, name@) == lookup(self@.subrange(0, i as int), name@),
            decreases i,
        {
            proof {
                assert(self@[i - 1] == (self.entries@[i - 1].0@, self.entries@[i - 1].1@));
                assert(self@.subrange(0, i as int).last() == self@[i - 1]);
                assert(self@.subrange(0, i as int).drop_last() =~= self@.subrange(0, i - 1));
            }
            if str_eq(self.entries[i - 1].0.as_str(), name) {
                return Some(self.entries[i - 1].1.clone());
            }
            i = i - 1;
        }
        proof {
            assert(self@.subrange(0, 0) =~= Seq::<(Seq<char>, Seq<char>)>::empty());
        }
        None
    }

    /// Stores content under a name: appends an entry, so the name now
    /// reads back as this content and every other name is untouched.
    pub fn write(&mut self, name: &str, value: &str)
        ensures
            final(self)@ == old(self)@.push((name@, value@)),
            lookup(final(self)@, name@) == Some(value@),
            forall|other: Seq<char>|
                other != name@ ==> #[trigger] lookup(final(self)@, other) == lookup(
                    old(self)@,
                    other,
                ),
    {
        let entry = (name.to_owned(), value.to_owned());
        self.entries.push(entry);
        proof {
            assert(self@ =~= old(self)@.push((name@, value@)));
            assert(self@.drop_last() =~= old(self)@);
        }
    }
}

} // verus!
