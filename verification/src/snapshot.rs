//! The optional static snapshot: a frozen, build-time map from a fixed
//! list of (kind, id) pairs to pre-fetched JSON bodies, for
//! dependency-free testing and demo use.
//!
//! The snapshot is constructed once and never updated at runtime; it is
//! not a live cache. A caller that wants real caching configures the
//! HTTP-level cache instead.

use vstd::prelude::*;

verus! {

/// One recorded response: the resource kind's path segment, the numeric
/// id, and the JSON body the server answered with.
#[derive(Debug, Clone, PartialEq, Eq)]
pub struct SnapshotEntry {
    /// The kind's fixed lowercase-hyphenated path segment.
    pub kind: String,
    /// The recorded resource's id.
    pub id: i64,
    /// The recorded JSON body.
    pub body: String,
}

/// The body recorded for `(kind, id)`: the first matching entry's, if any.
pub open spec fn spec_snapshot_lookup(
    entries: Seq<SnapshotEntry>,
    kind: Seq<char>,
    id: int,
) -> Option<Seq<char>>
    decreases entries.len(),
{
    if entries.len() == 0 {
        None
    } else if entries[0].kind@ == kind && entries[0].id == id {
        Some(entries[0].body@)
    } else {
        spec_snapshot_lookup(entries.drop_first(), kind, id)
    }
}

/// A frozen collection of recorded responses.
#[derive(Debug, Clone, PartialEq, Eq)]
pub struct Snapshot {
    entries: Vec<SnapshotEntry>,
}

impl Snapshot {
    /// The recorded entries, in their fixed order.
    pub closed spec fn entries(&self) -> Seq<SnapshotEntry> {
        self.entries@
    }

    /// Freezes `entries` into a snapshot.
    pub fn new(entries: Vec<SnapshotEntry>) -> (s: Snapshot)
        ensures
            s.entries() == entries@,
    {
        Snapshot { entries }
    }

    /// The body recorded for `(kind, id)`, or nothing when the snapshot
    /// holds no such request.
    pub fn lookup<'a>(&'a self, kind: &str, id: i64) -> (r: Option<&'a String>)
        ensures
            match r {
                Some(b) => spec_snapshot_lookup(self.entries(), kind@, id as int) == Some(b@),
                None => spec_snapshot_lookup(self.entries(), kind@, id as int) is None,
            },
    {
        let needle: String = kind.to_owned();
        let n = self.entries.len();
        let mut i: usize = 0;
        assert(self.entries@.skip(0) =~= self.entries@);
        while i < n
            invariant
                n == self.entries@.len(),
                i <= n,
                needle@ == kind@,
                spec_snapshot_lookup(self.entries@.skip(i as int), kind@, id as int)
                    == spec_snapshot_lookup(self.entries@, kind@, id as int),
                self.entries() == self.entries@,
            decreases n - i,
        {
            proof {
                assert(self.entries@.skip(i as int)[0] == self.entries@[i as int]);
                assert(self.entries@.skip(i as int).drop_first() =~= self.entries@.skip(
                    i as int + 1,
                ));
            }
            let e: &SnapshotEntry = &self.entries[i];
            assert(*e == self.entries@[i as int]);
            if e.kind == needle && e.id == id {
                proof {
                    assert(spec_snapshot_lookup(self.entries@, kind@, id as int) == Some(
                        self.entries@[i as int].body@,
                    ));
                }
                return Some(&e.body);
            }
            i = i + 1;
        }
        assert(self.entries@.skip(n as int) =~= Seq::<SnapshotEntry>::empty());
        None
    }
}

} // verus!
