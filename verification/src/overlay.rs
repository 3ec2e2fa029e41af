//! Virtual source overlay: an indirection layer in front of the compiler's
//! file reads. A path with a registered override is answered with the
//! override text; every other path passes through to the disk content
//! untouched. Registration happens before a compiler pass starts; during a
//! pass the overlay is only read, and nothing is ever written to disk.

use vstd::prelude::*;

verus! {

/// The overridden paths and their texts. Later registrations for the same
/// path win, as the view's `insert` order says.
pub struct SourceOverlay {
    entries: Vec<(String, String)>,
}

/// The map a sequence of registrations denotes: each later entry overrides
/// an earlier one for the same path.
pub open spec fn entries_map(s: Seq<(String, String)>) -> Map<Seq<char>, Seq<char>>
    decreases s.len(),
{
    if s.len() == 0 {
        Map::empty()
    } else {
        entries_map(s.drop_last()).insert(s.last().0@, s.last().1@)
    }
}

impl SourceOverlay {
    pub closed spec fn view(&self) -> Map<Seq<char>, Seq<char>> {
        entries_map(self.entries@)
    }

    /// A fresh overlay overrides nothing.
    pub fn new() -> (r: SourceOverlay)
        ensures
            r@ == Map::<Seq<char>, Seq<char>>::empty(),
    {
        SourceOverlay { entries: Vec::new() }
    }

    /// Registers `text` as the override for `path`; any earlier override for
    /// the same path is superseded. Nothing else changes.
    pub fn register(&mut self, path: String, text: String)
        ensures
            final(self)@ == old(self)@.insert(path@, text@),
    {
        let ghost old_entries = self.entries@;
        self.entries.push((path, text));
        proof {
            assert(self.entries@.drop_last() =~= old_entries);
        }
    }

    /// The override for `path`, if one is registered.
    pub fn resolve(&self, path: &str) -> (r: Option<&String>)
        ensures
            match r {
                Some(text) => self@.contains_key(path@) && self@[path@] == text@,
                None => !self@.contains_key(path@),
            },
    {
        let mut i: usize = self.entries.len();
        proof {
            assert(self.entries@.take(i as int) =~= self.entries@);
        }
        while i > 0
            invariant
                i <= self.entries@.len(),
                entries_map(self.entries@).contains_key(path@) == entries_map(
                    self.entries@.take(i as int),
                ).contains_key(path@),
                entries_map(self.entries@).contains_key(path@) ==> entries_map(self.entries@)[path@]
                    == entries_map(self.entries@.take(i as int))[path@],
            decreases i,
        {
            let idx: usize = i - 1;
            proof {
                assert(self.entries@.take(i as int).drop_last() =~= self.entries@.take(idx as int));
                assert(self.entries@.take(i as int).last() == self.entries@[idx as int]);
            }
            if crate::text::str_equal(self.entries[idx].0.as_str(), path) {
                return Some(&self.entries[idx].1);
            }
            i = idx;
        }
        proof {
            assert(self.entries@.take(0) =~= Seq::<(String, String)>::empty());
        }
        None
    }

    /// The compiler's read primitive, routed through the overlay: a
    /// registered path is answered with its override, every other path with
    /// the disk content handed in, unchanged.
    pub fn read_through(&self, path: &str, disk: String) -> (r: String)
        ensures
            self@.contains_key(path@) ==> r@ == self@[path@],
            !self@.contains_key(path@) ==> r@ == disk@,
    {
        match self.resolve(path) {
            Some(text) => text.clone(),
            None => disk,
        }
    }
}

} // verus!
