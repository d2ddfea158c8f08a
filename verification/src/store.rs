//! The configuration words as the persistent medium holds them.
//!
//! The medium itself (flash pages managed by the firmware) is out of reach
//! of this library.  [`ConfigStore`] is the table of tagged 16-bit words
//! that the firmware fills from the medium at boot and flushes back to it
//! after every accepted change.

use vstd::prelude::*;

verus! {

/// Tags at or above this bound have their top bit set, which the medium
/// reserves for itself.
pub const RESERVED_TAG_BOUND: u16 = 0x8000;

/// Why a word was not stored.
#[derive(Clone, Copy, Debug, PartialEq, Eq)]
pub enum WriteFault {
    /// The tag has its top bit set.
    ReservedTag,
}

/// Whether `tag` may name a stored word.
pub open spec fn tag_usable(tag: u16) -> bool {
    tag < RESERVED_TAG_BOUND
}

/// The word that `words` holds for `tag`, or `default` where it holds none.
pub open spec fn word_or(words: Map<u16, u16>, tag: u16, default: u16) -> u16 {
    if words.contains_key(tag) {
        words[tag]
    } else {
        default
    }
}

/// A table of 16-bit words addressed by small integer tags.
pub struct ConfigStore {
    entries: Vec<(u16, u16)>,
}

impl ConfigStore {
    /// No tag occurs twice and every tag is usable.
    #[verifier::type_invariant]
    spec fn well_formed(&self) -> bool {
        &&& forall|i: int| 0 <= i < self.entries@.len() ==> tag_usable(#[trigger] self.entries@[i].0)
        &&& forall|i: int, j: int|
            0 <= i < j < self.entries@.len() ==> (#[trigger] self.entries@[i]).0 != (
            #[trigger] self.entries@[j]).0
    }

    spec fn holds(&self, tag: u16) -> bool {
        exists|i: int| 0 <= i < self.entries@.len() && (#[trigger] self.entries@[i]).0 == tag
    }

    spec fn slot_of(&self, tag: u16) -> int {
        choose|i: int| 0 <= i < self.entries@.len() && (#[trigger] self.entries@[i]).0 == tag
    }

    /// The stored words by tag.
    pub closed spec fn view(&self) -> Map<u16, u16> {
        Map::new(|tag: u16| self.holds(tag), |tag: u16| self.entries@[self.slot_of(tag)].1)
    }

    /// A store that holds no word.
    pub fn new() -> (store: ConfigStore)
        ensures
            store@ == Map::<u16, u16>::empty(),
    {
        let store = ConfigStore { entries: Vec::new() };
        assert(store@ =~= Map::<u16, u16>::empty());
        store
    }

    fn find(&self, tag: u16) -> (slot: Option<usize>)
        ensures
            match slot {
                Some(i) => i < self.entries@.len() && self.entries@[i as int].0 == tag
                    && self@.contains_key(tag) && self@[tag] == self.entries@[i as int].1,
                None => !self@.contains_key(tag) && !self.holds(tag),
            },
    {
        proof {
            use_type_invariant(self);
        }
        let mut i: usize = 0;
        while i < self.entries.len()
            invariant
                self.well_formed(),
                i <= self.entries@.len(),
                forall|k: int| 0 <= k < i ==> (#[trigger] self.entries@[k]).0 != tag,
            decreases self.entries@.len() - i,
        {
            if self.entries[i].0 == tag {
                assert(self.holds(tag));
                assert(self.slot_of(tag) == i as int);
                return Some(i);
            }
            i += 1;
        }
        None
    }

    /// The word stored under `tag`, if there is one.
    pub fn get(&self, tag: u16) -> (word: Option<u16>)
        ensures
            word == (if self@.contains_key(tag) {
                Some(self@[tag])
            } else {
                None
            }),
    {
        match self.find(tag) {
            Some(i) => Some(self.entries[i].1),
            None => None,
        }
    }

    /// The word stored under `tag`, or `default` where the tag was never
    /// written.
    pub fn read(&self, tag: u16, default: u16) -> (word: u16)
        ensures
            word == word_or(self@, tag, default),
    {
        match self.find(tag) {
            Some(i) => self.entries[i].1,
            None => default,
        }
    }

    /// Stores `value` under `tag`, replacing what the tag held before.
    /// A reserved tag is refused and leaves the store as it was.
    pub fn write(&mut self, tag: u16, value: u16) -> (outcome: Result<(), WriteFault>)
        ensures
            tag_usable(tag) ==> outcome == Ok::<(), WriteFault>(()) && final(self)@ == old(
                self,
            )@.insert(tag, value),
            !tag_usable(tag) ==> outcome == Err::<(), WriteFault>(WriteFault::ReservedTag)
                && final(self)@ == old(self)@,
    {
        if tag >= RESERVED_TAG_BOUND {
            return Err(WriteFault::ReservedTag);
        }
        proof {
            use_type_invariant(&*self);
        }
        let slot = self.find(tag);
        let ghost before = *self;
        // The table is taken out while it changes: the invariant is asked of
        // the finished table only.
        let mut entries: Vec<(u16, u16)> = Vec::new();
        core::mem::swap(&mut self.entries, &mut entries);
        match slot {
            Some(i) => {
                entries[i] = (tag, value);
            },
            None => {
                entries.push((tag, value));
            },
        }
        core::mem::swap(&mut self.entries, &mut entries);
        proof {
            let after = *self;
            let at: int = match slot {
                Some(i) => i as int,
                None => before.entries@.len() as int,
            };
            assert(after.entries@[at] == (tag, value));
            assert forall|t: u16| after.holds(t) == (t == tag || before.holds(t)) by {
                if before.holds(t) {
                    let k = before.slot_of(t);
                    assert(after.entries@[k].0 == t);
                }
                if after.holds(t) && t != tag {
                    let k = after.slot_of(t);
                    assert(before.entries@[k].0 == t);
                }
            }
            assert forall|t: u16| after.holds(t) implies after@[t] == before@.insert(tag, value)[t] by {
                let k = after.slot_of(t);
                if t == tag {
                    assert(k == at);
                } else {
                    assert(before.entries@[k].0 == t);
                    assert(before.slot_of(t) == k);
                }
            }
            assert(after@ =~= before@.insert(tag, value));
        }
        Ok(())
    }
}

/// A word written under a usable tag is the word read back under that tag,
/// whatever default the reader supplies.
pub proof fn lemma_written_word_is_read_back(store: ConfigStore, tag: u16, value: u16, default: u16)
    requires
        tag_usable(tag),
    ensures
        word_or(store@.insert(tag, value), tag, default) == value,
{
}

/// A tag that was never written reads as the default that the reader
/// supplies: on an empty store every tag does.
pub proof fn lemma_unwritten_tag_reads_default(store: ConfigStore, tag: u16, default: u16)
    ensures
        !store@.contains_key(tag) ==> word_or(store@, tag, default) == default,
        word_or(Map::<u16, u16>::empty(), tag, default) == default,
{
}

/// Writing one tag changes what no other tag reads.
pub proof fn lemma_write_keeps_other_tags(
    store: ConfigStore,
    tag: u16,
    value: u16,
    other: u16,
    default: u16,
)
    requires
        other != tag,
    ensures
        word_or(store@.insert(tag, value), other, default) == word_or(store@, other, default),
{
}

} // verus!
