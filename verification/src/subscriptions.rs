//! The games that the client wants streamed, kept across reconnects.

use vstd::prelude::*;
use crate::frames::{framed, normalize_frame, subscribe_frame, subscribe_text};

verus! {

/// The set of subscribed game identifiers, in the order in which they were
/// first added. No identifier is held twice; every function that reads the
/// set says so of its view.
#[derive(Debug, PartialEq, Eq)]
pub struct SubscriptionSet {
    ids: Vec<String>,
}

impl View for SubscriptionSet {
    type V = Seq<Seq<char>>;

    closed spec fn view(&self) -> Seq<Seq<char>> {
        Seq::new(self.ids@.len(), |i: int| self.ids@[i]@)
    }
}

impl SubscriptionSet {
    /// No identifier is held twice.
    #[verifier::type_invariant]
    pub closed spec fn wf(self) -> bool {
        self@.no_duplicates()
    }

    /// The empty set.
    pub fn new() -> (s: Self)
        ensures
            s@ == Seq::<Seq<char>>::empty(),
    {
        let s = SubscriptionSet { ids: Vec::new() };
        assert(s@ =~= Seq::<Seq<char>>::empty());
        s
    }

    /// The number of subscribed games.
    pub fn len(&self) -> (n: usize)
        ensures
            n == self@.len(),
            self@.no_duplicates(),
    {
        proof {
            use_type_invariant(self);
        }
        self.ids.len()
    }

    /// Whether `game_id` is subscribed.
    pub fn contains(&self, game_id: &str) -> (b: bool)
        ensures
            b == self@.contains(game_id@),
            self@.no_duplicates(),
    {
        proof {
            use_type_invariant(self);
        }
        let key = String::from_str(game_id);
        let mut i: usize = 0;
        while i < self.ids.len()
            invariant
                i <= self.ids.len(),
                key@ == game_id@,
                self@.no_duplicates(),
                forall|j: int| 0 <= j < i ==> self@[j] != game_id@,
            decreases self.ids.len() - i,
        {
            if self.ids[i] == key {
                assert(self@[i as int] == game_id@);
                return true;
            }
            i = i + 1;
        }
        false
    }

    /// Adds `game_id`; a game that is subscribed already stays as it is.
    /// Returns whether the set grew.
    pub fn insert(&mut self, game_id: &str) -> (added: bool)
        ensures
            added == !old(self)@.contains(game_id@),
            added ==> final(self)@ == old(self)@.push(game_id@),
            !added ==> final(self)@ == old(self)@,
            final(self)@.no_duplicates(),
            final(self)@.contains(game_id@),
    {
        proof {
            use_type_invariant(&*self);
        }
        if self.contains(game_id) {
            false
        } else {
            let ghost before = self@;
            let mut held = SubscriptionSet::new();
            core::mem::swap(self, &mut held);
            proof {
                use_type_invariant(&held);
            }
            let mut ids = held.ids;
            ids.push(String::from_str(game_id));
            let ghost after = Seq::new(ids@.len(), |i: int| ids@[i]@);
            assert(after =~= before.push(game_id@));
            assert(after.no_duplicates()) by {
                assert forall|i: int, j: int|
                    0 <= i < after.len() && 0 <= j < after.len() && i != j implies after[i]
                    != after[j] by {
                    if i < before.len() {
                        assert(before.contains(before[i]));
                    }
                    if j < before.len() {
                        assert(before.contains(before[j]));
                    }
                }
            }
            *self = SubscriptionSet { ids };
            assert(self@ =~= before.push(game_id@));
            assert(self@[self@.len() - 1] == game_id@);
            true
        }
    }

    /// The frames that subscribe again to every game of the set, one for
    /// each, in the order of the set.
    pub fn replay_frames(&self) -> (frames: Vec<String>)
        ensures
            frames.len() == self@.len(),
            forall|i: int|
                0 <= i < frames.len() ==> (#[trigger] frames[i])@ == framed(
                    subscribe_text(self@[i]),
                ),
            self@.no_duplicates(),
    {
        proof {
            use_type_invariant(self);
        }
        let mut frames: Vec<String> = Vec::new();
        let mut i: usize = 0;
        while i < self.ids.len()
            invariant
                i <= self.ids.len(),
                frames.len() == i,
                forall|j: int|
                    0 <= j < i ==> (#[trigger] frames[j])@ == framed(subscribe_text(self@[j])),
            decreases self.ids.len() - i,
        {
            let line = subscribe_frame(self.ids[i].as_str());
            frames.push(normalize_frame(line.as_str()));
            i = i + 1;
        }
        frames
    }

    /// The identifiers of the set, in order.
    pub fn ids(&self) -> (r: Vec<String>)
        ensures
            r.len() == self@.len(),
            forall|i: int| 0 <= i < r.len() ==> (#[trigger] r[i])@ == self@[i],
            self@.no_duplicates(),
    {
        proof {
            use_type_invariant(self);
        }
        let mut r: Vec<String> = Vec::new();
        let mut i: usize = 0;
        while i < self.ids.len()
            invariant
                i <= self.ids.len(),
                r.len() == i,
                forall|j: int| 0 <= j < i ==> (#[trigger] r[j])@ == self@[j],
            decreases self.ids.len() - i,
        {
            r.push(self.ids[i].clone());
            i = i + 1;
        }
        r
    }
}

} // verus!
