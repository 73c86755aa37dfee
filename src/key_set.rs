//! A set of node keys, stored as a list of distinct strings.
use vstd::prelude::*;

verus! {

/// A set of strings; each string is held once.
pub struct KeySet {
    keys: Vec<String>,
}

impl View for KeySet {
    type V = Set<Seq<char>>;

    closed spec fn view(&self) -> Set<Seq<char>> {
        Set::new(|k: Seq<char>| exists|i: int| 0 <= i < self.keys@.len() && self.keys@[i]@ == k)
    }
}

impl KeySet {
    /// No key is stored twice.
    pub closed spec fn wf(&self) -> bool {
        forall|i: int, j: int|
            0 <= i < j < self.keys@.len() ==> self.keys@[i]@ != self.keys@[j]@
    }

    pub fn new() -> (r: KeySet)
        ensures
            r.wf(),
            r@ == Set::<Seq<char>>::empty(),
    {
        let r = KeySet { keys: Vec::new() };
        assert(r@ =~= Set::<Seq<char>>::empty());
        r
    }

    fn position(&self, key: &String) -> (r: Option<usize>)
        ensures
            match r {
                Some(i) => i < self.keys@.len() && self.keys@[i as int]@ == key@,
                None => !self@.contains(key@),
            },
    {
        let mut i: usize = 0;
        while i < self.keys.len()
            invariant
                i <= self.keys@.len(),
                forall|j: int| 0 <= j < i ==> self.keys@[j]@ != key@,
            decreases self.keys@.len() - i,
        {
            if self.keys[i] == *key {
                return Some(i);
            }
            i = i + 1;
        }
        None
    }

    pub fn contains(&self, key: &String) -> (r: bool)
        ensures
            r == self@.contains(key@),
    {
        match self.position(key) {
            Some(_) => true,
            None => false,
        }
    }

    pub fn insert(&mut self, key: String)
        requires
            old(self).wf(),
        ensures
            final(self).wf(),
            final(self)@ == old(self)@.insert(key@),
    {
        if self.position(&key).is_none() {
            let ghost k = key@;
            self.keys.push(key);
            assert(self@ =~= old(self)@.insert(k)) by {
                assert(self.keys@[self.keys@.len() - 1]@ == k);
                assert forall|x: Seq<char>| old(self)@.contains(x) implies self@.contains(x) by {
                    let i = choose|i: int| 0 <= i < old(self).keys@.len() && old(self).keys@[i]@ == x;
                    assert(self.keys@[i] == old(self).keys@[i]);
                }
            }
        } else {
            assert(self@ =~= old(self)@.insert(key@));
        }
    }

    pub fn remove(&mut self, key: &String)
        requires
            old(self).wf(),
        ensures
            final(self).wf(),
            final(self)@ == old(self)@.remove(key@),
    {
        match self.position(key) {
            Some(i) => {
                self.keys.remove(i);
                assert(self@ =~= old(self)@.remove(key@)) by {
                    assert forall|x: Seq<char>| #[trigger] old(self)@.remove(key@).contains(x) implies self@.contains(x) by {
                        let j = choose|j: int| 0 <= j < old(self).keys@.len() && old(self).keys@[j]@ == x;
                        if j < i {
                            assert(self.keys@[j] == old(self).keys@[j]);
                        } else {
                            assert(self.keys@[j - 1] == old(self).keys@[j]);
                        }
                    }
                    assert forall|x: Seq<char>| #[trigger] self@.contains(x) implies old(self)@.remove(key@).contains(x) by {
                        let j = choose|j: int| 0 <= j < self.keys@.len() && self.keys@[j]@ == x;
                        if j < i {
                            assert(self.keys@[j] == old(self).keys@[j]);
                        } else {
                            assert(self.keys@[j] == old(self).keys@[j + 1]);
                        }
                    }
                }
            },
            None => {
                assert(self@ =~= old(self)@.remove(key@));
            },
        }
    }

    pub fn clear(&mut self)
        ensures
            final(self).wf(),
            final(self)@ == Set::<Seq<char>>::empty(),
    {
        self.keys.clear();
        assert(self@ =~= Set::<Seq<char>>::empty());
    }

    pub fn len(&self) -> (r: usize)
        requires
            self.wf(),
        ensures
            r == self@.len(),
    {
        proof { self.lemma_len(); }
        self.keys.len()
    }

    proof fn lemma_len(&self)
        requires
            self.wf(),
        ensures
            self@.finite(),
            self@.len() == self.keys@.len(),
    {
        let s = self.keys@.map_values(|k: String| k@);
        assert forall|i: int, j: int| 0 <= i < j < s.len() implies s[i] != s[j] by {}
        assert(s.no_duplicates());
        s.unique_seq_to_set();
        assert(s.to_set() =~= self@) by {
            assert forall|x: Seq<char>| self@.contains(x) implies s.to_set().contains(x) by {
                let i = choose|i: int| 0 <= i < self.keys@.len() && self.keys@[i]@ == x;
                assert(s[i] == x);
            }
        }
    }
}

} // verus!
