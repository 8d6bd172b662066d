//! The registry of named keychain files.

use vstd::prelude::*;
use vstd::string::*;

use crate::error::Error;

verus! {

/// The registry of named keychain files: each name holds the encrypted bytes
/// of one keychain. The directory itself is mirrored by the caller; this is
/// the rule set that every change to it follows.
pub struct KeychainStore {
    names: Vec<String>,
    contents: Vec<Vec<u8>>,
    files: Ghost<Map<Seq<char>, Seq<u8>>>,
}

impl View for KeychainStore {
    type V = Map<Seq<char>, Seq<u8>>;

    closed spec fn view(&self) -> Map<Seq<char>, Seq<u8>> {
        self.files@
    }
}

impl KeychainStore {
    /// Names are unique, and the two vectors list exactly the files of the view.
    pub closed spec fn wf(&self) -> bool {
        &&& self.names@.len() == self.contents@.len()
        &&& forall|i: int|
            0 <= i < self.names@.len() ==> self.files@.contains_key(#[trigger] self.names@[i]@)
                && self.files@[self.names@[i]@] == self.contents@[i]@
        &&& forall|k: Seq<char>|
            #[trigger] self.files@.contains_key(k) ==> exists|i: int|
                0 <= i < self.names@.len() && #[trigger] self.names@[i]@ == k
        &&& forall|i: int, j: int|
            0 <= i < self.names@.len() && 0 <= j < self.names@.len() && i != j
                ==> #[trigger] self.names@[i]@ != #[trigger] self.names@[j]@
    }

    pub fn new() -> (r: KeychainStore)
        ensures
            r.wf(),
            r@ == Map::<Seq<char>, Seq<u8>>::empty(),
    {
        KeychainStore { names: Vec::new(), contents: Vec::new(), files: Ghost(Map::empty()) }
    }

    fn find(&self, name: &str) -> (r: Option<usize>)
        requires
            self.wf(),
        ensures
            r is Some <==> self@.contains_key(name@),
            r matches Some(i) ==> i < self.names@.len() && self.names@[i as int]@ == name@,
    {
        let target = String::from_str(name);
        let mut i: usize = 0;
        while i < self.names.len()
            invariant
                self.wf(),
                target@ == name@,
                i <= self.names@.len(),
                forall|j: int| 0 <= j < i ==> self.names@[j]@ != name@,
            decreases self.names@.len() - i,
        {
            if self.names[i] == target {
                return Some(i);
            }
            i += 1;
        }
        None
    }

    /// Whether a keychain of this name exists.
    pub fn contains(&self, name: &str) -> (r: bool)
        requires
            self.wf(),
        ensures
            r == self@.contains_key(name@),
    {
        self.find(name).is_some()
    }

    /// The names of all keychains, each once.
    pub fn list(&self) -> (r: Vec<String>)
        requires
            self.wf(),
        ensures
            forall|i: int| 0 <= i < r@.len() ==> self@.contains_key(#[trigger] r@[i]@),
            forall|k: Seq<char>|
                #[trigger] self@.contains_key(k) ==> exists|i: int| 0 <= i < r@.len() && #[trigger] r@[i]@ == k,
            forall|i: int, j: int|
                0 <= i < r@.len() && 0 <= j < r@.len() && i != j ==> #[trigger] r@[i]@ != #[trigger] r@[j]@,
    {
        let mut out: Vec<String> = Vec::new();
        let mut i: usize = 0;
        while i < self.names.len()
            invariant
                self.wf(),
                i <= self.names@.len(),
                out@.len() == i,
                forall|j: int| 0 <= j < i ==> #[trigger] out@[j]@ == self.names@[j]@,
            decreases self.names@.len() - i,
        {
            out.push(self.names[i].clone());
            i += 1;
        }
        proof {
            assert forall|k: Seq<char>| #[trigger] self@.contains_key(k) implies exists|i: int|
                0 <= i < out@.len() && #[trigger] out@[i]@ == k by {
                let j = choose|j: int| 0 <= j < self.names@.len() && #[trigger] self.names@[j]@ == k;
                assert(out@[j]@ == k);
            }
            assert forall|i: int, j: int|
                0 <= i < out@.len() && 0 <= j < out@.len() && i != j implies #[trigger] out@[i]@
                    != #[trigger] out@[j]@ by {
                assert(self.names@[i]@ != self.names@[j]@);
            }
        }
        out
    }

    /// The encrypted bytes of a keychain; `NotFound` when there is none of that name.
    pub fn read(&self, name: &str) -> (r: Result<&[u8], Error>)
        requires
            self.wf(),
        ensures
            r is Ok <==> self@.contains_key(name@),
            r matches Ok(b) ==> b@ == self@[name@],
            r is Err ==> r == Err::<&[u8], Error>(Error::NotFound),
    {
        match self.find(name) {
            Some(i) => Ok(self.contents[i].as_slice()),
            None => Err(Error::NotFound),
        }
    }

    /// Adds a keychain file; `AlreadyExists`, with nothing changed, when the name is taken.
    pub fn create_exclusive(&mut self, name: &str, bytes: Vec<u8>) -> (r: Result<(), Error>)
        requires
            old(self).wf(),
        ensures
            final(self).wf(),
            r is Ok <==> !old(self)@.contains_key(name@),
            r is Ok ==> final(self)@ == old(self)@.insert(name@, bytes@),
            r is Err ==> r == Err::<(), Error>(Error::AlreadyExists) && final(self)@ == old(self)@,
    {
        if self.find(name).is_some() {
            return Err(Error::AlreadyExists);
        }
        self.push_entry(String::from_str(name), bytes);
        Ok(())
    }

    fn push_entry(&mut self, name: String, bytes: Vec<u8>)
        requires
            old(self).wf(),
            !old(self)@.contains_key(name@),
        ensures
            final(self).wf(),
            final(self)@ == old(self)@.insert(name@, bytes@),
    {
        let ghost key = name@;
        let ghost value = bytes@;
        let ghost n = self.names@.len();
        self.names.push(name);
        self.contents.push(bytes);
        self.files = Ghost(self.files@.insert(key, value));
        proof {
            assert(self.names@[n as int]@ == key);
            assert forall|k: Seq<char>| #[trigger] self.files@.contains_key(k) implies exists|i: int|
                0 <= i < self.names@.len() && #[trigger] self.names@[i]@ == k by {
                if k != key {
                    let j = choose|j: int| 0 <= j < old(self).names@.len() && #[trigger] old(self).names@[j]@ == k;
                    assert(self.names@[j]@ == k);
                }
            }
            assert forall|i: int| 0 <= i < self.names@.len() implies self.files@.contains_key(
                #[trigger] self.names@[i]@) && self.files@[self.names@[i]@] == self.contents@[i]@ by {
                if i < n {
                    assert(old(self).files@.contains_key(old(self).names@[i]@));
                }
            }
        }
    }

    fn remove_at(&mut self, i: usize) -> (r: (String, Vec<u8>))
        requires
            old(self).wf(),
            i < old(self).names@.len(),
        ensures
            final(self).wf(),
            r.0@ == old(self).names@[i as int]@,
            r.1@ == old(self)@[r.0@],
            old(self)@.contains_key(r.0@),
            final(self)@ == old(self)@.remove(r.0@),
    {
        let ghost n = self.names@.len();
        let name = self.names.remove(i);
        let bytes = self.contents.remove(i);
        let ghost key = name@;
        self.files = Ghost(self.files@.remove(key));
        proof {
            assert forall|a: int, b: int|
                0 <= a < self.names@.len() && 0 <= b < self.names@.len() && a != b implies #[trigger] self.names@[a]@
                    != #[trigger] self.names@[b]@ by {
                let a0 = if a < i { a } else { a + 1 };
                let b0 = if b < i { b } else { b + 1 };
                assert(old(self).names@[a0]@ != old(self).names@[b0]@);
            }
            assert forall|a: int| 0 <= a < self.names@.len() implies self.files@.contains_key(
                #[trigger] self.names@[a]@) && self.files@[self.names@[a]@] == self.contents@[a]@ by {
                let a0 = if a < i { a } else { a + 1 };
                assert(old(self).names@[a0]@ != old(self).names@[i as int]@);
                assert(old(self).files@.contains_key(old(self).names@[a0]@));
            }
            assert forall|k: Seq<char>| #[trigger] self.files@.contains_key(k) implies exists|a: int|
                0 <= a < self.names@.len() && #[trigger] self.names@[a]@ == k by {
                let j = choose|j: int| 0 <= j < old(self).names@.len() && #[trigger] old(self).names@[j]@ == k;
                assert(j != i);
                let a = if j < i { j } else { j - 1 };
                assert(self.names@[a]@ == k);
            }
            assert(old(self).files@.contains_key(old(self).names@[i as int]@));
        }
        (name, bytes)
    }

    /// Replaces the bytes of an existing keychain in one step; `NotFound`,
    /// with nothing changed, when there is none of that name.
    pub fn replace(&mut self, name: &str, bytes: Vec<u8>) -> (r: Result<(), Error>)
        requires
            old(self).wf(),
        ensures
            final(self).wf(),
            r is Ok <==> old(self)@.contains_key(name@),
            r is Ok ==> final(self)@ == old(self)@.insert(name@, bytes@),
            r is Err ==> r == Err::<(), Error>(Error::NotFound) && final(self)@ == old(self)@,
    {
        match self.find(name) {
            None => Err(Error::NotFound),
            Some(i) => {
                let (old_name, _) = self.remove_at(i);
                self.push_entry(old_name, bytes);
                proof {
                    assert(self@ =~= old(self)@.insert(name@, bytes@));
                }
                Ok(())
            },
        }
    }

    /// Moves a keychain to a new name. `NotFound` when the old name is absent,
    /// else `AlreadyExists` when the new name is taken; nothing changes on error.
    pub fn rename(&mut self, old_name: &str, new_name: &str) -> (r: Result<(), Error>)
        requires
            old(self).wf(),
        ensures
            final(self).wf(),
            !old(self)@.contains_key(old_name@) ==> r == Err::<(), Error>(Error::NotFound),
            old(self)@.contains_key(old_name@) && old(self)@.contains_key(new_name@) ==> r == Err::<(), Error>(
                Error::AlreadyExists,
            ),
            r is Ok <==> old(self)@.contains_key(old_name@) && !old(self)@.contains_key(new_name@),
            r is Ok ==> final(self)@ == old(self)@.remove(old_name@).insert(new_name@, old(self)@[old_name@]),
            r is Err ==> final(self)@ == old(self)@,
    {
        let i = match self.find(old_name) {
            None => return Err(Error::NotFound),
            Some(i) => i,
        };
        if self.find(new_name).is_some() {
            return Err(Error::AlreadyExists);
        }
        let (_, bytes) = self.remove_at(i);
        self.push_entry(String::from_str(new_name), bytes);
        Ok(())
    }

    /// Deletes a keychain for good; absent names are left as they are.
    pub fn delete(&mut self, name: &str)
        requires
            old(self).wf(),
        ensures
            final(self).wf(),
            final(self)@ == old(self)@.remove(name@),
    {
        match self.find(name) {
            None => {
                assert(self@ =~= old(self)@.remove(name@));
            },
            Some(i) => {
                self.remove_at(i);
            },
        }
    }
}

} // verus!
