//! The users that are connected, each with the sender that reaches them.

use vstd::prelude::*;

verus! {

/// The map that a sequence of (name, sender) entries describes.
pub open spec fn map_of<S>(s: Seq<(String, S)>) -> Map<Seq<char>, S>
    decreases s.len(),
{
    if s.len() == 0 {
        Map::empty()
    } else {
        map_of(s.drop_last()).insert(s.last().0@, s.last().1)
    }
}

/// No name occurs twice among the entries.
pub open spec fn names_unique<S>(s: Seq<(String, S)>) -> bool {
    forall|i: int, j: int| 0 <= i < j < s.len() ==> (#[trigger] s[i]).0@ != (#[trigger] s[j]).0@
}

proof fn lemma_absent<S>(s: Seq<(String, S)>, k: Seq<char>)
    requires
        forall|i: int| 0 <= i < s.len() ==> (#[trigger] s[i]).0@ != k,
    ensures
        !map_of(s).dom().contains(k),
    decreases s.len(),
{
    if s.len() > 0 {
        let d = s.drop_last();
        assert forall|i: int| 0 <= i < d.len() implies (#[trigger] d[i]).0@ != k by {
            assert(d[i] == s[i]);
        }
        lemma_absent(d, k);
    }
}

proof fn lemma_entry<S>(s: Seq<(String, S)>, i: int)
    requires
        names_unique(s),
        0 <= i < s.len(),
    ensures
        map_of(s).dom().contains(s[i].0@),
        map_of(s)[s[i].0@] == s[i].1,
    decreases s.len(),
{
    let d = s.drop_last();
    if i < s.len() - 1 {
        assert(d[i] == s[i]);
        lemma_unique_drop_last(s);
        lemma_entry(d, i);
        assert(s[i].0@ != s.last().0@);
    }
}

proof fn lemma_present<S>(s: Seq<(String, S)>, k: Seq<char>) -> (i: int)
    requires
        map_of(s).dom().contains(k),
    ensures
        0 <= i < s.len(),
        s[i].0@ == k,
{
    if forall|i: int| 0 <= i < s.len() ==> (#[trigger] s[i]).0@ != k {
        lemma_absent(s, k);
    }
    choose|i: int| 0 <= i < s.len() && (#[trigger] s[i]).0@ == k
}

proof fn lemma_unique_drop_last<S>(s: Seq<(String, S)>)
    requires
        names_unique(s),
        s.len() > 0,
    ensures
        names_unique(s.drop_last()),
{
    let d = s.drop_last();
    assert forall|a: int, b: int| 0 <= a < b < d.len() implies (#[trigger] d[a]).0@ != (
    #[trigger] d[b]).0@ by {
        assert(d[a] == s[a] && d[b] == s[b]);
    }
}

proof fn lemma_size<S>(s: Seq<(String, S)>)
    requires
        names_unique(s),
    ensures
        map_of(s).dom().finite(),
        map_of(s).dom().len() == s.len(),
    decreases s.len(),
{
    if s.len() > 0 {
        let d = s.drop_last();
        lemma_unique_drop_last(s);
        lemma_size(d);
        assert forall|i: int| 0 <= i < d.len() implies (#[trigger] d[i]).0@ != s.last().0@ by {
            assert(d[i] == s[i]);
        }
        lemma_absent(d, s.last().0@);
    }
}

proof fn lemma_update<S>(s: Seq<(String, S)>, i: int, e: (String, S))
    requires
        names_unique(s),
        0 <= i < s.len(),
        e.0@ == s[i].0@,
    ensures
        names_unique(s.update(i, e)),
        map_of(s.update(i, e)) == map_of(s).insert(e.0@, e.1),
    decreases s.len(),
{
    let u = s.update(i, e);
    let d = s.drop_last();
    assert forall|a: int, b: int| 0 <= a < b < u.len() implies (#[trigger] u[a]).0@ != (
    #[trigger] u[b]).0@ by {
        assert(u[a].0@ == s[a].0@ && u[b].0@ == s[b].0@);
    }
    if i == s.len() - 1 {
        assert(u.drop_last() =~= d);
        assert(map_of(u) =~= map_of(s).insert(e.0@, e.1));
    } else {
        lemma_unique_drop_last(s);
        assert(u.drop_last() =~= d.update(i, e));
        assert(d[i] == s[i]);
        lemma_update(d, i, e);
        assert(u.last() == s.last());
        assert(s[i].0@ != s.last().0@);
        assert(map_of(u) =~= map_of(s).insert(e.0@, e.1));
    }
}

proof fn lemma_remove<S>(s: Seq<(String, S)>, i: int)
    requires
        names_unique(s),
        0 <= i < s.len(),
    ensures
        names_unique(s.remove(i)),
        map_of(s.remove(i)) == map_of(s).remove(s[i].0@),
    decreases s.len(),
{
    let r = s.remove(i);
    let d = s.drop_last();
    let k = s[i].0@;
    assert forall|a: int, b: int| 0 <= a < b < r.len() implies (#[trigger] r[a]).0@ != (
    #[trigger] r[b]).0@ by {
        let a2 = if a < i { a } else { a + 1 };
        let b2 = if b < i { b } else { b + 1 };
        assert(r[a] == s[a2] && r[b] == s[b2]);
    }
    lemma_unique_drop_last(s);
    if i == s.len() - 1 {
        assert(r =~= d);
        assert forall|j: int| 0 <= j < d.len() implies (#[trigger] d[j]).0@ != k by {
            assert(d[j] == s[j]);
        }
        lemma_absent(d, k);
        assert(map_of(r) =~= map_of(s).remove(k));
    } else {
        assert(r.drop_last() =~= d.remove(i));
        assert(d[i] == s[i]);
        lemma_remove(d, i);
        assert(r.last() == s.last());
        assert(s[i].0@ != s.last().0@);
        assert(map_of(r) =~= map_of(s).remove(k));
    }
}

/// The connected users by name, each with the sender that reaches them.
/// A name is registered at most once.
pub struct UserRegistry<S> {
    entries: Vec<(String, S)>,
}

impl<S> View for UserRegistry<S> {
    type V = Map<Seq<char>, S>;

    closed spec fn view(&self) -> Map<Seq<char>, S> {
        map_of(self.entries@)
    }
}

impl<S> UserRegistry<S> {
    #[verifier::type_invariant]
    spec fn wf(&self) -> bool {
        names_unique(self.entries@)
    }

    /// A registry with nobody in it.
    pub fn new() -> (r: Self)
        ensures
            r@ == Map::<Seq<char>, S>::empty(),
            r@.dom().finite(),
    {
        UserRegistry { entries: Vec::new() }
    }

    /// Where `name` stands among the entries, if it is registered.
    fn position(&self, name: &str) -> (r: Option<usize>)
        ensures
            r matches Some(i) ==> i < self.entries@.len() && self.entries@[i as int].0@ == name@,
            r is None ==> forall|i: int|
                0 <= i < self.entries@.len() ==> (#[trigger] self.entries@[i]).0@ != name@,
    {
        let target = name.to_owned();
        let n = self.entries.len();
        let mut i: usize = 0;
        while i < n
            invariant
                n == self.entries@.len(),
                target@ == name@,
                i <= n,
                forall|j: int| 0 <= j < i ==> (#[trigger] self.entries@[j]).0@ != name@,
            decreases n - i,
        {
            if self.entries[i].0 == target {
                return Some(i);
            }
            i = i + 1;
        }
        None
    }

    /// How many users are registered.
    pub fn len(&self) -> (n: usize)
        ensures
            self@.dom().finite(),
            n == self@.dom().len(),
    {
        proof {
            use_type_invariant(self);
            lemma_size(self.entries@);
        }
        self.entries.len()
    }

    /// Whether a user of that name is registered.
    pub fn contains(&self, name: &str) -> (b: bool)
        ensures
            b == self@.dom().contains(name@),
    {
        proof {
            use_type_invariant(self);
        }
        match self.position(name) {
            Some(i) => {
                proof {
                    lemma_entry(self.entries@, i as int);
                }
                true
            },
            None => {
                proof {
                    lemma_absent(self.entries@, name@);
                }
                false
            },
        }
    }

    /// The sender registered under `name`, if any.
    pub fn get(&self, name: &str) -> (r: Option<&S>)
        ensures
            self@.dom().contains(name@) ==> r == Some(&self@[name@]),
            !self@.dom().contains(name@) ==> r is None,
    {
        proof {
            use_type_invariant(self);
        }
        match self.position(name) {
            Some(i) => {
                proof {
                    lemma_entry(self.entries@, i as int);
                }
                Some(&self.entries[i].1)
            },
            None => {
                proof {
                    lemma_absent(self.entries@, name@);
                }
                None
            },
        }
    }

    /// Registers `sender` under `name`, replacing the sender registered under
    /// that name before, which is handed back.
    pub fn insert(&mut self, name: String, sender: S) -> (previous: Option<S>)
        ensures
            final(self)@ == old(self)@.insert(name@, sender),
            final(self)@.dom().finite(),
            old(self)@.dom().contains(name@) ==> previous == Some(old(self)@[name@]),
            !old(self)@.dom().contains(name@) ==> previous is None,
    {
        proof {
            use_type_invariant(&*self);
            lemma_size(self.entries@);
        }
        match self.position(name.as_str()) {
            Some(i) => {
                let ghost before = self.entries@;
                let ghost entry = (name, sender);
                proof {
                    lemma_entry(before, i as int);
                    lemma_update(before, i as int, entry);
                    lemma_remove(before, i as int);
                    assert(before.remove(i as int).insert(i as int, entry) =~= before.update(
                        i as int,
                        entry,
                    ));
                }
                let mut entries = Vec::new();
                std::mem::swap(&mut entries, &mut self.entries);
                let old_entry = entries.remove(i);
                entries.insert(i, (name, sender));
                self.entries = entries;
                Some(old_entry.1)
            },
            None => {
                let ghost before = self.entries@;
                proof {
                    lemma_absent(before, name@);
                }
                let ghost after = before.push((name, sender));
                proof {
                    assert(after.drop_last() =~= before);
                    assert forall|a: int, b: int| 0 <= a < b < after.len() implies (
                    #[trigger] after[a]).0@ != (#[trigger] after[b]).0@ by {
                        if b == after.len() - 1 {
                            assert(after[a] == before[a]);
                        } else {
                            assert(after[a] == before[a] && after[b] == before[b]);
                        }
                    }
                }
                let mut entries = Vec::new();
                std::mem::swap(&mut entries, &mut self.entries);
                entries.push((name, sender));
                self.entries = entries;
                None
            },
        }
    }

    /// Takes `name` out of the registry, handing back its sender if it was
    /// registered.
    pub fn remove(&mut self, name: &str) -> (removed: Option<S>)
        ensures
            final(self)@ == old(self)@.remove(name@),
            final(self)@.dom().finite(),
            old(self)@.dom().contains(name@) ==> removed == Some(old(self)@[name@]),
            !old(self)@.dom().contains(name@) ==> removed is None,
    {
        proof {
            use_type_invariant(&*self);
            lemma_size(self.entries@);
        }
        match self.position(name) {
            Some(i) => {
                let ghost before = self.entries@;
                proof {
                    lemma_entry(before, i as int);
                    lemma_remove(before, i as int);
                }
                let mut entries = Vec::new();
                std::mem::swap(&mut entries, &mut self.entries);
                let old_entry = entries.remove(i);
                self.entries = entries;
                Some(old_entry.1)
            },
            None => {
                proof {
                    lemma_absent(self.entries@, name@);
                    assert(self@ =~= self@.remove(name@));
                }
                None
            },
        }
    }

    /// The registered names, in the order `senders` hands their senders out.
    pub closed spec fn names(&self) -> Seq<Seq<char>> {
        Seq::new(self.entries@.len(), |i: int| self.entries@[i].0@)
    }

    /// The senders of all registered users, one for each user: position `i`
    /// holds the sender of the `i`-th of `names()`, which lists every
    /// registered name exactly once.
    pub fn senders(&self) -> (r: Vec<&S>)
        ensures
            self@.dom().finite(),
            r@.len() == self@.dom().len(),
            self.names().len() == r@.len(),
            self.names().no_duplicates(),
            forall|k: Seq<char>| self@.dom().contains(k) <==> #[trigger] self.names().contains(k),
            forall|i: int| 0 <= i < r@.len() ==> *r@[i] == self@[#[trigger] self.names()[i]],
    {
        proof {
            use_type_invariant(self);
            lemma_size(self.entries@);
        }
        let n = self.entries.len();
        let mut r: Vec<&S> = Vec::new();
        let mut i: usize = 0;
        while i < n
            invariant
                n == self.entries@.len(),
                names_unique(self.entries@),
                i <= n,
                r@.len() == i,
                forall|j: int| 0 <= j < i ==> *r@[j] == (#[trigger] self.entries@[j]).1,
            decreases n - i,
        {
            r.push(&self.entries[i].1);
            i = i + 1;
        }
        proof {
            let names = self.names();
            assert forall|a: int, b: int| 0 <= a < names.len() && 0 <= b < names.len() && a != b implies names[a] != names[b] by {
                if a < b {
                    assert(self.entries@[a].0@ != self.entries@[b].0@);
                } else {
                    assert(self.entries@[b].0@ != self.entries@[a].0@);
                }
            }
            assert forall|k: Seq<char>| self@.dom().contains(k) <==> #[trigger] names.contains(k) by {
                if self@.dom().contains(k) {
                    let j = lemma_present(self.entries@, k);
                    assert(names[j] == k);
                }
                if names.contains(k) {
                    let j = choose|j: int| 0 <= j < names.len() && names[j] == k;
                    lemma_entry(self.entries@, j);
                }
            }
            assert forall|j: int| 0 <= j < r@.len() implies *r@[j] == self@[#[trigger] names[j]] by {
                lemma_entry(self.entries@, j);
                assert(*r@[j] == self.entries@[j].1);
            }
        }
        r
    }
}

/// A user who was not connected, connecting and then leaving, leaves every
/// other registration as it was.
pub proof fn lemma_connect_then_leave<S>(users: Map<Seq<char>, S>, name: Seq<char>, sender: S)
    requires
        !users.dom().contains(name),
    ensures
        users.insert(name, sender).remove(name) == users,
{
    assert(users.insert(name, sender).remove(name) =~= users);
}

/// The message the remaining users get when `username` leaves.
pub fn farewell(username: &str) -> (m: String)
    ensures
        m@ == username@ + " left."@,
{
    username.to_owned().concat(" left.")
}

} // verus!
