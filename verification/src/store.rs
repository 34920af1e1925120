use vstd::prelude::*;

verus! {

/// The map denoted by an association list, later entries overriding
/// earlier ones.
pub open spec fn assoc_map(s: Seq<(u128, String)>) -> Map<u128, Seq<char>>
    decreases s.len(),
{
    if s.len() == 0 {
        Map::empty()
    } else {
        assoc_map(s.drop_last()).insert(s.last().0, s.last().1@)
    }
}

/// No two entries of `s` share a key.
pub open spec fn unique_keys(s: Seq<(u128, String)>) -> bool {
    forall|i: int, j: int| 0 <= i < j < s.len() ==> (#[trigger] s[i]).0 != (#[trigger] s[j]).0
}

/// A key absent from every entry is absent from the denoted map.
proof fn lemma_assoc_absent(s: Seq<(u128, String)>, k: u128)
    requires
        forall|i: int| 0 <= i < s.len() ==> (#[trigger] s[i]).0 != k,
    ensures
        !assoc_map(s).contains_key(k),
    decreases s.len(),
{
    if s.len() > 0 {
        assert(s.last() == s[s.len() - 1]);
        lemma_assoc_absent(s.drop_last(), k);
    }
}

/// With unique keys, the entry holding `k` gives the denoted map's value.
proof fn lemma_assoc_found(s: Seq<(u128, String)>, i: int)
    requires
        unique_keys(s),
        0 <= i < s.len(),
    ensures
        assoc_map(s).contains_key(s[i].0),
        assoc_map(s)[s[i].0] == s[i].1@,
    decreases s.len(),
{
    if i == s.len() - 1 {
        assert(s.last() == s[i]);
    } else {
        lemma_assoc_found(s.drop_last(), i);
        assert(s.last() == s[s.len() - 1]);
        assert(s[s.len() - 1].0 != s[i].0);
    }
}

/// With unique keys, replacing the value held at the entry for `k` denotes
/// the map with `k` re-bound.
proof fn lemma_assoc_update(s: Seq<(u128, String)>, i: int, v: String)
    requires
        unique_keys(s),
        0 <= i < s.len(),
    ensures
        assoc_map(s.update(i, (s[i].0, v))) =~= assoc_map(s).insert(s[i].0, v@),
    decreases s.len(),
{
    let k = s[i].0;
    let t = s.update(i, (k, v));
    if i == s.len() - 1 {
        assert(t.drop_last() =~= s.drop_last());
        assert(t.last() == (k, v));
    } else {
        lemma_assoc_update(s.drop_last(), i, v);
        assert(t.drop_last() =~= s.drop_last().update(i, (k, v)));
        assert(t.last() == s.last());
        assert(s.last() == s[s.len() - 1]);
        assert(s[s.len() - 1].0 != k);
    }
}

/// The shared association of user identity to the currently valid refresh
/// token: the source of truth for single-use rotation.  At most one token
/// is registered per user; registering a new one unconditionally replaces
/// the old.
pub struct RefreshTokenStore {
    entries: Vec<(u128, String)>,
}

impl View for RefreshTokenStore {
    type V = Map<u128, Seq<char>>;

    closed spec fn view(&self) -> Map<u128, Seq<char>> {
        assoc_map(self.entries@)
    }
}

impl RefreshTokenStore {
    #[verifier::type_invariant]
    spec fn wf(&self) -> bool {
        unique_keys(self.entries@)
    }

    /// An empty store: no user has a registered refresh token.
    pub fn new() -> (r: RefreshTokenStore)
        ensures
            r@ == Map::<u128, Seq<char>>::empty(),
    {
        RefreshTokenStore { entries: Vec::new() }
    }

    /// The token currently registered for `user_id`, or nothing when the
    /// user was never issued one.
    pub fn get(&self, user_id: u128) -> (r: Option<String>)
        ensures
            match r {
                Some(t) => self@.contains_key(user_id) && t@ == self@[user_id],
                None => !self@.contains_key(user_id),
            },
    {
        proof {
            use_type_invariant(&*self);
        }
        let n = self.entries.len();
        for i in 0..n
            invariant
                n == self.entries.len(),
                unique_keys(self.entries@),
                forall|j: int| 0 <= j < i ==> (#[trigger] self.entries@[j]).0 != user_id,
        {
            if self.entries[i].0 == user_id {
                proof {
                    lemma_assoc_found(self.entries@, i as int);
                }
                return Some(self.entries[i].1.clone());
            }
        }
        proof {
            lemma_assoc_absent(self.entries@, user_id);
        }
        None
    }

    /// Registers `token` for `user_id`, unconditionally replacing any
    /// previously registered token.
    pub fn put(&mut self, user_id: u128, token: String)
        ensures
            final(self)@ == old(self)@.insert(user_id, token@),
    {
        proof {
            use_type_invariant(&*self);
        }
        let mut entries: Vec<(u128, String)> = Vec::new();
        std::mem::swap(&mut entries, &mut self.entries);
        let n = entries.len();
        for i in 0..n
            invariant
                n == entries.len(),
                entries@ == old(self).entries@,
                unique_keys(entries@),
                forall|j: int| 0 <= j < i ==> (#[trigger] entries@[j]).0 != user_id,
        {
            if entries[i].0 == user_id {
                proof {
                    lemma_assoc_update(entries@, i as int, token);
                    assert(forall|a: int|
                        0 <= a < entries@.len() ==> (#[trigger] entries@.update(
                            i as int,
                            (user_id, token),
                        )[a]).0 == entries@[a].0);
                }
                entries[i] = (user_id, token);
                self.entries = entries;
                return ;
            }
        }
        proof {
            lemma_assoc_absent(entries@, user_id);
            assert(entries@.push((user_id, token)).drop_last() =~= entries@);
        }
        entries.push((user_id, token));
        self.entries = entries;
    }

    /// Atomically replaces the registration for `user_id` with `token`,
    /// but only when the currently registered token is exactly `expected`;
    /// reports whether the swap happened.
    pub fn compare_and_set(&mut self, user_id: u128, expected: &String, token: String) -> (r:
        bool)
        ensures
            r == (old(self)@.contains_key(user_id) && old(self)@[user_id] == expected@),
            r ==> final(self)@ == old(self)@.insert(user_id, token@),
            !r ==> final(self)@ == old(self)@,
    {
        proof {
            use_type_invariant(&*self);
        }
        let mut entries: Vec<(u128, String)> = Vec::new();
        std::mem::swap(&mut entries, &mut self.entries);
        let n = entries.len();
        for i in 0..n
            invariant
                n == entries.len(),
                entries@ == old(self).entries@,
                unique_keys(entries@),
                forall|j: int| 0 <= j < i ==> (#[trigger] entries@[j]).0 != user_id,
        {
            if entries[i].0 == user_id {
                proof {
                    lemma_assoc_found(entries@, i as int);
                }
                if entries[i].1 == *expected {
                    proof {
                        lemma_assoc_update(entries@, i as int, token);
                        assert(forall|a: int|
                            0 <= a < entries@.len() ==> (#[trigger] entries@.update(
                                i as int,
                                (user_id, token),
                            )[a]).0 == entries@[a].0);
                    }
                    entries[i] = (user_id, token);
                    self.entries = entries;
                    return true;
                }
                self.entries = entries;
                return false;
            }
        }
        proof {
            lemma_assoc_absent(entries@, user_id);
        }
        self.entries = entries;
        false
    }
}

} // verus!
