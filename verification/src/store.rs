use vstd::prelude::*;

verus! {

/// A stored user record. The name is its only attribute; the identifier a
/// record is reached by is the key it is held under, not a field of the
/// record itself.
pub struct User {
    pub name: String,
}

impl View for User {
    type V = Seq<char>;

    open spec fn view(&self) -> Seq<char> {
        self.name@
    }
}

impl Clone for User {
    fn clone(&self) -> (r: Self)
        ensures
            r@ == self@,
    {
        User { name: self.name.clone() }
    }
}

/// The in-memory user store: a mapping from integer identifier to user
/// record. Identifiers are assigned consecutively starting at 1 — each
/// create receives one more than the highest identifier in use — so the
/// record with identifier `i` is held at index `i - 1`.
pub struct UserStore {
    users: Vec<User>,
}

impl View for UserStore {
    type V = Seq<Seq<char>>;

    closed spec fn view(&self) -> Seq<Seq<char>> {
        self.users@.map(|i: int, u: User| u@)
    }
}

/// The store seen as the mapping its data model describes: each identifier
/// in use, to the name stored under it.
pub open spec fn store_map(names: Seq<Seq<char>>) -> Map<u32, Seq<char>> {
    Map::new(|id: u32| 1 <= id <= names.len(), |id: u32| names[id - 1])
}

/// One create on a store holding `names`: the identifier assigned — one more
/// than the highest in use, so `1` on an empty store — and the contents
/// afterwards.
pub open spec fn insert_model(names: Seq<Seq<char>>, name: Seq<char>) -> (u32, Seq<Seq<char>>) {
    (((names.len() + 1) as u32), names.push(name))
}

/// What a read of `id` returns: the stored name when `id` is in use, a typed
/// absence otherwise.
pub open spec fn get_model(names: Seq<Seq<char>>, id: u32) -> Option<Seq<char>> {
    if 1 <= id <= names.len() {
        Some(names[id - 1])
    } else {
        None
    }
}

impl UserStore {
    /// Creates the store empty, as it is at process start.
    pub fn new() -> (s: Self)
        ensures
            s@ == Seq::<Seq<char>>::empty(),
    {
        let s = UserStore { users: Vec::new() };
        proof {
            assert(s@ =~= Seq::<Seq<char>>::empty());
        }
        s
    }

    /// The number of records held.
    pub fn len(&self) -> (n: usize)
        ensures
            n == self@.len(),
    {
        self.users.len()
    }

    /// Reads the record for `id`: the stored user when `id` is in use, a
    /// typed absence otherwise. The store is taken shared, so a read never
    /// changes it, and every identifier gives an answer — never a crash.
    pub fn get(&self, id: u32) -> (r: Option<&User>)
        ensures
            match r {
                Some(u) => get_model(self@, id) == Some(u@),
                None => get_model(self@, id) is None,
            },
    {
        if 1 <= id && (id as usize) <= self.users.len() {
            Some(&self.users[(id - 1) as usize])
        } else {
            None
        }
    }

    /// Creates a record for `name`: assigns the next identifier — one more
    /// than the highest in use, `1` on an empty store — stores the record
    /// under it, and returns the assigned identifier together with the
    /// stored record. The store grows by exactly one entry; no other entry
    /// changes. Names may repeat: there is no duplicate check.
    pub fn insert(&mut self, name: String) -> (r: (u32, User))
        requires
            old(self)@.len() < u32::MAX,
        ensures
            r.0 == insert_model(old(self)@, name@).0,
            r.1@ == name@,
            final(self)@ == insert_model(old(self)@, name@).1,
    {
        let ghost n = name@;
        let id: u32 = (self.users.len() + 1) as u32;
        let user = User { name };
        let record = user.clone();
        self.users.push(user);
        proof {
            assert(self@ =~= old(self)@.push(n));
        }
        (id, record)
    }
}

/// The store contents after creating each name of `names`, in call order,
/// into a store holding `s`.
pub open spec fn store_after(s: Seq<Seq<char>>, names: Seq<Seq<char>>) -> Seq<Seq<char>>
    decreases names.len(),
{
    if names.len() == 0 {
        s
    } else {
        store_after(insert_model(s, names[0]).1, names.drop_first())
    }
}

/// The identifiers assigned, in call order, by creating each name of `names`
/// into a store holding `s`.
pub open spec fn ids_assigned(s: Seq<Seq<char>>, names: Seq<Seq<char>>) -> Seq<u32>
    decreases names.len(),
{
    if names.len() == 0 {
        Seq::empty()
    } else {
        seq![insert_model(s, names[0]).0] + ids_assigned(
            insert_model(s, names[0]).1,
            names.drop_first(),
        )
    }
}

/// Identifier monotonicity: a run of creates with no deletes assigns
/// consecutive identifiers in call order, each one more than the last; from
/// an empty store they are exactly 1, 2, …, N.
pub proof fn lemma_identifier_monotonicity(s: Seq<Seq<char>>, names: Seq<Seq<char>>)
    requires
        s.len() + names.len() < u32::MAX,
    ensures
        ids_assigned(s, names).len() == names.len(),
        forall|k: int| 0 <= k < names.len() ==> ids_assigned(s, names)[k] == s.len() + k + 1,
    decreases names.len(),
{
    if names.len() > 0 {
        let s1 = insert_model(s, names[0]).1;
        lemma_identifier_monotonicity(s1, names.drop_first());
        assert forall|k: int| 0 <= k < names.len() implies ids_assigned(s, names)[k] == s.len() + k
            + 1 by {
            if k > 0 {
                assert(ids_assigned(s, names)[k] == ids_assigned(s1, names.drop_first())[k - 1]);
            }
        }
    }
}

/// No lost writes: a run of creates appends exactly the created names, in
/// call order, to what the store already held.
pub proof fn lemma_creates_preserved(s: Seq<Seq<char>>, names: Seq<Seq<char>>)
    ensures
        store_after(s, names) == s + names,
    decreases names.len(),
{
    if names.len() == 0 {
        assert(store_after(s, names) =~= s + names);
    } else {
        lemma_creates_preserved(s.push(names[0]), names.drop_first());
        assert(s.push(names[0]) + names.drop_first() =~= s + names);
    }
}

/// Serialized creates are unique: a run of M creates yields M pairwise
/// distinct identifiers, and the store grows by exactly M entries.
pub proof fn lemma_creates_unique(s: Seq<Seq<char>>, names: Seq<Seq<char>>)
    requires
        s.len() + names.len() < u32::MAX,
    ensures
        ids_assigned(s, names).len() == names.len(),
        forall|i: int, j: int|
            0 <= i < j < names.len() ==> ids_assigned(s, names)[i] != ids_assigned(s, names)[j],
        store_after(s, names).len() == s.len() + names.len(),
{
    lemma_identifier_monotonicity(s, names);
    lemma_creates_preserved(s, names);
}

/// Read-after-write: the identifier a create returns reads back to exactly
/// the created name.
pub proof fn lemma_read_after_write(s: Seq<Seq<char>>, name: Seq<char>)
    requires
        s.len() < u32::MAX,
    ensures
        get_model(insert_model(s, name).1, insert_model(s, name).0) == Some(name),
{
}

/// A read agrees with the mapping the data model describes: an identifier is
/// readable exactly when it is in the mapping's domain, and then reads to
/// the mapping's value for it.
pub proof fn lemma_get_matches_map(s: Seq<Seq<char>>, id: u32)
    ensures
        store_map(s).dom().contains(id) <==> get_model(s, id) is Some,
        get_model(s, id) matches Some(n) ==> store_map(s)[id] == n,
{
}

/// Absence: a read of an identifier not in the mapping's domain — any
/// identifier at all, on an empty store — returns a typed absence.
pub proof fn lemma_absence(s: Seq<Seq<char>>, id: u32)
    requires
        !store_map(s).dom().contains(id),
    ensures
        get_model(s, id) is None,
{
    lemma_get_matches_map(s, id);
}

/// The next identifier is the maximum identifier in use plus one: every
/// identifier in use is at most the record count, and on a non-empty store
/// the record count itself is in use — so a create assigns `max + 1`, or `1`
/// when nothing is in use.
pub proof fn lemma_next_id_is_max_plus_one(s: Seq<Seq<char>>, name: Seq<char>)
    requires
        s.len() < u32::MAX,
    ensures
        forall|id: u32| store_map(s).dom().contains(id) ==> id <= s.len(),
        s.len() > 0 ==> store_map(s).dom().contains((s.len()) as u32),
        insert_model(s, name).0 == s.len() + 1,
{
}

} // verus!
