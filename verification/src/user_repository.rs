//! The repository of users: the verified semantics of the CRUD operations
//! over an in-memory collection of user records, with one record per
//! store-assigned identifier. The store-backed adapter that speaks to a
//! remote document store lives outside the verified core and is held to the
//! same transition functions stated here.

use vstd::prelude::*;

use crate::model::{CreateUserRequest, UpdateUserRequest, User, UserError, UserView};
use crate::oid::{fresh_object_id_hex, is_valid_object_id, valid_object_id};

verus! {

/// The record an update leaves behind: fields present in the patch replace
/// the stored ones; fields absent from the patch, the identifier and the
/// creation timestamp stay as they were.
pub open spec fn apply_patch(u: UserView, name: Option<Seq<char>>, email: Option<Seq<char>>) -> UserView {
    UserView {
        id: u.id,
        name: match name {
            Some(n) => n,
            None => u.name,
        },
        email: match email {
            Some(e) => e,
            None => u.email,
        },
        created_at: u.created_at,
    }
}

/// The first stored user carrying the identifier, if any.
pub open spec fn spec_lookup(s: Seq<UserView>, id: Seq<char>) -> Option<UserView>
    decreases s.len(),
{
    if s.len() == 0 {
        None
    } else if s[0].id == Some(id) {
        Some(s[0])
    } else {
        spec_lookup(s.drop_first(), id)
    }
}

/// Insertion appends the new record; the rest of the collection is kept.
pub open spec fn spec_insert(s: Seq<UserView>, u: UserView) -> Seq<UserView> {
    s.push(u)
}

/// Partial update of the first stored user carrying the identifier; when no
/// user carries it, the collection is unchanged.
pub open spec fn spec_update(
    s: Seq<UserView>,
    id: Seq<char>,
    name: Option<Seq<char>>,
    email: Option<Seq<char>>,
) -> Seq<UserView>
    decreases s.len(),
{
    if s.len() == 0 {
        s
    } else if s[0].id == Some(id) {
        seq![apply_patch(s[0], name, email)] + s.drop_first()
    } else {
        seq![s[0]] + spec_update(s.drop_first(), id, name, email)
    }
}

/// Removal of the first stored user carrying the identifier; when no user
/// carries it, the collection is unchanged.
pub open spec fn spec_remove(s: Seq<UserView>, id: Seq<char>) -> Seq<UserView>
    decreases s.len(),
{
    if s.len() == 0 {
        s
    } else if s[0].id == Some(id) {
        s.drop_first()
    } else {
        seq![s[0]] + spec_remove(s.drop_first(), id)
    }
}

/// A record as the repository stores it: a well-formed identifier and a
/// creation timestamp, both assigned at creation.
pub open spec fn stored_user(u: UserView) -> bool {
    &&& u.id matches Some(id) && valid_object_id(id)
    &&& u.created_at is Some
}

/// No identifier is carried by two stored users.
pub open spec fn unique_ids(s: Seq<UserView>) -> bool {
    forall|i: int, j: int| 0 <= i < j < s.len() ==> s[i].id != s[j].id
}

/// The collection of user records, addressed by store-assigned identifier.
pub struct UserRepository {
    users: Vec<User>,
}

impl View for UserRepository {
    type V = Seq<UserView>;

    closed spec fn view(&self) -> Seq<UserView> {
        self.users.deep_view()
    }
}

impl UserRepository {
    /// Every stored user is well formed and identifiers are unique.
    pub open spec fn wf(&self) -> bool {
        &&& forall|i: int| 0 <= i < self@.len() ==> stored_user(#[trigger] self@[i])
        &&& unique_ids(self@)
    }

    /// An empty repository.
    pub fn new() -> (r: Self)
        ensures
            r.wf(),
            r@ == Seq::<UserView>::empty(),
    {
        let r = UserRepository { users: Vec::new() };
        proof {
            assert(r@ =~= Seq::<UserView>::empty());
        }
        r
    }

    /// Index of the first stored user carrying the identifier.
    fn find_index(&self, id: &str) -> (r: Option<usize>)
        ensures
            match r {
                Some(i) => i < self@.len() && self@[i as int].id == Some(id@) && forall|j: int|
                    0 <= j < i ==> self@[j].id != Some(id@),
                None => forall|j: int| 0 <= j < self@.len() ==> self@[j].id != Some(id@),
            },
    {
        let id_owned: String = id.to_owned();
        let n = self.users.len();
        let mut i: usize = 0;
        while i < n
            invariant
                n == self.users.len(),
                i <= n,
                id_owned@ == id@,
                forall|j: int| 0 <= j < i ==> self@[j].id != Some(id@),
            decreases n - i,
        {
            match &self.users[i].id {
                Some(s) => {
                    if *s == id_owned {
                        assert(self@[i as int].id == Some(id@));
                        return Some(i);
                    }
                },
                None => {},
            }
            assert(self@[i as int].id != Some(id@));
            i = i + 1;
        }
        None
    }

    /// Creation with a given fresh identifier and timestamp: the new user is
    /// appended if and only if no stored user already carries the
    /// identifier; a clash is a store-level fault.
    pub fn create_with_id(&mut self, id: String, now: i64, payload: CreateUserRequest) -> (r: Result<
        User,
        UserError,
    >)
        requires
            old(self).wf(),
            valid_object_id(id@),
        ensures
            final(self).wf(),
            match r {
                Ok(u) => {
                    &&& spec_lookup(old(self)@, id@) is None
                    &&& u@ == (UserView {
                        id: Some(id@),
                        name: payload.name@,
                        email: payload.email@,
                        created_at: Some(now),
                    })
                    &&& final(self)@ == spec_insert(old(self)@, u@)
                },
                Err(e) => {
                    &&& spec_lookup(old(self)@, id@) is Some
                    &&& e matches UserError::StorageError(m) && m@ == "duplicate identifier"@
                    &&& final(self)@ == old(self)@
                },
            },
    {
        match self.find_index(id.as_str()) {
            Some(i) => {
                proof {
                    lemma_lookup_at(self@, id@, i as int);
                }
                Err(UserError::StorageError("duplicate identifier".to_owned()))
            },
            None => {
                proof {
                    lemma_lookup_absent(self@, id@);
                }
                let user = User {
                    id: Some(id),
                    name: payload.name,
                    email: payload.email,
                    created_at: Some(now),
                };
                let returned = user.duplicate();
                let ghost prev = self@;
                self.users.push(user);
                proof {
                    assert(self@ =~= prev.push(returned@));
                    assert forall|k: int| 0 <= k < self@.len() implies stored_user(
                        #[trigger] self@[k],
                    ) by {
                        if k < prev.len() {
                            assert(self@[k] == prev[k]);
                        }
                    }
                }
                Ok(returned)
            },
        }
    }

    /// Creation: a fresh store-assigned identifier and the current time are
    /// drawn, and the new user is inserted. Whatever identifier was drawn,
    /// either the fully populated user comes back and is appended, or the
    /// identifier clashed and the repository reports the store fault
    /// unchanged. A clash needs a stored user to clash with: on an empty
    /// repository, creation succeeds.
    pub fn create(&mut self, payload: CreateUserRequest) -> (r: Result<User, UserError>)
        requires
            old(self).wf(),
        ensures
            final(self).wf(),
            match r {
                Ok(u) => {
                    &&& u@.id matches Some(uid) && valid_object_id(uid) && spec_lookup(
                        old(self)@,
                        uid,
                    ) is None
                    &&& u@.name == payload.name@
                    &&& u@.email == payload.email@
                    &&& u@.created_at is Some
                    &&& final(self)@ == spec_insert(old(self)@, u@)
                },
                Err(e) => {
                    &&& e is StorageError
                    &&& final(self)@ == old(self)@
                    &&& old(self)@.len() > 0
                },
            },
    {
        let id = fresh_object_id_hex();
        let now = now_millis();
        self.create_with_id(id, now, payload)
    }

    /// Every stored user, in store order.
    pub fn find_all(&self) -> (r: Vec<User>)
        ensures
            r.deep_view() == self@,
    {
        let mut out: Vec<User> = Vec::new();
        let n = self.users.len();
        let mut i: usize = 0;
        while i < n
            invariant
                n == self.users.len(),
                i <= n,
                out@.len() == i,
                forall|j: int| 0 <= j < i ==> out@[j] == self.users@[j],
            decreases n - i,
        {
            out.push(self.users[i].duplicate());
            i = i + 1;
        }
        proof {
            assert(out.deep_view() =~= self@);
        }
        out
    }

    /// Lookup by identifier text. A malformed identifier is rejected before
    /// the collection is consulted; a well-formed one yields the matching
    /// user, or nothing when no user carries it.
    pub fn find_by_id(&self, id: &str) -> (r: Result<Option<User>, UserError>)
        ensures
            r is Err <==> !valid_object_id(id@),
            !valid_object_id(id@) ==> r matches Err(UserError::InvalidIdentifier),
            valid_object_id(id@) ==> match spec_lookup(self@, id@) {
                Some(u) => r matches Ok(Some(x)) && x@ == u,
                None => r matches Ok(o) && o is None,
            },
    {
        if !is_valid_object_id(id) {
            return Err(UserError::InvalidIdentifier);
        }
        match self.find_index(id) {
            Some(i) => {
                proof {
                    lemma_lookup_at(self@, id@, i as int);
                }
                Ok(Some(self.users[i].duplicate()))
            },
            None => {
                proof {
                    lemma_lookup_absent(self@, id@);
                }
                Ok(None)
            },
        }
    }

    /// Partial update by identifier text. A malformed identifier is rejected
    /// before the collection is consulted. A well-formed one always reports
    /// success, whether or not a user carries it: the caller cannot tell a
    /// matched update from a matched-nothing one.
    pub fn update(&mut self, id: &str, payload: UpdateUserRequest) -> (r: Result<(), UserError>)
        requires
            old(self).wf(),
        ensures
            final(self).wf(),
            r is Err <==> !valid_object_id(id@),
            !valid_object_id(id@) ==> (r matches Err(UserError::InvalidIdentifier) && final(self)@
                == old(self)@),
            valid_object_id(id@) ==> (r is Ok && final(self)@ == spec_update(
                old(self)@,
                id@,
                payload.name.deep_view(),
                payload.email.deep_view(),
            )),
    {
        if !is_valid_object_id(id) {
            return Err(UserError::InvalidIdentifier);
        }
        match self.find_index(id) {
            Some(i) => {
                proof {
                    lemma_update_at(
                        self@,
                        id@,
                        payload.name.deep_view(),
                        payload.email.deep_view(),
                        i as int,
                    );
                }
                let ghost prev = self@;
                let cur = self.users[i].duplicate();
                let patched = User {
                    id: cur.id,
                    name: match payload.name {
                        Some(n) => n,
                        None => cur.name,
                    },
                    email: match payload.email {
                        Some(e) => e,
                        None => cur.email,
                    },
                    created_at: cur.created_at,
                };
                assert(patched@ == apply_patch(
                    prev[i as int],
                    payload.name.deep_view(),
                    payload.email.deep_view(),
                ));
                self.users.set(i, patched);
                proof {
                    assert(self@ =~= prev.update(i as int, patched@));
                    assert forall|k: int| 0 <= k < self@.len() implies stored_user(
                        #[trigger] self@[k],
                    ) by {
                        if k != i as int {
                            assert(self@[k] == prev[k]);
                        }
                    }
                    assert forall|k: int, l: int| 0 <= k < l < self@.len() implies self@[k].id
                        != self@[l].id by {
                        assert(self@[k].id == prev[k].id);
                        assert(self@[l].id == prev[l].id);
                    }
                }
                Ok(())
            },
            None => {
                proof {
                    lemma_update_absent(
                        self@,
                        id@,
                        payload.name.deep_view(),
                        payload.email.deep_view(),
                    );
                }
                Ok(())
            },
        }
    }

    /// Removal by identifier text. A malformed identifier is rejected before
    /// the collection is consulted. A well-formed one always reports
    /// success: removing an absent identifier changes nothing.
    pub fn delete(&mut self, id: &str) -> (r: Result<(), UserError>)
        requires
            old(self).wf(),
        ensures
            final(self).wf(),
            r is Err <==> !valid_object_id(id@),
            !valid_object_id(id@) ==> (r matches Err(UserError::InvalidIdentifier) && final(self)@
                == old(self)@),
            valid_object_id(id@) ==> (r is Ok && final(self)@ == spec_remove(
                old(self)@,
                id@,
            )),
    {
        if !is_valid_object_id(id) {
            return Err(UserError::InvalidIdentifier);
        }
        match self.find_index(id) {
            Some(i) => {
                proof {
                    lemma_remove_at(self@, id@, i as int);
                }
                let ghost prev = self@;
                self.users.remove(i);
                proof {
                    assert(self@ =~= prev.remove(i as int));
                    assert forall|k: int| 0 <= k < self@.len() implies stored_user(
                        #[trigger] self@[k],
                    ) by {
                        if k < i as int {
                            assert(self@[k] == prev[k]);
                        } else {
                            assert(self@[k] == prev[k + 1]);
                        }
                    }
                    assert forall|k: int, l: int| 0 <= k < l < self@.len() implies self@[k].id
                        != self@[l].id by {
                        let pk: int = if k < i as int {
                            k
                        } else {
                            k + 1
                        };
                        let pl: int = if l < i as int {
                            l
                        } else {
                            l + 1
                        };
                        assert(self@[k] == prev[pk]);
                        assert(self@[l] == prev[pl]);
                    }
                }
                Ok(())
            },
            None => {
                proof {
                    lemma_lookup_absent(self@, id@);
                    lemma_remove_absent(self@, id@);
                }
                Ok(())
            },
        }
    }
}

/// Relies on bson's `DateTime::now` and `DateTime::timestamp_millis` for the
/// creation timestamp, in milliseconds since the epoch. The value depends on
/// the clock, so nothing is promised of it.
#[verifier::external_body]
fn now_millis() -> i64 {
    bson::DateTime::now().timestamp_millis()
}

/// When no stored user carries the identifier, the lookup is empty.
proof fn lemma_lookup_absent(s: Seq<UserView>, id: Seq<char>)
    requires
        forall|j: int| 0 <= j < s.len() ==> s[j].id != Some(id),
    ensures
        spec_lookup(s, id) is None,
    decreases s.len(),
{
    if s.len() > 0 {
        lemma_lookup_absent(s.drop_first(), id);
    }
}

/// When the first match sits at index `i`, the lookup returns it.
proof fn lemma_lookup_at(s: Seq<UserView>, id: Seq<char>, i: int)
    requires
        0 <= i < s.len(),
        s[i].id == Some(id),
        forall|j: int| 0 <= j < i ==> s[j].id != Some(id),
    ensures
        spec_lookup(s, id) == Some(s[i]),
    decreases i,
{
    if i > 0 {
        lemma_lookup_at(s.drop_first(), id, i - 1);
    }
}

/// When the first match sits at index `i`, the update patches it in place.
proof fn lemma_update_at(
    s: Seq<UserView>,
    id: Seq<char>,
    name: Option<Seq<char>>,
    email: Option<Seq<char>>,
    i: int,
)
    requires
        0 <= i < s.len(),
        s[i].id == Some(id),
        forall|j: int| 0 <= j < i ==> s[j].id != Some(id),
    ensures
        spec_update(s, id, name, email) == s.update(i, apply_patch(s[i], name, email)),
    decreases i,
{
    if i == 0 {
        assert(seq![apply_patch(s[0], name, email)] + s.drop_first() =~= s.update(
            0,
            apply_patch(s[0], name, email),
        ));
    } else {
        lemma_update_at(s.drop_first(), id, name, email, i - 1);
        assert(seq![s[0]] + s.drop_first().update(i - 1, apply_patch(s[i], name, email)) =~= s.update(
            i,
            apply_patch(s[i], name, email),
        ));
    }
}

/// When no stored user carries the identifier, an update changes nothing.
proof fn lemma_update_absent(
    s: Seq<UserView>,
    id: Seq<char>,
    name: Option<Seq<char>>,
    email: Option<Seq<char>>,
)
    requires
        forall|j: int| 0 <= j < s.len() ==> s[j].id != Some(id),
    ensures
        spec_update(s, id, name, email) == s,
    decreases s.len(),
{
    if s.len() > 0 {
        lemma_update_absent(s.drop_first(), id, name, email);
        assert(seq![s[0]] + s.drop_first() =~= s);
    }
}

/// When the first match sits at index `i`, the removal takes it out.
proof fn lemma_remove_at(s: Seq<UserView>, id: Seq<char>, i: int)
    requires
        0 <= i < s.len(),
        s[i].id == Some(id),
        forall|j: int| 0 <= j < i ==> s[j].id != Some(id),
    ensures
        spec_remove(s, id) == s.remove(i),
    decreases i,
{
    if i == 0 {
        assert(s.drop_first() =~= s.remove(0));
    } else {
        lemma_remove_at(s.drop_first(), id, i - 1);
        assert(seq![s[0]] + s.drop_first().remove(i - 1) =~= s.remove(i));
    }
}

/// Removal of an identifier that no stored user carries changes nothing:
/// deletion is idempotent on absent identifiers.
pub proof fn lemma_remove_absent(s: Seq<UserView>, id: Seq<char>)
    requires
        spec_lookup(s, id) is None,
    ensures
        spec_remove(s, id) == s,
    decreases s.len(),
{
    if s.len() > 0 {
        lemma_remove_absent(s.drop_first(), id);
        assert(seq![s[0]] + s.drop_first() =~= s);
    }
}

/// A user just created is found under its identifier, with the very fields
/// it was created with.
pub proof fn lemma_create_then_find(s: Seq<UserView>, u: UserView, id: Seq<char>)
    requires
        u.id == Some(id),
        spec_lookup(s, id) is None,
    ensures
        spec_lookup(spec_insert(s, u), id) == Some(u),
    decreases s.len(),
{
    if s.len() == 0 {
        assert(spec_insert(s, u)[0] == u);
    } else {
        assert(spec_insert(s, u)[0] == s[0]);
        assert(spec_insert(s, u).drop_first() =~= spec_insert(s.drop_first(), u));
        lemma_create_then_find(s.drop_first(), u, id);
    }
}

/// Creation extends the listing: every user stored before is still listed,
/// at its place, and the new user is listed after them.
pub proof fn lemma_create_extends_listing(s: Seq<UserView>, u: UserView)
    ensures
        spec_insert(s, u).len() == s.len() + 1,
        forall|i: int| 0 <= i < s.len() ==> spec_insert(s, u)[i] == s[i],
        spec_insert(s, u)[s.len() as int] == u,
{
}

/// The collection after a whole series of creations, first to last.
pub open spec fn spec_insert_all(s: Seq<UserView>, us: Seq<UserView>) -> Seq<UserView>
    decreases us.len(),
{
    if us.len() == 0 {
        s
    } else {
        spec_insert_all(spec_insert(s, us[0]), us.drop_first())
    }
}

/// Listing after creating any number of users: the listing grows by exactly
/// those users, so it holds at least as many entries as were created, every
/// created user stands in it, and the users stored before are untouched.
pub proof fn lemma_create_many_extends_listing(s: Seq<UserView>, us: Seq<UserView>)
    ensures
        spec_insert_all(s, us) == s + us,
        spec_insert_all(s, us).len() == s.len() + us.len(),
        forall|i: int| 0 <= i < us.len() ==> spec_insert_all(s, us)[s.len() + i] == us[i],
        forall|i: int| 0 <= i < s.len() ==> spec_insert_all(s, us)[i] == s[i],
    decreases us.len(),
{
    if us.len() == 0 {
        assert(s + us =~= s);
    } else {
        lemma_create_many_extends_listing(spec_insert(s, us[0]), us.drop_first());
        assert(spec_insert(s, us[0]) + us.drop_first() =~= s + us);
    }
}

/// An update with only the name set leaves the email, the identifier and
/// the creation timestamp of the target user unchanged.
pub proof fn lemma_update_name_only(s: Seq<UserView>, id: Seq<char>, name: Seq<char>)
    requires
        spec_lookup(s, id) is Some,
    ensures
        ({
            let before = spec_lookup(s, id);
            let after = spec_lookup(spec_update(s, id, Some(name), None), id);
            after matches Some(v) && before matches Some(u) && v.name == name && v.email == u.email
                && v.id == u.id && v.created_at == u.created_at
        }),
    decreases s.len(),
{
    lemma_update_finds_patched(s, id, Some(name), None);
}

/// An update with no fields set changes nothing, yet still succeeds.
pub proof fn lemma_update_empty_patch(s: Seq<UserView>, id: Seq<char>)
    ensures
        spec_update(s, id, None, None) == s,
    decreases s.len(),
{
    if s.len() > 0 {
        if s[0].id == Some(id) {
            assert(apply_patch(s[0], None, None) == s[0]);
            assert(seq![s[0]] + s.drop_first() =~= s);
        } else {
            lemma_update_empty_patch(s.drop_first(), id);
            assert(seq![s[0]] + s.drop_first() =~= s);
        }
    }
}

/// After an update, the lookup yields the patched record.
pub proof fn lemma_update_finds_patched(
    s: Seq<UserView>,
    id: Seq<char>,
    name: Option<Seq<char>>,
    email: Option<Seq<char>>,
)
    requires
        spec_lookup(s, id) is Some,
    ensures
        ({
            let before = spec_lookup(s, id);
            let after = spec_lookup(spec_update(s, id, name, email), id);
            before matches Some(u) && after == Some(apply_patch(u, name, email))
        }),
    decreases s.len(),
{
    if s.len() > 0 {
        let t = spec_update(s, id, name, email);
        if s[0].id == Some(id) {
            assert(t == seq![apply_patch(s[0], name, email)] + s.drop_first());
            assert(t[0] == apply_patch(s[0], name, email));
            assert(t[0].id == Some(id));
        } else {
            lemma_update_finds_patched(s.drop_first(), id, name, email);
            assert(t == seq![s[0]] + spec_update(s.drop_first(), id, name, email));
            assert(t[0] == s[0]);
            assert(t.drop_first() =~= spec_update(s.drop_first(), id, name, email));
        }
    }
}

} // verus!
