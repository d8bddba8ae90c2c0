//! Account-facing data shapes and the in-memory password-reset stores.
//!
//! The reset stores are keyed maps from a string (a reset token, or an email
//! address) to a value; they are held as association lists with unique keys
//! and viewed as mathematical maps, so every operation has an exact map
//! contract.

use vstd::prelude::*;

verus! {

/// The claims carried by an authentication token.
#[derive(Debug)]
pub struct TokenClaims {
    pub sub: i32,
    pub iat: usize,
    pub exp: usize,
    pub name: String,
    pub role: String,
}

/// A registration request.
#[derive(Debug)]
pub struct RegisterUserSchema {
    pub name: String,
    pub email: String,
    pub password: String,
}

/// A login request.
#[derive(Debug)]
pub struct LoginUserSchema {
    pub email: String,
    pub password: String,
}

/// A request to start a password reset.
#[derive(Debug)]
pub struct InquirePasswordResetSchema {
    pub email: String,
}

/// A request to finish a password reset.
#[derive(Debug)]
pub struct ResetPasswordSchema {
    pub token: String,
    pub password: String,
}

/// An account row as the library models it: the fields the account logic
/// reads.
#[derive(Debug)]
pub struct AccountRecord {
    pub id: String,
    pub name: String,
    pub email: String,
    pub role: String,
}

/// The public projection of an account: everything but the credentials.
#[derive(Debug)]
pub struct FilteredUser {
    pub id: String,
    pub name: String,
    pub email: String,
    pub role: String,
}

/// The body of an authentication failure.
#[derive(Debug)]
pub struct ErrorResponse {
    pub status: &'static str,
    pub message: String,
}

/// Projects an account row to its public shape, field for field.
pub fn filter_user_record(user: &AccountRecord) -> (r: FilteredUser)
    ensures
        r.id@ == user.id@,
        r.name@ == user.name@,
        r.email@ == user.email@,
        r.role@ == user.role@,
{
    FilteredUser {
        id: user.id.clone(),
        name: user.name.clone(),
        email: user.email.clone(),
        role: user.role.clone(),
    }
}

/// Accepts exactly the accounts whose role is `admin`; everything else is
/// turned away with an insufficient-privileges message.
pub fn check_admin(user: &AccountRecord) -> (r: Result<(), String>)
    ensures
        r is Ok <==> user.role@ == "admin"@,
        r matches Err(m) ==> m@ == "Insufficient privileges to complete the request"@,
{
    let admin = "admin".to_owned();
    if user.role == admin {
        Ok(())
    } else {
        Err("Insufficient privileges to complete the request".to_owned())
    }
}

/// The map described by an association list: later entries shadow earlier
/// ones with the same key.
pub open spec fn spec_entry_map<V>(entries: Seq<(String, V)>) -> Map<Seq<char>, V>
    decreases entries.len(),
{
    if entries.len() == 0 {
        Map::empty()
    } else {
        spec_entry_map(entries.drop_last()).insert(entries.last().0@, entries.last().1)
    }
}

/// No two entries share a key.
pub open spec fn spec_keys_unique<V>(entries: Seq<(String, V)>) -> bool {
    forall|i: int, j: int|
        0 <= i < j < entries.len() ==> #[trigger] entries[i].0@ != #[trigger] entries[j].0@
}

/// A key is in the map exactly when some entry carries it.
proof fn lemma_entry_map_contains<V>(entries: Seq<(String, V)>, k: Seq<char>)
    ensures
        spec_entry_map(entries).contains_key(k) <==> exists|i: int|
            0 <= i < entries.len() && #[trigger] entries[i].0@ == k,
    decreases entries.len(),
{
    if entries.len() > 0 {
        lemma_entry_map_contains(entries.drop_last(), k);
        if entries.last().0@ == k {
            assert(entries[entries.len() - 1].0@ == k);
        } else if spec_entry_map(entries.drop_last()).contains_key(k) {
            let i = choose|i: int|
                0 <= i < entries.drop_last().len() && #[trigger] entries.drop_last()[i].0@ == k;
            assert(entries[i].0@ == k);
        } else if exists|i: int| 0 <= i < entries.len() && #[trigger] entries[i].0@ == k {
            let i = choose|i: int| 0 <= i < entries.len() && #[trigger] entries[i].0@ == k;
            assert(entries.drop_last()[i].0@ == k);
        }
    }
}

/// With unique keys, the map's value at a key is the value of the entry that
/// carries it.
proof fn lemma_entry_map_value<V>(entries: Seq<(String, V)>, i: int)
    requires
        spec_keys_unique(entries),
        0 <= i < entries.len(),
    ensures
        spec_entry_map(entries).contains_key(entries[i].0@),
        spec_entry_map(entries)[entries[i].0@] == entries[i].1,
    decreases entries.len(),
{
    if i == entries.len() - 1 {
    } else {
        assert(entries[i].0@ != entries.last().0@);
        assert(entries.drop_last()[i] == entries[i]);
        lemma_entry_map_value(entries.drop_last(), i);
    }
}

/// With unique keys, dropping the entry that carries `k` removes exactly `k`
/// from the map.
proof fn lemma_entry_map_remove<V>(entries: Seq<(String, V)>, i: int)
    requires
        spec_keys_unique(entries),
        0 <= i < entries.len(),
    ensures
        spec_entry_map(entries.remove(i)) == spec_entry_map(entries).remove(entries[i].0@),
    decreases entries.len(),
{
    let k = entries[i].0@;
    if i == entries.len() - 1 {
        assert(entries.remove(i) =~= entries.drop_last());
        lemma_entry_map_contains(entries.drop_last(), k);
        assert(forall|j: int|
            0 <= j < entries.drop_last().len() ==> #[trigger] entries.drop_last()[j].0@ != k);
        assert(spec_entry_map(entries.drop_last()) =~= spec_entry_map(entries).remove(k));
    } else {
        assert(entries.remove(i).last() == entries.last());
        assert(entries.remove(i).drop_last() =~= entries.drop_last().remove(i));
        assert(entries.drop_last()[i] == entries[i]);
        lemma_entry_map_remove(entries.drop_last(), i);
        assert(entries.last().0@ != k);
        assert(spec_entry_map(entries.drop_last()).remove(k).insert(
            entries.last().0@,
            entries.last().1,
        ) =~= spec_entry_map(entries).remove(k));
    }
}

/// Removing an entry keeps the remaining keys unique.
proof fn lemma_keys_unique_remove<V>(entries: Seq<(String, V)>, i: int)
    requires
        spec_keys_unique(entries),
        0 <= i < entries.len(),
    ensures
        spec_keys_unique(entries.remove(i)),
{
    assert forall|a: int, b: int|
        0 <= a < b < entries.remove(i).len() implies #[trigger] entries.remove(i)[a].0@
        != #[trigger] entries.remove(i)[b].0@ by {
        let a0 = if a < i {
            a
        } else {
            a + 1
        };
        let b0 = if b < i {
            b
        } else {
            b + 1
        };
        assert(entries.remove(i)[a] == entries[a0]);
        assert(entries.remove(i)[b] == entries[b0]);
    }
}

/// Looks a key up in an association list with unique keys.
fn entries_get<V: Copy>(entries: &Vec<(String, V)>, key: &String) -> (r: Option<V>)
    requires
        spec_keys_unique(entries@),
    ensures
        match r {
            Some(v) => spec_entry_map(entries@).contains_key(key@) && spec_entry_map(entries@)[key@]
                == v,
            None => !spec_entry_map(entries@).contains_key(key@),
        },
{
    let mut i: usize = 0;
    while i < entries.len()
        invariant
            spec_keys_unique(entries@),
            0 <= i <= entries@.len(),
            forall|j: int| 0 <= j < i ==> #[trigger] entries@[j].0@ != key@,
        decreases entries@.len() - i,
    {
        if entries[i].0 == *key {
            proof {
                lemma_entry_map_value(entries@, i as int);
            }
            return Some(entries[i].1);
        }
        i = i + 1;
    }
    proof {
        lemma_entry_map_contains(entries@, key@);
    }
    None
}

/// Drops the entry carrying `key`, when one does, from an association list
/// with unique keys.
fn entries_remove<V>(entries: &mut Vec<(String, V)>, key: &String)
    requires
        spec_keys_unique(old(entries)@),
    ensures
        spec_keys_unique(final(entries)@),
        spec_entry_map(final(entries)@) == spec_entry_map(old(entries)@).remove(key@),
{
    let mut i: usize = 0;
    while i < entries.len()
        invariant
            spec_keys_unique(entries@),
            entries@ == old(entries)@,
            0 <= i <= entries@.len(),
            forall|j: int| 0 <= j < i ==> #[trigger] entries@[j].0@ != key@,
        decreases entries@.len() - i,
    {
        if entries[i].0 == *key {
            proof {
                lemma_entry_map_remove(entries@, i as int);
                lemma_keys_unique_remove(entries@, i as int);
            }
            entries.remove(i);
            return ;
        }
        i = i + 1;
    }
    proof {
        lemma_entry_map_contains(entries@, key@);
        assert(spec_entry_map(final(entries)@) =~= spec_entry_map(old(entries)@).remove(key@));
    }
}

/// Binds `key` to `value` in an association list with unique keys, replacing
/// any earlier binding.
fn entries_insert<V>(entries: &mut Vec<(String, V)>, key: String, value: V)
    requires
        spec_keys_unique(old(entries)@),
    ensures
        spec_keys_unique(final(entries)@),
        spec_entry_map(final(entries)@) == spec_entry_map(old(entries)@).insert(key@, value),
{
    entries_remove(entries, &key);
    let ghost without = entries@;
    entries.push((key, value));
    proof {
        assert(entries@.drop_last() =~= without);
        assert forall|a: int, b: int|
            0 <= a < b < entries@.len() implies #[trigger] entries@[a].0@
            != #[trigger] entries@[b].0@ by {
            if b == entries@.len() - 1 {
                lemma_entry_map_contains(without, entries@[b].0@);
                assert(without[a] == entries@[a]);
            }
        }
        assert(spec_entry_map(entries@) =~= spec_entry_map(old(entries)@).insert(
            entries@.last().0@,
            value,
        ));
    }
}

/// The in-memory store of outstanding password-reset tokens, a map from
/// token to account id.
#[derive(Debug)]
pub struct ResetTokenDB {
    entries: Vec<(String, i32)>,
}

impl View for ResetTokenDB {
    type V = Map<Seq<char>, i32>;

    closed spec fn view(&self) -> Map<Seq<char>, i32> {
        spec_entry_map(self.entries@)
    }
}

impl ResetTokenDB {
    /// The store's internal invariant: one entry per token.
    pub closed spec fn wf(&self) -> bool {
        spec_keys_unique(self.entries@)
    }

    /// An empty store.
    pub fn new() -> (s: ResetTokenDB)
        ensures
            s@ == Map::<Seq<char>, i32>::empty(),
            s.wf(),
    {
        let s = ResetTokenDB { entries: Vec::new() };
        proof {
            assert(s@ =~= Map::<Seq<char>, i32>::empty());
        }
        s
    }

    /// Records `token` as belonging to `user_id`, replacing any earlier
    /// owner of the same token.
    pub fn add_token(&mut self, token: String, user_id: i32)
        requires
            old(self).wf(),
        ensures
            final(self).wf(),
            final(self)@ == old(self)@.insert(token@, user_id),
    {
        entries_insert(&mut self.entries, token, user_id);
    }

    /// The account that owns `token`, when one does.
    pub fn get_token(&self, token: &String) -> (r: Option<i32>)
        requires
            self.wf(),
        ensures
            match r {
                Some(user_id) => self@.contains_key(token@) && self@[token@] == user_id,
                None => !self@.contains_key(token@),
            },
    {
        entries_get(&self.entries, token)
    }

    /// Forgets `token`; a token not in the store is already forgotten.
    pub fn remove_token(&mut self, token: &String)
        requires
            old(self).wf(),
        ensures
            final(self).wf(),
            final(self)@ == old(self)@.remove(token@),
    {
        entries_remove(&mut self.entries, token);
    }
}

/// The in-memory record of recent password-reset requests, a map from email
/// address to the time of the last request.
#[derive(Debug)]
pub struct ResetRequestDB {
    entries: Vec<(String, usize)>,
}

impl View for ResetRequestDB {
    type V = Map<Seq<char>, usize>;

    closed spec fn view(&self) -> Map<Seq<char>, usize> {
        spec_entry_map(self.entries@)
    }
}

impl ResetRequestDB {
    /// The store's internal invariant: one entry per email address.
    pub closed spec fn wf(&self) -> bool {
        spec_keys_unique(self.entries@)
    }

    /// An empty store.
    pub fn new() -> (s: ResetRequestDB)
        ensures
            s@ == Map::<Seq<char>, usize>::empty(),
            s.wf(),
    {
        let s = ResetRequestDB { entries: Vec::new() };
        proof {
            assert(s@ =~= Map::<Seq<char>, usize>::empty());
        }
        s
    }

    /// Records that `email` asked for a reset at `time`, replacing any
    /// earlier request.
    pub fn add_request(&mut self, email: String, time: usize)
        requires
            old(self).wf(),
        ensures
            final(self).wf(),
            final(self)@ == old(self)@.insert(email@, time),
    {
        entries_insert(&mut self.entries, email, time);
    }

    /// The time of the last reset request for `email`, when one is recorded.
    pub fn get_request(&self, email: &String) -> (r: Option<usize>)
        requires
            self.wf(),
        ensures
            match r {
                Some(time) => self@.contains_key(email@) && self@[email@] == time,
                None => !self@.contains_key(email@),
            },
    {
        entries_get(&self.entries, email)
    }
}

/// The shared in-memory state of the password-reset flow.
#[derive(Debug)]
pub struct State {
    pub reset_tokens: ResetTokenDB,
    pub reset_requests: ResetRequestDB,
}

impl State {
    /// A fresh state with no tokens and no recorded requests.
    pub fn new() -> (s: State)
        ensures
            s.reset_tokens@ == Map::<Seq<char>, i32>::empty(),
            s.reset_requests@ == Map::<Seq<char>, usize>::empty(),
            s.reset_tokens.wf(),
            s.reset_requests.wf(),
    {
        State { reset_tokens: ResetTokenDB::new(), reset_requests: ResetRequestDB::new() }
    }
}

} // verus!
