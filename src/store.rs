use vstd::prelude::*;

use crate::errors::ServerError;

verus! {

/// A persisted user record. The password is kept as a bcrypt hash, the
/// timestamps as seconds since the Unix epoch.
pub struct User {
    pub id: i32,
    pub email: String,
    pub username: String,
    pub password: String,
    pub created_at: i64,
    pub last_online: i64,
    pub is_active: bool,
    pub is_verified: bool,
}

/// Whether `u` has the given email or the given username.
pub open spec fn shares_identity(u: User, email: Seq<char>, username: Seq<char>) -> bool {
    u.email@ == email || u.username@ == username
}

/// Whether some record of `users` has the given email or username.
pub open spec fn identity_taken(users: Seq<User>, email: Seq<char>, username: Seq<char>) -> bool {
    exists|i: int| 0 <= i < users.len() && shares_identity(#[trigger] users[i], email, username)
}

/// `new` is `old` with only its last-online time set to `now`.
pub open spec fn touched(old: User, new: User, now: i64) -> bool {
    &&& new.id == old.id
    &&& new.email@ == old.email@
    &&& new.username@ == old.username@
    &&& new.password@ == old.password@
    &&& new.created_at == old.created_at
    &&& new.last_online == now
    &&& new.is_active == old.is_active
    &&& new.is_verified == old.is_verified
}

/// `new` is `old` with only its active flag cleared.
pub open spec fn deactivated(old: User, new: User) -> bool {
    &&& new.id == old.id
    &&& new.email@ == old.email@
    &&& new.username@ == old.username@
    &&& new.password@ == old.password@
    &&& new.created_at == old.created_at
    &&& new.last_online == old.last_online
    &&& !new.is_active
    &&& new.is_verified == old.is_verified
}

/// The record that registering `email` and `username` with the hash
/// `password` at time `now` creates under the identifier `id`.
pub open spec fn fresh_record(u: User, id: int, email: Seq<char>, username: Seq<char>, password: Seq<char>, now: i64) -> bool {
    &&& u.id == id
    &&& u.email@ == email
    &&& u.username@ == username
    &&& u.password@ == password
    &&& u.created_at == now
    &&& u.last_online == now
    &&& u.is_active
    &&& !u.is_verified
}

/// The user records, in order of registration. Records are never removed:
/// deletion only clears their active flag.
pub struct UserStore {
    users: Vec<User>,
}

impl UserStore {
    pub closed spec fn view(&self) -> Seq<User> {
        self.users@
    }

    /// Record `i` has identifier `i + 1`, and no two records share an email
    /// or a username.
    pub open spec fn wf(&self) -> bool {
        &&& self@.len() < i32::MAX
        &&& forall|i: int| 0 <= i < self@.len() ==> (#[trigger] self@[i]).id == i + 1
        &&& forall|i: int, j: int|
            0 <= i < self@.len() && 0 <= j < self@.len() && i != j ==> {
                &&& (#[trigger] self@[i]).email@ != (#[trigger] self@[j]).email@
                &&& self@[i].username@ != self@[j].username@
            }
    }

    /// An empty store.
    pub fn new() -> (r: UserStore)
        ensures
            r.wf(),
            r@.len() == 0,
    {
        UserStore { users: Vec::new() }
    }

    /// The number of records.
    pub fn len(&self) -> (r: usize)
        ensures
            r == self@.len(),
    {
        self.users.len()
    }

    /// The record at position `i`.
    pub fn get(&self, i: usize) -> (r: &User)
        requires
            i < self@.len(),
        ensures
            *r == self@[i as int],
    {
        &self.users[i]
    }

    /// The position of a record with the given email or the given username.
    pub fn find_by_email_or_username(&self, email: &String, username: &String) -> (r: Option<usize>)
        ensures
            r matches Some(i) ==> i < self@.len() && shares_identity(self@[i as int], email@, username@),
            r is None <==> !identity_taken(self@, email@, username@),
    {
        let mut i: usize = 0;
        while i < self.users.len()
            invariant
                i <= self@.len(),
                forall|k: int| 0 <= k < i ==> !shares_identity(#[trigger] self@[k], email@, username@),
            decreases self@.len() - i,
        {
            if self.users[i].email == *email || self.users[i].username == *username {
                return Some(i);
            }
            i = i + 1;
        }
        None
    }

    /// The position of the record with the given email.
    pub fn find_by_email(&self, email: &String) -> (r: Option<usize>)
        ensures
            r matches Some(i) ==> i < self@.len() && self@[i as int].email@ == email@,
            r is None <==> forall|k: int| 0 <= k < self@.len() ==> (#[trigger] self@[k]).email@ != email@,
    {
        let mut i: usize = 0;
        while i < self.users.len()
            invariant
                i <= self@.len(),
                forall|k: int| 0 <= k < i ==> (#[trigger] self@[k]).email@ != email@,
            decreases self@.len() - i,
        {
            if self.users[i].email == *email {
                return Some(i);
            }
            i = i + 1;
        }
        None
    }

    /// The position of the record with identifier `id`.
    pub fn find_by_id(&self, id: i32) -> (r: Option<usize>)
        requires
            self.wf(),
        ensures
            r matches Some(i) ==> i < self@.len() && self@[i as int].id == id,
            r is None <==> !(1 <= id <= self@.len()),
    {
        if 1 <= id && (id as usize) <= self.users.len() {
            Some((id - 1) as usize)
        } else {
            None
        }
    }

    /// Adds a record for `email` and `username`, with password hash
    /// `password`, registered and last online at `now`, active and not
    /// verified. Fails with `UserFound` when a record already holds the email
    /// or the username, and with `InternalError` when identifiers run out; the
    /// store is then unchanged.
    pub fn insert(&mut self, email: String, username: String, password: String, now: i64) -> (r: Result<i32, ServerError>)
        requires
            old(self).wf(),
        ensures
            final(self).wf(),
            r == Err::<i32, ServerError>(ServerError::UserFound) <==> identity_taken(old(self)@, email@, username@),
            r == Err::<i32, ServerError>(ServerError::InternalError)
                <==> !identity_taken(old(self)@, email@, username@) && old(self)@.len() + 1 >= i32::MAX,
            r is Err ==> final(self)@ == old(self)@,
            r matches Err(e) ==> e == ServerError::UserFound || e == ServerError::InternalError,
            r matches Ok(id) ==> {
                &&& id == old(self)@.len() + 1
                &&& final(self)@.len() == old(self)@.len() + 1
                &&& final(self)@.take(old(self)@.len() as int) == old(self)@
                &&& fresh_record(final(self)@.last(), id as int, email@, username@, password@, now)
            },
    {
        if self.find_by_email_or_username(&email, &username).is_some() {
            return Err(ServerError::UserFound);
        }
        if self.users.len() + 1 >= i32::MAX as usize {
            return Err(ServerError::InternalError);
        }
        let id = (self.users.len() + 1) as i32;
        let user = User {
            id,
            email,
            username,
            password,
            created_at: now,
            last_online: now,
            is_active: true,
            is_verified: false,
        };
        self.users.push(user);
        proof {
            assert(self@.take(old(self)@.len() as int) =~= old(self)@);
            assert forall|i: int, j: int|
                0 <= i < self@.len() && 0 <= j < self@.len() && i != j implies {
                    &&& (#[trigger] self@[i]).email@ != (#[trigger] self@[j]).email@
                    &&& self@[i].username@ != self@[j].username@
                } by {
                if i == old(self)@.len() {
                    assert(!shares_identity(old(self)@[j], email@, username@));
                } else if j == old(self)@.len() {
                    assert(!shares_identity(old(self)@[i], email@, username@));
                }
            }
        }
        Ok(id)
    }

    /// Sets the last-online time of record `i` to `now`.
    pub fn set_last_online(&mut self, i: usize, now: i64)
        requires
            old(self).wf(),
            i < old(self)@.len(),
        ensures
            final(self).wf(),
            final(self)@.len() == old(self)@.len(),
            touched(old(self)@[i as int], final(self)@[i as int], now),
            forall|k: int| 0 <= k < old(self)@.len() && k != i ==> final(self)@[k] == old(self)@[k],
    {
        self.users[i].last_online = now;
    }

    /// Clears the active flag of record `i`; the record itself stays.
    pub fn deactivate(&mut self, i: usize)
        requires
            old(self).wf(),
            i < old(self)@.len(),
        ensures
            final(self).wf(),
            final(self)@.len() == old(self)@.len(),
            deactivated(old(self)@[i as int], final(self)@[i as int]),
            forall|k: int| 0 <= k < old(self)@.len() && k != i ==> final(self)@[k] == old(self)@[k],
    {
        self.users[i].is_active = false;
    }
}

} // verus!
