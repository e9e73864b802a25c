//! The user credential store: registration, lookup by id, and credential
//! validation against the stored salted password hash.
//!
//! The store itself is the in-memory implementation of the credential-store
//! interface; the database-backed deployment performs the same operations
//! against its own storage and hands the same plain records around.

use crate::error::Error;
use crate::hashing::{generate_hash, phc_parses, phc_verifies, verify_password_hash};
use crate::model::{Uid, UserModel, UserTransportModel};
use crate::schema::LoginPayload;
use vstd::prelude::*;

verus! {

/// One stored user record at the specification level.
pub struct UserEntry {
    pub id: Uid,
    pub name: Seq<char>,
    pub password_hash: Seq<char>,
}

/// An in-memory user credential store with unique names and unique ids.
pub struct UserDirectory {
    users: Vec<UserModel>,
}

impl UserDirectory {
    /// The stored records, in creation order.
    pub closed spec fn entries(&self) -> Seq<UserEntry> {
        self.users@.map_values(
            |u: UserModel| UserEntry { id: u.id, name: u.name@, password_hash: u.password_hash@ },
        )
    }

    /// Names are unique, and every id is a creation index: below the record
    /// count and pairwise distinct.
    pub open spec fn wf(&self) -> bool {
        &&& forall|i: int, j: int|
            0 <= i < j < self.entries().len() ==> self.entries()[i].name
                != self.entries()[j].name
        &&& forall|i: int|
            0 <= i < self.entries().len() ==> self.entries()[i].id.value < self.entries().len()
        &&& forall|i: int, j: int|
            0 <= i < j < self.entries().len() ==> self.entries()[i].id != self.entries()[j].id
    }

    /// Whether a record with `name` exists.
    pub open spec fn spec_contains_name(&self, name: Seq<char>) -> bool {
        exists|i: int| 0 <= i < self.entries().len() && self.entries()[i].name == name
    }

    /// Whether a record with `id` exists.
    pub open spec fn spec_contains_id(&self, id: Uid) -> bool {
        exists|i: int| 0 <= i < self.entries().len() && self.entries()[i].id == id
    }

    /// The record with `name` (unique when `wf()` holds).
    pub open spec fn spec_user_named(&self, name: Seq<char>) -> UserEntry {
        self.entries()[choose|i: int|
            0 <= i < self.entries().len() && self.entries()[i].name == name]
    }

    /// The record with `id` (unique when `wf()` holds).
    pub open spec fn spec_user_with_id(&self, id: Uid) -> UserEntry {
        self.entries()[choose|i: int|
            0 <= i < self.entries().len() && self.entries()[i].id == id]
    }

    pub fn new() -> (r: Self)
        ensures
            r.entries() =~= Seq::<UserEntry>::empty(),
            r.wf(),
    {
        UserDirectory { users: Vec::new() }
    }

    /// Finds the position of the record named `name`, if one exists.
    fn position_of_name(&self, name: &String) -> (r: Option<usize>)
        ensures
            match r {
                Some(i) => 0 <= i < self.entries().len() && self.entries()[i as int].name
                    == name@,
                None => !self.spec_contains_name(name@),
            },
    {
        let mut i: usize = 0;
        while i < self.users.len()
            invariant
                i <= self.entries().len(),
                self.entries().len() == self.users@.len(),
                forall|k: int| 0 <= k < i ==> self.entries()[k].name != name@,
            decreases self.entries().len() - i,
        {
            assert(self.entries()[i as int].name == self.users@[i as int].name@);
            if self.users[i].name == *name {
                return Some(i);
            }
            i += 1;
        }
        None
    }

    /// Finds the position of the record with `id`, if one exists.
    fn position_of_id(&self, id: Uid) -> (r: Option<usize>)
        ensures
            match r {
                Some(i) => 0 <= i < self.entries().len() && self.entries()[i as int].id == id,
                None => !self.spec_contains_id(id),
            },
    {
        let mut i: usize = 0;
        while i < self.users.len()
            invariant
                i <= self.entries().len(),
                self.entries().len() == self.users@.len(),
                forall|k: int| 0 <= k < i ==> self.entries()[k].id != id,
            decreases self.entries().len() - i,
        {
            assert(self.entries()[i as int].id == self.users@[i as int].id);
            if self.users[i].id.value == id.value {
                return Some(i);
            }
            i += 1;
        }
        None
    }

    /// Registers a new user under a unique name, storing a fresh salted
    /// hash of the password. A name already taken is a conflict; the store
    /// is then unchanged. The password must fit the hash function's 32-bit
    /// length field.
    pub fn create_user(&mut self, credentials: &LoginPayload) -> (r: Result<
        UserTransportModel,
        Error,
    >)
        requires
            old(self).wf(),
            vstd::utf8::encode_utf8(credentials.password@).len() <= 0xFFFF_FFFF,
        ensures
            final(self).wf(),
            old(self).spec_contains_name(credentials.name@) ==> r == Err::<
                UserTransportModel,
                Error,
            >(Error::Conflict) && final(self).entries() =~= old(self).entries(),
            !old(self).spec_contains_name(credentials.name@) ==> {
                &&& r matches Ok(u)
                &&& final(self).entries().len() == old(self).entries().len() + 1
                &&& final(self).entries().last().name == credentials.name@
                &&& final(self).entries().last().id == u.id
                &&& phc_parses(final(self).entries().last().password_hash)
                &&& phc_verifies(final(self).entries().last().password_hash, credentials.password@)
                &&& u.name@ == credentials.name@
                &&& final(self).entries().drop_last() =~= old(self).entries()
            },
    {
        if let Some(_) = self.position_of_name(&credentials.name) {
            return Err(Error::Conflict);
        }
        let password_hash = generate_hash(&credentials.password);
        let ghost hview = password_hash@;
        let id = Uid { value: self.users.len() as u128 };
        let ghost pre = self.entries();
        let record = UserModel { id, name: credentials.name.clone(), password_hash };
        let out = UserTransportModel { id, name: credentials.name.clone() };
        self.users.push(record);
        assert(self.entries() =~= pre.push(
            UserEntry { id, name: credentials.name@, password_hash: hview },
        ));
        Ok(out)
    }

    /// Validates a name and password pair against the stored records.
    ///
    /// An unknown name is `Unauthorized`; a stored hash that does not parse
    /// is an internal error; a password that does not match is
    /// `Unauthorized`. On success the record's id and name are returned.
    pub fn validate_credentials(&self, credentials: &LoginPayload) -> (r: Result<
        UserTransportModel,
        Error,
    >)
        requires
            self.wf(),
        ensures
            r is Ok <==> self.spec_contains_name(credentials.name@) && phc_parses(
                self.spec_user_named(credentials.name@).password_hash,
            ) && phc_verifies(
                self.spec_user_named(credentials.name@).password_hash,
                credentials.password@,
            ),
            r matches Ok(u) ==> u.id == self.spec_user_named(credentials.name@).id && u.name@
                == credentials.name@,
            !self.spec_contains_name(credentials.name@) ==> r == Err::<UserTransportModel, Error>(
                Error::Unauthorized,
            ),
            self.spec_contains_name(credentials.name@) && !phc_parses(
                self.spec_user_named(credentials.name@).password_hash,
            ) ==> r == Err::<UserTransportModel, Error>(Error::InternalServerError),
            self.spec_contains_name(credentials.name@) && phc_parses(
                self.spec_user_named(credentials.name@).password_hash,
            ) && !phc_verifies(
                self.spec_user_named(credentials.name@).password_hash,
                credentials.password@,
            ) ==> r == Err::<UserTransportModel, Error>(Error::Unauthorized),
    {
        let i = match self.position_of_name(&credentials.name) {
            None => {
                return Err(Error::Unauthorized);
            },
            Some(i) => i,
        };
        proof {
            let w = choose|k: int|
                0 <= k < self.entries().len() && self.entries()[k].name == credentials.name@;
            if w != i {
                assert(false);
            }
        }
        match verify_password_hash(&self.users[i].password_hash, &credentials.password) {
            Ok(()) => Ok(
                UserTransportModel { id: self.users[i].id, name: self.users[i].name.clone() },
            ),
            Err(e) => Err(e),
        }
    }

    /// Validates credentials; the API tier's login endpoint calls the store
    /// under this name.
    pub fn verify_credentials(&self, credentials: &LoginPayload) -> (r: Result<
        UserTransportModel,
        Error,
    >)
        requires
            self.wf(),
        ensures
            r is Ok <==> self.spec_contains_name(credentials.name@) && phc_parses(
                self.spec_user_named(credentials.name@).password_hash,
            ) && phc_verifies(
                self.spec_user_named(credentials.name@).password_hash,
                credentials.password@,
            ),
            r matches Ok(u) ==> u.id == self.spec_user_named(credentials.name@).id && u.name@
                == credentials.name@,
            !self.spec_contains_name(credentials.name@) ==> r == Err::<UserTransportModel, Error>(
                Error::Unauthorized,
            ),
            self.spec_contains_name(credentials.name@) && !phc_parses(
                self.spec_user_named(credentials.name@).password_hash,
            ) ==> r == Err::<UserTransportModel, Error>(Error::InternalServerError),
            self.spec_contains_name(credentials.name@) && phc_parses(
                self.spec_user_named(credentials.name@).password_hash,
            ) && !phc_verifies(
                self.spec_user_named(credentials.name@).password_hash,
                credentials.password@,
            ) ==> r == Err::<UserTransportModel, Error>(Error::Unauthorized),
    {
        self.validate_credentials(credentials)
    }

    /// Fetches the id and name of the record with `user_id`; absence is
    /// `NotFound`.
    pub fn get_user(&self, user_id: Uid) -> (r: Result<UserTransportModel, Error>)
        requires
            self.wf(),
        ensures
            r is Ok <==> self.spec_contains_id(user_id),
            r matches Ok(u) ==> u.id == user_id && u.name@ == self.spec_user_with_id(user_id).name,
            r is Err ==> r == Err::<UserTransportModel, Error>(Error::NotFound),
    {
        match self.position_of_id(user_id) {
            None => Err(Error::NotFound),
            Some(i) => {
                proof {
                    let w = choose|k: int|
                        0 <= k < self.entries().len() && self.entries()[k].id == user_id;
                    if w != i {
                        assert(false);
                    }
                }
                Ok(UserTransportModel { id: self.users[i].id, name: self.users[i].name.clone() })
            },
        }
    }
}

/// A freshly registered credential validates: when the last record of a
/// well-formed store carries `name` and a hash that parses and that
/// `password` verifies against, then the store's validation condition for
/// `(name, password)` holds, on that record's id. Together with the
/// validation contract, a registration followed by a validation of the
/// same pair succeeds and returns the new record's id and name.
pub proof fn lemma_registered_then_valid(d: UserDirectory, name: Seq<char>, password: Seq<char>)
    requires
        d.wf(),
        d.entries().len() > 0,
        d.entries().last().name == name,
        phc_parses(d.entries().last().password_hash),
        phc_verifies(d.entries().last().password_hash, password),
    ensures
        d.spec_contains_name(name),
        phc_parses(d.spec_user_named(name).password_hash),
        phc_verifies(d.spec_user_named(name).password_hash, password),
        d.spec_user_named(name).id == d.entries().last().id,
{
    let n = d.entries().len() as int;
    assert(d.entries()[n - 1].name == name);
    assert(d.spec_contains_name(name));
    let w = choose|i: int| 0 <= i < d.entries().len() && d.entries()[i].name == name;
    if w != n - 1 {
        assert(false);
    }
}

/// Fetches a user through the repository interface; the use-case layer of
/// the API tier delegates to the store unchanged.
pub fn view(repo: &UserDirectory, user_id: Uid) -> (r: Result<UserTransportModel, Error>)
    requires
        repo.wf(),
    ensures
        r is Ok <==> repo.spec_contains_id(user_id),
        r matches Ok(u) ==> u.id == user_id && u.name@ == repo.spec_user_with_id(user_id).name,
        r is Err ==> r == Err::<UserTransportModel, Error>(Error::NotFound),
{
    repo.get_user(user_id)
}

} // verus!
