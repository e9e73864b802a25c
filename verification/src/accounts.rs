//! The account store: create, fetch by id or name, and update.

use crate::error::Error;
use crate::model::{AccountModel, Uid};
use crate::schema::CreateAccount;
use vstd::prelude::*;

verus! {

/// One stored account record at the specification level.
pub struct AccountEntry {
    pub id: Uid,
    pub name: Seq<char>,
    pub credential: Seq<char>,
}

/// The entry views of a sequence of account records, in order.
pub open spec fn account_views(accounts: Seq<AccountModel>) -> Seq<AccountEntry> {
    accounts.map_values(
        |a: AccountModel| AccountEntry { id: a.id, name: a.name@, credential: a.credential@ },
    )
}

/// An in-memory account store with unique names and unique ids.
pub struct AccountDirectory {
    accounts: Vec<AccountModel>,
}

impl AccountDirectory {
    /// The stored records, in creation order.
    pub closed spec fn entries(&self) -> Seq<AccountEntry> {
        account_views(self.accounts@)
    }

    /// Names are unique, and every id is a creation index: below the
    /// record count and pairwise distinct.
    pub open spec fn wf(&self) -> bool {
        &&& forall|i: int, j: int|
            0 <= i < j < self.entries().len() ==> self.entries()[i].name
                != self.entries()[j].name
        &&& forall|i: int|
            0 <= i < self.entries().len() ==> self.entries()[i].id.value < self.entries().len()
        &&& forall|i: int, j: int|
            0 <= i < j < self.entries().len() ==> self.entries()[i].id != self.entries()[j].id
    }

    /// Whether a record with `name` exists.
    pub open spec fn spec_contains_name(&self, name: Seq<char>) -> bool {
        exists|i: int| 0 <= i < self.entries().len() && self.entries()[i].name == name
    }

    /// Whether a record with `id` exists.
    pub open spec fn spec_contains_id(&self, id: Uid) -> bool {
        exists|i: int| 0 <= i < self.entries().len() && self.entries()[i].id == id
    }

    /// The record with `name` (unique when `wf()` holds).
    pub open spec fn spec_account_named(&self, name: Seq<char>) -> AccountEntry {
        self.entries()[choose|i: int|
            0 <= i < self.entries().len() && self.entries()[i].name == name]
    }

    /// The record with `id` (unique when `wf()` holds).
    pub open spec fn spec_account_with_id(&self, id: Uid) -> AccountEntry {
        self.entries()[choose|i: int|
            0 <= i < self.entries().len() && self.entries()[i].id == id]
    }

    pub fn new() -> (r: Self)
        ensures
            r.entries() =~= Seq::<AccountEntry>::empty(),
            r.wf(),
    {
        AccountDirectory { accounts: Vec::new() }
    }

    /// Finds the position of the record named `name`, if one exists.
    fn position_of_name(&self, name: &String) -> (r: Option<usize>)
        ensures
            match r {
                Some(i) => 0 <= i < self.entries().len() && self.entries()[i as int].name
                    == name@,
                None => !self.spec_contains_name(name@),
            },
    {
        let mut i: usize = 0;
        while i < self.accounts.len()
            invariant
                i <= self.entries().len(),
                self.entries().len() == self.accounts@.len(),
                forall|k: int| 0 <= k < i ==> self.entries()[k].name != name@,
            decreases self.entries().len() - i,
        {
            assert(self.entries()[i as int].name == self.accounts@[i as int].name@);
            if self.accounts[i].name == *name {
                return Some(i);
            }
            i += 1;
        }
        None
    }

    /// Finds the position of the record with `id`, if one exists.
    fn position_of_id(&self, id: Uid) -> (r: Option<usize>)
        ensures
            match r {
                Some(i) => 0 <= i < self.entries().len() && self.entries()[i as int].id == id,
                None => !self.spec_contains_id(id),
            },
    {
        let mut i: usize = 0;
        while i < self.accounts.len()
            invariant
                i <= self.entries().len(),
                self.entries().len() == self.accounts@.len(),
                forall|k: int| 0 <= k < i ==> self.entries()[k].id != id,
            decreases self.entries().len() - i,
        {
            assert(self.entries()[i as int].id == self.accounts@[i as int].id);
            if self.accounts[i].id.value == id.value {
                return Some(i);
            }
            i += 1;
        }
        None
    }

    /// Fetches the record with `account_id`; absence is `NotFound`.
    pub fn get_account(&self, account_id: Uid) -> (r: Result<AccountModel, Error>)
        requires
            self.wf(),
        ensures
            r is Ok <==> self.spec_contains_id(account_id),
            r matches Ok(a) ==> a.id == account_id && a.name@ == self.spec_account_with_id(
                account_id,
            ).name && a.credential@ == self.spec_account_with_id(account_id).credential,
            r is Err ==> r == Err::<AccountModel, Error>(Error::NotFound),
    {
        match self.position_of_id(account_id) {
            None => Err(Error::NotFound),
            Some(i) => {
                proof {
                    let w = choose|k: int|
                        0 <= k < self.entries().len() && self.entries()[k].id == account_id;
                    if w != i {
                        assert(false);
                    }
                }
                let a = &self.accounts[i];
                Ok(AccountModel { id: a.id, name: a.name.clone(), credential: a.credential.clone() })
            },
        }
    }

    /// Fetches the record named `account_name`; absence is `NotFound`.
    pub fn get_account_by_name(&self, account_name: &String) -> (r: Result<AccountModel, Error>)
        requires
            self.wf(),
        ensures
            r is Ok <==> self.spec_contains_name(account_name@),
            r matches Ok(a) ==> a.name@ == account_name@ && a.id == self.spec_account_named(
                account_name@,
            ).id && a.credential@ == self.spec_account_named(account_name@).credential,
            r is Err ==> r == Err::<AccountModel, Error>(Error::NotFound),
    {
        match self.position_of_name(account_name) {
            None => Err(Error::NotFound),
            Some(i) => {
                proof {
                    let w = choose|k: int|
                        0 <= k < self.entries().len() && self.entries()[k].name == account_name@;
                    if w != i {
                        assert(false);
                    }
                }
                let a = &self.accounts[i];
                Ok(AccountModel { id: a.id, name: a.name.clone(), credential: a.credential.clone() })
            },
        }
    }

    /// Creates an account under a unique name; a name already taken is a
    /// conflict, and the store is then unchanged.
    pub fn create_account(&mut self, account: &CreateAccount) -> (r: Result<AccountModel, Error>)
        requires
            old(self).wf(),
        ensures
            final(self).wf(),
            old(self).spec_contains_name(account.name@) ==> r == Err::<AccountModel, Error>(
                Error::Conflict,
            ) && final(self).entries() =~= old(self).entries(),
            !old(self).spec_contains_name(account.name@) ==> {
                &&& r matches Ok(a)
                &&& a.name@ == account.name@
                &&& a.credential@ == account.credential@
                &&& final(self).entries().len() == old(self).entries().len() + 1
                &&& final(self).entries().last() == (AccountEntry {
                    id: a.id,
                    name: account.name@,
                    credential: account.credential@,
                })
                &&& final(self).entries().drop_last() =~= old(self).entries()
            },
    {
        if let Some(_) = self.position_of_name(&account.name) {
            return Err(Error::Conflict);
        }
        let id = Uid { value: self.accounts.len() as u128 };
        let ghost pre = self.entries();
        let record = AccountModel {
            id,
            name: account.name.clone(),
            credential: account.credential.clone(),
        };
        let out = AccountModel {
            id,
            name: account.name.clone(),
            credential: account.credential.clone(),
        };
        self.accounts.push(record);
        assert(self.entries() =~= pre.push(
            AccountEntry { id, name: account.name@, credential: account.credential@ },
        ));
        Ok(out)
    }

    /// Updates the record with `id` to the given name and credential.
    /// Absence is `NotFound`; a name already taken by another record is a
    /// conflict. On either failure the store is unchanged.
    pub fn put_account(&mut self, id: Uid, account: &CreateAccount) -> (r: Result<
        AccountModel,
        Error,
    >)
        requires
            old(self).wf(),
        ensures
            final(self).wf(),
            !old(self).spec_contains_id(id) ==> r == Err::<AccountModel, Error>(Error::NotFound)
                && final(self).entries() =~= old(self).entries(),
            old(self).spec_contains_id(id) && old(self).spec_contains_name(account.name@) && old(
                self,
            ).spec_account_named(account.name@).id != id ==> r == Err::<AccountModel, Error>(
                Error::Conflict,
            ) && final(self).entries() =~= old(self).entries(),
            old(self).spec_contains_id(id) && (!old(self).spec_contains_name(account.name@) || old(
                self,
            ).spec_account_named(account.name@).id == id) ==> {
                &&& r matches Ok(a)
                &&& a.id == id
                &&& a.name@ == account.name@
                &&& a.credential@ == account.credential@
                &&& final(self).entries().len() == old(self).entries().len()
                &&& exists|i: int|
                    {
                        &&& 0 <= i < old(self).entries().len()
                        &&& old(self).entries()[i].id == id
                        &&& final(self).entries() =~= old(self).entries().update(
                            i,
                            AccountEntry {
                                id,
                                name: account.name@,
                                credential: account.credential@,
                            },
                        )
                    }
            },
    {
        let i = match self.position_of_id(id) {
            None => {
                return Err(Error::NotFound);
            },
            Some(i) => i,
        };
        match self.position_of_name(&account.name) {
            Some(j) if j != i => {
                proof {
                    let w = choose|k: int|
                        0 <= k < self.entries().len() && self.entries()[k].name == account.name@;
                    if w != j {
                        assert(false);
                    }
                }
                return Err(Error::Conflict);
            },
            _ => {},
        }
        proof {
            if self.spec_contains_name(account.name@) && self.spec_account_named(
                account.name@,
            ).id != id {
                let w = choose|k: int|
                    0 <= k < self.entries().len() && self.entries()[k].name == account.name@;
                assert(self.entries()[w].name == account.name@);
                assert(false);
            }
        }
        let ghost pre = self.entries();
        self.accounts[i].name = account.name.clone();
        self.accounts[i].credential = account.credential.clone();
        assert(self.entries() =~= pre.update(
            i as int,
            AccountEntry { id: pre[i as int].id, name: account.name@, credential: account.credential@ },
        ));
        assert(pre[i as int].id == id);
        Ok(AccountModel { id, name: account.name.clone(), credential: account.credential.clone() })
    }
}

} // verus!
