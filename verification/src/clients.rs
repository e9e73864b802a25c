//! The client store: issuing machine clients with opaque bearer tokens,
//! exact lookup by token, and the paginated listing window.

use crate::error::Error;
use crate::model::{ClientModel, Uid};
use crate::schema::FilterOptions;
use crate::token::{TOKEN_LENGTH, generate_token, is_token_string};
use vstd::prelude::*;

verus! {

/// One stored client record at the specification level.
pub struct ClientEntry {
    pub id: Uid,
    pub name: Seq<char>,
    pub user_id: Uid,
    pub token: Seq<char>,
}

/// The entry views of a sequence of client records, in order.
pub open spec fn client_views(cs: Seq<ClientModel>) -> Seq<ClientEntry> {
    cs.map_values(
        |c: ClientModel| ClientEntry { id: c.id, name: c.name@, user_id: c.user_id, token: c.token@ },
    )
}

/// An in-memory client store with unique ids.
pub struct ClientDirectory {
    clients: Vec<ClientModel>,
}

impl ClientDirectory {
    /// The stored records, in creation order.
    pub closed spec fn entries(&self) -> Seq<ClientEntry> {
        client_views(self.clients@)
    }

    /// Every id is exactly its record's creation index, so the records
    /// stand in ascending id order and ids are pairwise distinct.
    pub open spec fn wf(&self) -> bool {
        forall|i: int| 0 <= i < self.entries().len() ==> self.entries()[i].id.value == i
    }

    /// Whether a record with `token` exists.
    pub open spec fn spec_contains_token(&self, token: Seq<char>) -> bool {
        exists|i: int| 0 <= i < self.entries().len() && self.entries()[i].token == token
    }

    /// The position of the first record with `token`.
    pub open spec fn spec_first_with_token(&self, token: Seq<char>) -> int {
        choose|i: int|
            0 <= i < self.entries().len() && self.entries()[i].token == token && forall|k: int|
                0 <= k < i ==> self.entries()[k].token != token
    }

    pub fn new() -> (r: Self)
        ensures
            r.entries() =~= Seq::<ClientEntry>::empty(),
            r.wf(),
    {
        ClientDirectory { clients: Vec::new() }
    }

    /// Issues a new client for `user_id`: a fresh id and a random bearer
    /// token of the configured fixed length over the token alphabet.
    pub fn create_client(&mut self, user_id: Uid, name: String) -> (r: Result<ClientModel, Error>)
        requires
            old(self).wf(),
        ensures
            final(self).wf(),
            r matches Ok(c) && {
                &&& c.user_id == user_id
                &&& c.name@ == name@
                &&& is_token_string(c.token@, TOKEN_LENGTH as int)
                &&& final(self).entries().len() == old(self).entries().len() + 1
                &&& final(self).entries().last() == (ClientEntry {
                    id: c.id,
                    name: name@,
                    user_id,
                    token: c.token@,
                })
                &&& final(self).entries().drop_last() =~= old(self).entries()
            },
    {
        let token = generate_token();
        let id = Uid { value: self.clients.len() as u128 };
        let ghost pre = self.entries();
        let ghost tview = token@;
        let record = ClientModel { id, name: name.clone(), user_id, token: token.clone() };
        let out = ClientModel { id, name, user_id, token };
        self.clients.push(record);
        assert(self.entries() =~= pre.push(
            ClientEntry { id, name: out.name@, user_id, token: tview },
        ));
        Ok(out)
    }

    /// Looks a client up by its exact bearer token; absence is `NotFound`
    /// (which authenticating middleware maps to `Unauthorized`). When
    /// tokens collide, the earliest record wins.
    pub fn get_client(&self, token: &String) -> (r: Result<ClientModel, Error>)
        ensures
            r is Ok <==> self.spec_contains_token(token@),
            r matches Ok(c) ==> c.token@ == token@ && {
                let e = self.entries()[self.spec_first_with_token(token@)];
                c.id == e.id && c.name@ == e.name && c.user_id == e.user_id && c.token@ == e.token
            },
            r is Err ==> r == Err::<ClientModel, Error>(Error::NotFound),
    {
        let mut i: usize = 0;
        while i < self.clients.len()
            invariant
                i <= self.entries().len(),
                self.entries().len() == self.clients@.len(),
                forall|k: int| 0 <= k < i ==> self.entries()[k].token != token@,
            decreases self.entries().len() - i,
        {
            assert(self.entries()[i as int].token == self.clients@[i as int].token@);
            if self.clients[i].token == *token {
                proof {
                    let w = self.spec_first_with_token(token@);
                    assert(0 <= i < self.entries().len() && self.entries()[i as int].token
                        == token@ && forall|k: int|
                        0 <= k < i ==> self.entries()[k].token != token@);
                    if w != i {
                        assert(false);
                    }
                }
                let c = &self.clients[i];
                return Ok(
                    ClientModel {
                        id: c.id,
                        name: c.name.clone(),
                        user_id: c.user_id,
                        token: c.token.clone(),
                    },
                );
            }
            i += 1;
        }
        Err(Error::NotFound)
    }

    /// The page of records selected by `opts`: `limit` records (10 when
    /// unset) starting at `(page - 1) * limit` (first page when unset),
    /// clipped to the stored records.
    pub fn get_client_list(&self, opts: &FilterOptions) -> (r: Vec<ClientModel>)
        requires
            self.wf(),
            opts.page != Some(0usize),
            (spec_page(opts) - 1) * spec_limit(opts) <= usize::MAX,
        ensures
            client_views(r@) =~= self.entries().subrange(
                spec_clip(spec_offset(opts), self.entries().len() as int),
                spec_clip(spec_offset(opts) + spec_limit(opts), self.entries().len() as int),
            ),
            forall|a: int, b: int|
                0 <= a < b < r@.len() ==> client_views(r@)[a].id.value < client_views(
                    r@,
                )[b].id.value,
    {
        let limit = match opts.limit {
            Some(l) => l,
            None => 10,
        };
        let page = match opts.page {
            Some(p) => p,
            None => 1,
        };
        let offset = (page - 1) * limit;
        let start = if offset < self.clients.len() {
            offset
        } else {
            self.clients.len()
        };
        let end = if limit <= self.clients.len() - start {
            start + limit
        } else {
            self.clients.len()
        };
        let mut out: Vec<ClientModel> = Vec::new();
        let mut i: usize = start;
        while i < end
            invariant
                start <= i <= end <= self.clients@.len(),
                self.entries().len() == self.clients@.len(),
                client_views(out@) =~= self.entries().subrange(start as int, i as int),
            decreases end - i,
        {
            let ghost out_pre = out@;
            let c = &self.clients[i];
            out.push(
                ClientModel {
                    id: c.id,
                    name: c.name.clone(),
                    user_id: c.user_id,
                    token: c.token.clone(),
                },
            );
            proof {
                assert(self.entries()[i as int] == (ClientEntry {
                    id: self.clients@[i as int].id,
                    name: self.clients@[i as int].name@,
                    user_id: self.clients@[i as int].user_id,
                    token: self.clients@[i as int].token@,
                }));
                assert(client_views(out@) =~= client_views(out_pre).push(
                    self.entries()[i as int],
                ));
            }
            i += 1;
        }
        proof {
            assert(start as int == spec_clip(spec_offset(opts), self.entries().len() as int));
            assert(end as int == spec_clip(
                spec_offset(opts) + spec_limit(opts),
                self.entries().len() as int,
            ));
        }
        out
    }
}

/// The page number selected by `opts`: the first page when unset.
pub open spec fn spec_page(opts: &FilterOptions) -> int {
    match opts.page {
        Some(p) => p as int,
        None => 1,
    }
}

/// The page size selected by `opts`: 10 when unset.
pub open spec fn spec_limit(opts: &FilterOptions) -> int {
    match opts.limit {
        Some(l) => l as int,
        None => 10,
    }
}

/// The number of records skipped before the selected page.
pub open spec fn spec_offset(opts: &FilterOptions) -> int {
    (spec_page(opts) - 1) * spec_limit(opts)
}

/// `v`, clipped from above to `bound`.
pub open spec fn spec_clip(v: int, bound: int) -> int {
    if v < bound {
        v
    } else {
        bound
    }
}

} // verus!
