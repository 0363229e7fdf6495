use crate::database::{has_id, has_link, id_pos, link_record, now_micros, AuthDatabase};
use crate::error::DbErr;
use vstd::prelude::*;

verus! {

/// The mathematical content of an identity link.
pub struct LinkView {
    pub id_number: i32,
    pub auth_provider: Seq<char>,
    pub auth_key: Seq<char>,
    pub user_id: u128,
    pub is_verified: bool,
    pub verified_at: Option<i64>,
}

/// An identity link: binds the credential record that a provider names by
/// `auth_key` to the canonical user `user_id`, with its verification status.
#[derive(Debug, PartialEq, Eq)]
pub struct Model {
    pub id_number: i32,
    pub auth_provider: String,
    pub auth_key: String,
    pub user_id: u128,
    pub is_verified: bool,
    /// Microseconds since the Unix epoch.
    pub verified_at: Option<i64>,
}

pub type UserAuthPairData = Model;

impl View for Model {
    type V = LinkView;

    open spec fn view(&self) -> LinkView {
        LinkView {
            id_number: self.id_number,
            auth_provider: self.auth_provider@,
            auth_key: self.auth_key@,
            user_id: self.user_id,
            is_verified: self.is_verified,
            verified_at: self.verified_at,
        }
    }
}

impl Clone for Model {
    fn clone(&self) -> (r: Self)
        ensures
            r == *self,
    {
        Model {
            id_number: self.id_number,
            auth_provider: self.auth_provider.clone(),
            auth_key: self.auth_key.clone(),
            user_id: self.user_id,
            is_verified: self.is_verified,
            verified_at: self.verified_at,
        }
    }
}

/// What a new identity link is made from.
#[derive(Debug)]
pub struct UserAuthPairBeforeInsert {
    pub auth_provider: String,
    pub auth_key: String,
    pub user_id: u128,
}

/// The view of an optional link.
pub open spec fn link_opt(o: Option<Model>) -> Option<LinkView> {
    match o {
        Some(m) => Some(m@),
        None => None,
    }
}

/// A new, unverified link.
pub open spec fn fresh_link(id: i32, provider: Seq<char>, key: Seq<char>, user_id: u128) -> LinkView {
    LinkView {
        id_number: id,
        auth_provider: provider,
        auth_key: key,
        user_id,
        is_verified: false,
        verified_at: None,
    }
}

/// The link after its verification status was set to `v` at time `at`:
/// a time is recorded exactly when it becomes verified.
pub open spec fn with_verified(l: LinkView, v: bool, at: i64) -> LinkView {
    LinkView {
        id_number: l.id_number,
        auth_provider: l.auth_provider,
        auth_key: l.auth_key,
        user_id: l.user_id,
        is_verified: v,
        verified_at: if v {
            Some(at)
        } else {
            None
        },
    }
}

/// The link with a new provider key.
pub open spec fn with_auth_key(l: LinkView, key: Seq<char>) -> LinkView {
    LinkView {
        id_number: l.id_number,
        auth_provider: l.auth_provider,
        auth_key: key,
        user_id: l.user_id,
        is_verified: l.is_verified,
        verified_at: l.verified_at,
    }
}

impl Model {
    /// Stores a new, unverified link under the next free identifier. Fails
    /// where the (provider name, key) pair is taken or no identifier is left.
    pub fn create(db: &mut AuthDatabase, data: UserAuthPairBeforeInsert) -> (r: Result<
        Model,
        DbErr,
    >)
        requires
            old(db).wf(),
        ensures
            final(db).wf(),
            final(db)@.credentials == old(db)@.credentials,
            has_link(old(db)@.links, data.auth_provider@, data.auth_key@) ==> r == Err::<
                Model,
                DbErr,
            >(DbErr::DuplicateKey),
            !has_link(old(db)@.links, data.auth_provider@, data.auth_key@) && old(db)@.next_link_id
                == i32::MAX ==> r == Err::<Model, DbErr>(DbErr::IdExhausted),
            r is Err ==> final(db)@ == old(db)@,
            !has_link(old(db)@.links, data.auth_provider@, data.auth_key@) && old(db)@.next_link_id
                < i32::MAX ==> r is Ok,
            r is Ok ==> {
                &&& r->Ok_0@ == fresh_link(
                    old(db)@.next_link_id,
                    data.auth_provider@,
                    data.auth_key@,
                    data.user_id,
                )
                &&& final(db)@.links == old(db)@.links.push(r->Ok_0@)
                &&& final(db)@.next_link_id == old(db)@.next_link_id + 1
            },
    {
        if db.link_index(data.auth_provider.as_str(), data.auth_key.as_str()).is_some() {
            return Err(DbErr::DuplicateKey);
        }
        if db.next_link_id == i32::MAX {
            return Err(DbErr::IdExhausted);
        }
        let link = Model {
            id_number: db.next_link_id,
            auth_provider: data.auth_provider,
            auth_key: data.auth_key,
            user_id: data.user_id,
            is_verified: false,
            verified_at: None,
        };
        let stored = link.clone();
        db.links.push(link);
        db.next_link_id = db.next_link_id + 1;
        proof {
            assert(db@.links =~= old(db)@.links.push(stored@));
            assert(db@.credentials =~= old(db)@.credentials);
        }
        Ok(stored)
    }

    /// Sets the verification status of the link with `before`'s identifier,
    /// recording `now` when it becomes verified and clearing the time otherwise.
    pub fn update_is_verified_at(
        db: &mut AuthDatabase,
        before: &Model,
        is_verified: bool,
        now: i64,
    ) -> (r: Result<Model, DbErr>)
        requires
            old(db).wf(),
        ensures
            final(db).wf(),
            final(db)@.credentials == old(db)@.credentials,
            final(db)@.next_link_id == old(db)@.next_link_id,
            !has_id(old(db)@.links, before.id_number) ==> r == Err::<Model, DbErr>(
                DbErr::RecordNotFound,
            ) && final(db)@ == old(db)@,
            has_id(old(db)@.links, before.id_number) ==> {
                let p = id_pos(old(db)@.links, before.id_number);
                &&& r is Ok
                &&& r->Ok_0@ == with_verified(old(db)@.links[p], is_verified, now)
                &&& final(db)@.links == old(db)@.links.update(p, r->Ok_0@)
            },
    {
        match db.id_index(before.id_number) {
            None => Err(DbErr::RecordNotFound),
            Some(i) => {
                let mut m = db.links[i].clone();
                m.is_verified = is_verified;
                m.verified_at = if is_verified {
                    Some(now)
                } else {
                    None
                };
                let out = m.clone();
                db.set_link(i, m);
                Ok(out)
            },
        }
    }

    /// Sets the verification status of the link with `before`'s identifier,
    /// recording the current time when it becomes verified.
    pub fn update_is_verified(db: &mut AuthDatabase, before: &Model, is_verified: bool) -> (r:
        Result<Model, DbErr>)
        requires
            old(db).wf(),
        ensures
            final(db).wf(),
            final(db)@.credentials == old(db)@.credentials,
            final(db)@.next_link_id == old(db)@.next_link_id,
            !has_id(old(db)@.links, before.id_number) ==> r == Err::<Model, DbErr>(
                DbErr::RecordNotFound,
            ) && final(db)@ == old(db)@,
            has_id(old(db)@.links, before.id_number) ==> {
                let p = id_pos(old(db)@.links, before.id_number);
                &&& r is Ok
                &&& r->Ok_0.is_verified == is_verified
                &&& r->Ok_0.verified_at is Some <==> is_verified
                &&& r->Ok_0@ == with_verified(
                    old(db)@.links[p],
                    is_verified,
                    match r->Ok_0.verified_at {
                        Some(t) => t,
                        None => 0,
                    },
                )
                &&& final(db)@.links == old(db)@.links.update(p, r->Ok_0@)
            },
    {
        let now = now_micros();
        let r = Self::update_is_verified_at(db, before, is_verified, now);
        proof {
            if r is Ok && !is_verified {
                assert(r->Ok_0@ == with_verified(
                    old(db)@.links[id_pos(old(db)@.links, before.id_number)],
                    is_verified,
                    0,
                ));
            }
        }
        r
    }

    /// Every link of the canonical user `user_id`, in storage order.
    pub fn find_by_user_id(db: &AuthDatabase, user_id: u128) -> (r: Vec<Model>)
        requires
            db.wf(),
        ensures
            forall|k: int|
                0 <= k < r@.len() ==> r@[k]@.user_id == user_id && db@.links.contains(r@[k]@),
            forall|i: int|
                0 <= i < db@.links.len() && db@.links[i].user_id == user_id ==> exists|k: int|
                    0 <= k < r@.len() && r@[k]@ == db@.links[i],
    {
        let mut out: Vec<Model> = Vec::new();
        let mut i: usize = 0;
        while i < db.links.len()
            invariant
                i <= db.links.len(),
                forall|k: int|
                    0 <= k < out@.len() ==> out@[k]@.user_id == user_id && db@.links.contains(
                        out@[k]@,
                    ),
                forall|j: int|
                    0 <= j < i && db@.links[j].user_id == user_id ==> exists|k: int|
                        0 <= k < out@.len() && out@[k]@ == db@.links[j],
            decreases db.links.len() - i,
        {
            let ghost prev = out@;
            if db.links[i].user_id == user_id {
                let l = db.links[i].clone();
                assert(l@ == db@.links[i as int]);
                out.push(l);
                assert(out@[out@.len() - 1]@ == db@.links[i as int]);
            }
            proof {
                assert forall|j: int|
                    0 <= j < i + 1 && db@.links[j].user_id == user_id implies exists|k: int|
                        0 <= k < out@.len() && out@[k]@ == db@.links[j] by {
                    if j < i {
                        let k = choose|k: int| 0 <= k < prev.len() && prev[k]@ == db@.links[j];
                        assert(out@[k] == prev[k]);
                    } else {
                        assert(out@[out@.len() - 1]@ == db@.links[j]);
                    }
                }
            }
            i = i + 1;
        }
        out
    }

    /// The link with this provider name and provider key.
    pub fn find_by_key(db: &AuthDatabase, auth_provider: &str, auth_key: &str) -> (r: Option<
        Model,
    >)
        requires
            db.wf(),
        ensures
            link_opt(r) == link_record(db@.links, auth_provider@, auth_key@),
    {
        match db.link_index(auth_provider, auth_key) {
            None => None,
            Some(i) => Some(db.links[i].clone()),
        }
    }

    /// Deletes the link with `before`'s identifier; returns the number of links removed.
    pub fn delete(db: &mut AuthDatabase, before: Model) -> (r: u64)
        requires
            old(db).wf(),
        ensures
            final(db).wf(),
            final(db)@.credentials == old(db)@.credentials,
            final(db)@.next_link_id == old(db)@.next_link_id,
            !has_id(old(db)@.links, before.id_number) ==> r == 0 && final(db)@ == old(db)@,
            has_id(old(db)@.links, before.id_number) ==> r == 1 && final(db)@.links
                == old(db)@.links.remove(id_pos(old(db)@.links, before.id_number)),
    {
        match db.id_index(before.id_number) {
            None => 0,
            Some(i) => {
                db.links.remove(i);
                proof {
                    assert(db@.links =~= old(db)@.links.remove(i as int));
                    assert(db@.credentials =~= old(db)@.credentials);
                    assert forall|a: int, b: int|
                        0 <= a < db@.links.len() && 0 <= b < db@.links.len() && a
                            != b implies db@.links[a].id_number != db@.links[b].id_number
                        && !(db@.links[a].auth_provider == db@.links[b].auth_provider
                        && db@.links[a].auth_key == db@.links[b].auth_key) by {
                        let oa = if a < i { a } else { a + 1 };
                        let ob = if b < i { b } else { b + 1 };
                        assert(db@.links[a] == old(db)@.links[oa]);
                        assert(db@.links[b] == old(db)@.links[ob]);
                    }
                    assert forall|a: int| 0 <= a < db@.links.len() implies db@.links[a].id_number
                        < db@.next_link_id by {
                        let oa = if a < i { a } else { a + 1 };
                        assert(db@.links[a] == old(db)@.links[oa]);
                    }
                }
                1
            },
        }
    }

    /// Gives the link with `before`'s identifier a new provider key. Fails where
    /// another link of the same provider holds that key.
    pub fn update_auth_key(db: &mut AuthDatabase, before: &Model, new_auth_key: &str) -> (r: Result<
        Model,
        DbErr,
    >)
        requires
            old(db).wf(),
        ensures
            final(db).wf(),
            final(db)@.credentials == old(db)@.credentials,
            final(db)@.next_link_id == old(db)@.next_link_id,
            !has_id(old(db)@.links, before.id_number) ==> r == Err::<Model, DbErr>(
                DbErr::RecordNotFound,
            ),
            r is Err ==> final(db)@ == old(db)@,
            has_id(old(db)@.links, before.id_number) ==> {
                let p = id_pos(old(db)@.links, before.id_number);
                let l = old(db)@.links[p];
                &&& (l.auth_key != new_auth_key@ && has_link(
                    old(db)@.links,
                    l.auth_provider,
                    new_auth_key@,
                )) ==> r == Err::<Model, DbErr>(DbErr::DuplicateKey)
                &&& (l.auth_key == new_auth_key@ || !has_link(
                    old(db)@.links,
                    l.auth_provider,
                    new_auth_key@,
                )) ==> {
                    &&& r is Ok
                    &&& r->Ok_0@ == with_auth_key(l, new_auth_key@)
                    &&& final(db)@.links == old(db)@.links.update(p, r->Ok_0@)
                }
            },
    {
        match db.id_index(before.id_number) {
            None => Err(DbErr::RecordNotFound),
            Some(i) => {
                match db.link_index(db.links[i].auth_provider.as_str(), new_auth_key) {
                    Some(j) => {
                        if j != i {
                            return Err(DbErr::DuplicateKey);
                        }
                    },
                    None => {},
                }
                let mut m = db.links[i].clone();
                m.auth_key = new_auth_key.to_owned();
                let out = m.clone();
                db.set_link(i, m);
                Ok(out)
            },
        }
    }
}

} // verus!
