use crate::repository::inner_email_provider::{CredentialView, InnerEmailProviderData};
use crate::repository::user_auth_pair::{fresh_link, LinkView, UserAuthPairData};
use crate::error::{AuthError, DbErr};
use crate::repository::inner_email_provider::{fresh_credential, InnerEmailProviderBeforeInsert};
use crate::repository::user_auth_pair::UserAuthPairBeforeInsert;
use vstd::prelude::*;

verus! {

/// The mathematical content of the store: its two tables, in insertion order,
/// and the identifier that the next identity link receives.
pub struct AuthDatabaseView {
    pub credentials: Seq<CredentialView>,
    pub links: Seq<LinkView>,
    pub next_link_id: i32,
}

/// Whether some credential record has this email.
pub open spec fn has_email(rows: Seq<CredentialView>, email: Seq<char>) -> bool {
    exists|i: int| 0 <= i < rows.len() && rows[i].email == email
}

/// Whether some credential record has this opaque key.
pub open spec fn has_key(rows: Seq<CredentialView>, key: u128) -> bool {
    exists|i: int| 0 <= i < rows.len() && rows[i].auth_key == key
}

/// Whether some identity link has this provider name and provider key.
pub open spec fn has_link(rows: Seq<LinkView>, provider: Seq<char>, key: Seq<char>) -> bool {
    exists|i: int| 0 <= i < rows.len() && rows[i].auth_provider == provider && rows[i].auth_key == key
}

/// Whether some identity link has this identifier.
pub open spec fn has_id(rows: Seq<LinkView>, id: i32) -> bool {
    exists|i: int| 0 <= i < rows.len() && rows[i].id_number == id
}

/// The position of the identity link with this identifier, if there is one.
pub open spec fn id_pos(rows: Seq<LinkView>, id: i32) -> int {
    choose|i: int| 0 <= i < rows.len() && rows[i].id_number == id
}

/// The position of the identity link with this provider name and key, if there is one.
pub open spec fn link_pos(rows: Seq<LinkView>, provider: Seq<char>, key: Seq<char>) -> int {
    choose|i: int| 0 <= i < rows.len() && rows[i].auth_provider == provider && rows[i].auth_key == key
}

/// The credential record with this opaque key, if there is one.
pub open spec fn key_record(rows: Seq<CredentialView>, key: u128) -> Option<CredentialView> {
    if has_key(rows, key) {
        Some(rows[choose|i: int| 0 <= i < rows.len() && rows[i].auth_key == key])
    } else {
        None
    }
}

/// The position of the credential record with this email, if there is one.
pub open spec fn email_pos(rows: Seq<CredentialView>, email: Seq<char>) -> int {
    choose|i: int| 0 <= i < rows.len() && rows[i].email == email
}

/// The credential record with this email, if there is one.
pub open spec fn email_record(rows: Seq<CredentialView>, email: Seq<char>) -> Option<CredentialView> {
    if has_email(rows, email) {
        Some(rows[email_pos(rows, email)])
    } else {
        None
    }
}

/// The identity link with this provider name and key, if there is one.
pub open spec fn link_record(rows: Seq<LinkView>, provider: Seq<char>, key: Seq<char>) -> Option<
    LinkView,
> {
    if has_link(rows, provider, key) {
        Some(rows[link_pos(rows, provider, key)])
    } else {
        None
    }
}

/// The store's invariant: email addresses and opaque keys are unique among
/// credential records; link identifiers and (provider name, provider key)
/// pairs are unique among identity links, and every link identifier lies
/// below the next one to be handed out.
pub open spec fn wf_view(v: AuthDatabaseView) -> bool {
    &&& forall|i: int, j: int|
        0 <= i < v.credentials.len() && 0 <= j < v.credentials.len() && i != j ==> {
            &&& v.credentials[i].email != v.credentials[j].email
            &&& v.credentials[i].auth_key != v.credentials[j].auth_key
        }
    &&& forall|i: int, j: int|
        0 <= i < v.links.len() && 0 <= j < v.links.len() && i != j ==> {
            &&& v.links[i].id_number != v.links[j].id_number
            &&& !(v.links[i].auth_provider == v.links[j].auth_provider && v.links[i].auth_key
                == v.links[j].auth_key)
        }
    &&& forall|i: int| 0 <= i < v.links.len() ==> v.links[i].id_number < v.next_link_id
}

/// Relies on `chrono::Utc::now`: the current time in microseconds since the
/// Unix epoch. Nothing is known of the value.
#[verifier::external_body]
pub(crate) fn now_micros() -> (r: i64) {
    chrono::Utc::now().timestamp_micros()
}

/// Text equality between a stored string and a query.
pub fn text_eq(a: &String, b: &str) -> (r: bool)
    ensures
        r == (a@ == b@),
{
    let t = b.to_owned();
    a.eq(&t)
}

/// The persistence backend of the authentication core: the credential table
/// and the identity-link table, with their uniqueness constraints.
pub struct AuthDatabase {
    pub credentials: Vec<InnerEmailProviderData>,
    pub links: Vec<UserAuthPairData>,
    pub next_link_id: i32,
}

impl View for AuthDatabase {
    type V = AuthDatabaseView;

    open spec fn view(&self) -> AuthDatabaseView {
        AuthDatabaseView {
            credentials: self.credentials@.map_values(|m: InnerEmailProviderData| m@),
            links: self.links@.map_values(|m: UserAuthPairData| m@),
            next_link_id: self.next_link_id,
        }
    }
}

impl AuthDatabase {
    /// The store's invariant, on its view.
    pub open spec fn wf(&self) -> bool {
        wf_view(self@)
    }

    /// An empty store.
    pub fn new() -> (r: AuthDatabase)
        ensures
            r.wf(),
            r@.credentials.len() == 0,
            r@.links.len() == 0,
            r@.next_link_id == 1,
    {
        AuthDatabase { credentials: Vec::new(), links: Vec::new(), next_link_id: 1 }
    }

    /// The position of the credential record with this email.
    pub fn credential_index(&self, email: &str) -> (r: Option<usize>)
        requires
            self.wf(),
        ensures
            match r {
                Some(i) => i < self@.credentials.len() && self@.credentials[i as int].email
                    == email@ && email_pos(self@.credentials, email@) == i,
                None => !has_email(self@.credentials, email@),
            },
    {
        let mut i: usize = 0;
        while i < self.credentials.len()
            invariant
                i <= self.credentials.len(),
                self.wf(),
                forall|k: int| 0 <= k < i ==> self@.credentials[k].email != email@,
            decreases self.credentials.len() - i,
        {
            if text_eq(&self.credentials[i].email, email) {
                assert(self@.credentials[i as int].email == email@);
                assert(has_email(self@.credentials, email@));
                let ghost p = email_pos(self@.credentials, email@);
                assert(self@.credentials[p].email == email@);
                return Some(i);
            }
            i = i + 1;
        }
        None
    }

    /// The position of the credential record with this opaque key.
    pub fn key_index(&self, key: u128) -> (r: Option<usize>)
        requires
            self.wf(),
        ensures
            match r {
                Some(i) => i < self@.credentials.len() && self@.credentials[i as int].auth_key
                    == key,
                None => !has_key(self@.credentials, key),
            },
    {
        let mut i: usize = 0;
        while i < self.credentials.len()
            invariant
                i <= self.credentials.len(),
                self.wf(),
                forall|k: int| 0 <= k < i ==> self@.credentials[k].auth_key != key,
            decreases self.credentials.len() - i,
        {
            if self.credentials[i].auth_key == key {
                return Some(i);
            }
            i = i + 1;
        }
        None
    }

    /// The position of the identity link with this provider name and key.
    pub fn link_index(&self, provider: &str, key: &str) -> (r: Option<usize>)
        requires
            self.wf(),
        ensures
            match r {
                Some(i) => i < self@.links.len() && self@.links[i as int].auth_provider
                    == provider@ && self@.links[i as int].auth_key == key@ && link_pos(
                    self@.links,
                    provider@,
                    key@,
                ) == i,
                None => !has_link(self@.links, provider@, key@),
            },
    {
        let mut i: usize = 0;
        while i < self.links.len()
            invariant
                i <= self.links.len(),
                self.wf(),
                forall|k: int|
                    0 <= k < i ==> !(self@.links[k].auth_provider == provider@
                        && self@.links[k].auth_key == key@),
            decreases self.links.len() - i,
        {
            if text_eq(&self.links[i].auth_provider, provider) && text_eq(
                &self.links[i].auth_key,
                key,
            ) {
                assert(self@.links[i as int] == self.links@[i as int]@);
                assert(self@.links[i as int].auth_provider == provider@);
                assert(self@.links[i as int].auth_key == key@);
                assert(has_link(self@.links, provider@, key@));
                return Some(i);
            }
            i = i + 1;
        }
        None
    }

    /// The position of the identity link with this identifier.
    pub fn id_index(&self, id: i32) -> (r: Option<usize>)
        requires
            self.wf(),
        ensures
            match r {
                Some(i) => i < self@.links.len() && self@.links[i as int].id_number == id
                    && id_pos(self@.links, id) == i,
                None => !has_id(self@.links, id),
            },
    {
        let mut i: usize = 0;
        while i < self.links.len()
            invariant
                i <= self.links.len(),
                self.wf(),
                forall|k: int| 0 <= k < i ==> self@.links[k].id_number != id,
            decreases self.links.len() - i,
        {
            if self.links[i].id_number == id {
                assert(self@.links[i as int].id_number == id);
                assert(has_id(self@.links, id));
                return Some(i);
            }
            i = i + 1;
        }
        None
    }

    /// Replaces the credential record at `i` by one whose email and key no
    /// other record holds.
    pub(crate) fn set_credential(&mut self, i: usize, m: InnerEmailProviderData)
        requires
            old(self).wf(),
            i < old(self)@.credentials.len(),
            forall|j: int|
                0 <= j < old(self)@.credentials.len() && j != i ==> {
                    &&& old(self)@.credentials[j].email != m@.email
                    &&& old(self)@.credentials[j].auth_key != m@.auth_key
                },
        ensures
            final(self).wf(),
            final(self)@.credentials == old(self)@.credentials.update(i as int, m@),
            final(self)@.links == old(self)@.links,
            final(self)@.next_link_id == old(self)@.next_link_id,
    {
        self.credentials.set(i, m);
        proof {
            assert(self@.credentials =~= old(self)@.credentials.update(i as int, m@));
            assert(self@.links =~= old(self)@.links);
        }
    }

    /// Replaces the identity link at `i` by one whose identifier and
    /// (provider name, key) pair no other link holds.
    pub(crate) fn set_link(&mut self, i: usize, m: UserAuthPairData)
        requires
            old(self).wf(),
            i < old(self)@.links.len(),
            m@.id_number < old(self)@.next_link_id,
            forall|j: int|
                0 <= j < old(self)@.links.len() && j != i ==> {
                    &&& old(self)@.links[j].id_number != m@.id_number
                    &&& !(old(self)@.links[j].auth_provider == m@.auth_provider
                        && old(self)@.links[j].auth_key == m@.auth_key)
                },
        ensures
            final(self).wf(),
            final(self)@.links == old(self)@.links.update(i as int, m@),
            final(self)@.credentials == old(self)@.credentials,
            final(self)@.next_link_id == old(self)@.next_link_id,
    {
        self.links.set(i, m);
        proof {
            assert(self@.links =~= old(self)@.links.update(i as int, m@));
            assert(self@.credentials =~= old(self)@.credentials);
        }
    }

    /// Persists a new credential record and the identity link that names it as
    /// one unit: both are stored, or, on any failure, neither. A clash on the
    /// email address is reported as a conflicting account; the other clashes
    /// are database errors.
    pub fn register_pair(
        &mut self,
        record: InnerEmailProviderBeforeInsert,
        pair: UserAuthPairBeforeInsert,
    ) -> (r: Result<UserAuthPairData, AuthError>)
        requires
            old(self).wf(),
        ensures
            final(self).wf(),
            has_email(old(self)@.credentials, record.email@) ==> r == Err::<
                UserAuthPairData,
                AuthError,
            >(AuthError::ConflictingAccount),
            !has_email(old(self)@.credentials, record.email@) && has_link(
                old(self)@.links,
                pair.auth_provider@,
                pair.auth_key@,
            ) ==> r == Err::<UserAuthPairData, AuthError>(
                AuthError::DatabaseError(DbErr::DuplicateKey),
            ),
            !has_email(old(self)@.credentials, record.email@) && !has_link(
                old(self)@.links,
                pair.auth_provider@,
                pair.auth_key@,
            ) && old(self)@.next_link_id == i32::MAX ==> r == Err::<UserAuthPairData, AuthError>(
                AuthError::DatabaseError(DbErr::IdExhausted),
            ),
            !has_email(old(self)@.credentials, record.email@) && !has_link(
                old(self)@.links,
                pair.auth_provider@,
                pair.auth_key@,
            ) && old(self)@.next_link_id < i32::MAX && has_key(
                old(self)@.credentials,
                record.auth_key,
            ) ==> r == Err::<UserAuthPairData, AuthError>(
                AuthError::DatabaseError(DbErr::DuplicateKey),
            ),
            r is Err ==> final(self)@ == old(self)@,
            !has_email(old(self)@.credentials, record.email@) && !has_link(
                old(self)@.links,
                pair.auth_provider@,
                pair.auth_key@,
            ) && old(self)@.next_link_id < i32::MAX && !has_key(
                old(self)@.credentials,
                record.auth_key,
            ) ==> r is Ok,
            r is Ok ==> {
                &&& final(self)@.credentials == old(self)@.credentials.push(
                    fresh_credential(record.email@, record.password_hash@, record.auth_key),
                )
                &&& r->Ok_0@ == fresh_link(
                    old(self)@.next_link_id,
                    pair.auth_provider@,
                    pair.auth_key@,
                    pair.user_id,
                )
                &&& final(self)@.links == old(self)@.links.push(r->Ok_0@)
                &&& final(self)@.next_link_id == old(self)@.next_link_id + 1
            },
    {
        if self.credential_index(record.email.as_str()).is_some() {
            return Err(AuthError::ConflictingAccount);
        }
        if self.link_index(pair.auth_provider.as_str(), pair.auth_key.as_str()).is_some() {
            return Err(AuthError::DatabaseError(DbErr::DuplicateKey));
        }
        if self.next_link_id == i32::MAX {
            return Err(AuthError::DatabaseError(DbErr::IdExhausted));
        }
        match InnerEmailProviderData::create(self, record) {
            Ok(_) => {},
            Err(DbErr::DuplicateEmail) => {
                return Err(AuthError::ConflictingAccount);
            },
            Err(e) => {
                return Err(AuthError::DatabaseError(e));
            },
        }
        match UserAuthPairData::create(self, pair) {
            Ok(link) => Ok(link),
            Err(e) => Err(AuthError::DatabaseError(e)),
        }
    }
}

} // verus!
