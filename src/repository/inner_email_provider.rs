use crate::database::{email_pos, email_record, has_email, has_key, key_record, now_micros, AuthDatabase};
use crate::error::DbErr;
use vstd::prelude::*;

verus! {

/// The mathematical content of an email credential record.
pub struct CredentialView {
    pub email: Seq<char>,
    pub password_hash: Seq<char>,
    pub auth_key: u128,
    pub verify_code: Option<Seq<char>>,
    pub code_sent_at: Option<i64>,
}

/// The text held by an optional string.
pub open spec fn text_opt(o: Option<String>) -> Option<Seq<char>> {
    match o {
        Some(s) => Some(s@),
        None => None,
    }
}

/// One registered email address: its password hash, the random opaque key that
/// links it to an identity link, and its verification-code state.
#[derive(Debug, PartialEq, Eq)]
pub struct Model {
    pub email: String,
    pub password_hash: String,
    pub auth_key: u128,
    pub verify_code: Option<String>,
    /// Microseconds since the Unix epoch.
    pub code_sent_at: Option<i64>,
}

pub type InnerEmailProviderData = Model;

impl View for Model {
    type V = CredentialView;

    open spec fn view(&self) -> CredentialView {
        CredentialView {
            email: self.email@,
            password_hash: self.password_hash@,
            auth_key: self.auth_key,
            verify_code: text_opt(self.verify_code),
            code_sent_at: self.code_sent_at,
        }
    }
}

impl Clone for Model {
    fn clone(&self) -> (r: Self)
        ensures
            r == *self,
    {
        let verify_code = match &self.verify_code {
            Some(c) => Some(c.clone()),
            None => None,
        };
        Model {
            email: self.email.clone(),
            password_hash: self.password_hash.clone(),
            auth_key: self.auth_key,
            verify_code,
            code_sent_at: self.code_sent_at,
        }
    }
}

/// What a new credential record is made from.
#[derive(Debug)]
pub struct InnerEmailProviderBeforeInsert {
    pub email: String,
    pub password_hash: String,
    pub auth_key: u128,
}

/// The record stored for `data`: no verification code outstanding.
pub open spec fn fresh_credential(
    email: Seq<char>,
    password_hash: Seq<char>,
    auth_key: u128,
) -> CredentialView {
    CredentialView { email, password_hash, auth_key, verify_code: None, code_sent_at: None }
}

/// The view of an optional record.
pub open spec fn credential_opt(o: Option<Model>) -> Option<CredentialView> {
    match o {
        Some(m) => Some(m@),
        None => None,
    }
}

/// The record after a verification code was issued at time `at`.
pub open spec fn with_code(r: CredentialView, code: Seq<char>, at: i64) -> CredentialView {
    CredentialView {
        email: r.email,
        password_hash: r.password_hash,
        auth_key: r.auth_key,
        verify_code: Some(code),
        code_sent_at: Some(at),
    }
}

/// The record with a new password hash.
pub open spec fn with_password_hash(r: CredentialView, hash: Seq<char>) -> CredentialView {
    CredentialView {
        email: r.email,
        password_hash: hash,
        auth_key: r.auth_key,
        verify_code: r.verify_code,
        code_sent_at: r.code_sent_at,
    }
}

/// The record under a new email address.
pub open spec fn with_email(r: CredentialView, email: Seq<char>) -> CredentialView {
    CredentialView {
        email,
        password_hash: r.password_hash,
        auth_key: r.auth_key,
        verify_code: r.verify_code,
        code_sent_at: r.code_sent_at,
    }
}

impl Model {
    /// Stores a new record. Fails where the email or the opaque key is taken.
    pub fn create(db: &mut AuthDatabase, data: InnerEmailProviderBeforeInsert) -> (r: Result<
        Model,
        DbErr,
    >)
        requires
            old(db).wf(),
        ensures
            final(db).wf(),
            has_email(old(db)@.credentials, data.email@) ==> r == Err::<Model, DbErr>(
                DbErr::DuplicateEmail,
            ),
            !has_email(old(db)@.credentials, data.email@) && has_key(
                old(db)@.credentials,
                data.auth_key,
            ) ==> r == Err::<Model, DbErr>(DbErr::DuplicateKey),
            r is Err ==> final(db)@ == old(db)@,
            !has_email(old(db)@.credentials, data.email@) && !has_key(
                old(db)@.credentials,
                data.auth_key,
            ) ==> r is Ok,
            r is Ok ==> {
                &&& r->Ok_0@ == fresh_credential(data.email@, data.password_hash@, data.auth_key)
                &&& final(db)@.credentials == old(db)@.credentials.push(r->Ok_0@)
                &&& final(db)@.links == old(db)@.links
                &&& final(db)@.next_link_id == old(db)@.next_link_id
            },
    {
        if db.credential_index(data.email.as_str()).is_some() {
            return Err(DbErr::DuplicateEmail);
        }
        if db.key_index(data.auth_key).is_some() {
            return Err(DbErr::DuplicateKey);
        }
        let record = Model {
            email: data.email,
            password_hash: data.password_hash,
            auth_key: data.auth_key,
            verify_code: None,
            code_sent_at: None,
        };
        let stored = record.clone();
        db.credentials.push(record);
        proof {
            assert(db@.credentials =~= old(db)@.credentials.push(stored@));
        }
        Ok(stored)
    }

    /// Issues a verification code at time `now`, replacing any earlier code.
    /// The record is found by `before`'s email.
    pub fn set_verify_code_at(
        db: &mut AuthDatabase,
        before: &Model,
        verify_code: String,
        now: i64,
    ) -> (r: Result<Model, DbErr>)
        requires
            old(db).wf(),
        ensures
            final(db).wf(),
            final(db)@.links == old(db)@.links,
            final(db)@.next_link_id == old(db)@.next_link_id,
            !has_email(old(db)@.credentials, before.email@) ==> r == Err::<Model, DbErr>(
                DbErr::RecordNotFound,
            ) && final(db)@ == old(db)@,
            has_email(old(db)@.credentials, before.email@) ==> {
                let p = email_pos(old(db)@.credentials, before.email@);
                &&& r is Ok
                &&& r->Ok_0@ == with_code(old(db)@.credentials[p], verify_code@, now)
                &&& final(db)@.credentials == old(db)@.credentials.update(p, r->Ok_0@)
            },
    {
        match db.credential_index(before.email.as_str()) {
            None => Err(DbErr::RecordNotFound),
            Some(i) => {
                let mut m = db.credentials[i].clone();
                m.verify_code = Some(verify_code);
                m.code_sent_at = Some(now);
                let out = m.clone();
                db.set_credential(i, m);
                Ok(out)
            },
        }
    }

    /// Issues a verification code now, replacing any earlier code.
    pub fn set_verify_code(db: &mut AuthDatabase, before: &Model, verify_code: String) -> (r:
        Result<Model, DbErr>)
        requires
            old(db).wf(),
        ensures
            final(db).wf(),
            final(db)@.links == old(db)@.links,
            final(db)@.next_link_id == old(db)@.next_link_id,
            !has_email(old(db)@.credentials, before.email@) ==> r == Err::<Model, DbErr>(
                DbErr::RecordNotFound,
            ) && final(db)@ == old(db)@,
            has_email(old(db)@.credentials, before.email@) ==> {
                let p = email_pos(old(db)@.credentials, before.email@);
                &&& r is Ok
                &&& r->Ok_0@ == with_code(
                    old(db)@.credentials[p],
                    verify_code@,
                    r->Ok_0.code_sent_at.unwrap(),
                )
                &&& final(db)@.credentials == old(db)@.credentials.update(p, r->Ok_0@)
            },
    {
        let now = now_micros();
        Self::set_verify_code_at(db, before, verify_code, now)
    }

    /// The record with this opaque key.
    pub fn find_by_auth_key(db: &AuthDatabase, auth_key: u128) -> (r: Option<Model>)
        requires
            db.wf(),
        ensures
            credential_opt(r) == key_record(db@.credentials, auth_key),
    {
        match db.key_index(auth_key) {
            None => None,
            Some(i) => {
                let ghost c = choose|k: int|
                    0 <= k < db@.credentials.len() && db@.credentials[k].auth_key == auth_key;
                assert(db@.credentials[i as int].auth_key == auth_key);
                assert(c == i);
                Some(db.credentials[i].clone())
            },
        }
    }

    /// The record with this email.
    pub fn find_by_email(db: &AuthDatabase, email: &str) -> (r: Option<Model>)
        requires
            db.wf(),
        ensures
            credential_opt(r) == email_record(db@.credentials, email@),
    {
        match db.credential_index(email) {
            None => None,
            Some(i) => Some(db.credentials[i].clone()),
        }
    }

    /// Replaces the stored password hash of the record with `before`'s email.
    pub fn update_password_hash(db: &mut AuthDatabase, before: &Model, new_password_hash: &str) -> (r:
        Result<Model, DbErr>)
        requires
            old(db).wf(),
        ensures
            final(db).wf(),
            final(db)@.links == old(db)@.links,
            final(db)@.next_link_id == old(db)@.next_link_id,
            !has_email(old(db)@.credentials, before.email@) ==> r == Err::<Model, DbErr>(
                DbErr::RecordNotFound,
            ) && final(db)@ == old(db)@,
            has_email(old(db)@.credentials, before.email@) ==> {
                let p = email_pos(old(db)@.credentials, before.email@);
                &&& r is Ok
                &&& r->Ok_0@ == with_password_hash(old(db)@.credentials[p], new_password_hash@)
                &&& final(db)@.credentials == old(db)@.credentials.update(p, r->Ok_0@)
            },
    {
        match db.credential_index(before.email.as_str()) {
            None => Err(DbErr::RecordNotFound),
            Some(i) => {
                let mut m = db.credentials[i].clone();
                m.password_hash = new_password_hash.to_owned();
                let out = m.clone();
                db.set_credential(i, m);
                Ok(out)
            },
        }
    }

    /// Deletes the record with `before`'s email; returns the number of records removed.
    pub fn delete(db: &mut AuthDatabase, before: Model) -> (r: u64)
        requires
            old(db).wf(),
        ensures
            final(db).wf(),
            final(db)@.links == old(db)@.links,
            final(db)@.next_link_id == old(db)@.next_link_id,
            !has_email(old(db)@.credentials, before.email@) ==> r == 0 && final(db)@ == old(db)@,
            has_email(old(db)@.credentials, before.email@) ==> r == 1
                && final(db)@.credentials == old(db)@.credentials.remove(
                email_pos(old(db)@.credentials, before.email@),
            ),
    {
        match db.credential_index(before.email.as_str()) {
            None => 0,
            Some(i) => {
                db.credentials.remove(i);
                proof {
                    assert(db@.credentials =~= old(db)@.credentials.remove(i as int));
                    assert(db@.links =~= old(db)@.links);
                    assert forall|a: int, b: int|
                        0 <= a < db@.credentials.len() && 0 <= b < db@.credentials.len() && a
                            != b implies db@.credentials[a].email != db@.credentials[b].email
                        && db@.credentials[a].auth_key != db@.credentials[b].auth_key by {
                        let oa = if a < i { a } else { a + 1 };
                        let ob = if b < i { b } else { b + 1 };
                        assert(db@.credentials[a] == old(db)@.credentials[oa]);
                        assert(db@.credentials[b] == old(db)@.credentials[ob]);
                    }
                }
                1
            },
        }
    }

    /// Moves the record with `before`'s email to a new email address.
    pub fn update_email(db: &mut AuthDatabase, before: &Model, new_email: &str) -> (r: Result<
        Model,
        DbErr,
    >)
        requires
            old(db).wf(),
        ensures
            final(db).wf(),
            final(db)@.links == old(db)@.links,
            final(db)@.next_link_id == old(db)@.next_link_id,
            !has_email(old(db)@.credentials, before.email@) ==> r == Err::<Model, DbErr>(
                DbErr::RecordNotFound,
            ),
            has_email(old(db)@.credentials, before.email@) && new_email@ != before.email@
                && has_email(old(db)@.credentials, new_email@) ==> r == Err::<Model, DbErr>(
                DbErr::DuplicateEmail,
            ),
            r is Err ==> final(db)@ == old(db)@,
            has_email(old(db)@.credentials, before.email@) && (new_email@ == before.email@
                || !has_email(old(db)@.credentials, new_email@)) ==> {
                let p = email_pos(old(db)@.credentials, before.email@);
                &&& r is Ok
                &&& r->Ok_0@ == with_email(old(db)@.credentials[p], new_email@)
                &&& final(db)@.credentials == old(db)@.credentials.update(p, r->Ok_0@)
            },
    {
        match db.credential_index(before.email.as_str()) {
            None => Err(DbErr::RecordNotFound),
            Some(i) => {
                match db.credential_index(new_email) {
                    Some(j) => {
                        if j != i {
                            return Err(DbErr::DuplicateEmail);
                        }
                    },
                    None => {},
                }
                let mut m = db.credentials[i].clone();
                m.email = new_email.to_owned();
                let out = m.clone();
                db.set_credential(i, m);
                Ok(out)
            },
        }
    }
}

} // verus!
