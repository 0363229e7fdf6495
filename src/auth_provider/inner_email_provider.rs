use super::{AuthProvider, VerifyInfo};
use crate::database::{
    email_pos, email_record, has_email, link_record, now_micros, wf_view, AuthDatabase,
    AuthDatabaseView,
};
use crate::error::{is_algorithm_error_of, AuthError, DbErr, HashError};
use crate::password_hash::HashFunction;
use crate::repository::inner_email_provider::{
    fresh_credential, with_code, with_password_hash, InnerEmailProviderBeforeInsert,
    InnerEmailProviderData,
};
use crate::repository::user_auth_pair::{
    fresh_link, link_opt, UserAuthPairBeforeInsert, UserAuthPairData,
};
use lettre::message::header::ContentType;
use lettre::message::Mailbox;
use vstd::prelude::*;

verus! {

#[verifier::external_type_specification]
#[verifier::external_body]
pub struct ExContentType(ContentType);

/// Whether lettre reads the text as a mailbox (an address, optionally with a name).
pub uninterp spec fn is_mailbox(s: Seq<char>) -> bool;

/// The hyphenated lower-case text form of the UUID with this value.
pub uninterp spec fn uuid_text(value: u128) -> Seq<char>;

/// Relies on lettre's `FromStr` for `Mailbox`: whether the text parses.
#[verifier::external_body]
fn parses_as_mailbox(s: &str) -> (r: bool)
    ensures
        r == is_mailbox(s@),
{
    s.parse::<Mailbox>().is_ok()
}

/// Relies on `Uuid::from_u128` and the `Display` of `Uuid`: the text form of a UUID.
#[verifier::external_body]
fn uuid_string(value: u128) -> (r: String)
    ensures
        r@ == uuid_text(value),
{
    uuid::Uuid::from_u128(value).to_string()
}

/// Relies on `Uuid::new_v4`: a random version-4 UUID. Nothing is known of the value.
#[verifier::external_body]
fn random_auth_key() -> (r: u128) {
    uuid::Uuid::new_v4().as_u128()
}

/// The provider name under which email credentials are linked.
pub open spec fn provider_name() -> Seq<char> {
    "inner_email_provider"@
}

/// A message to deliver.
#[derive(Debug)]
pub struct EmailContent {
    pub subject: String,
    pub from: String,
    pub to: String,
    pub content: String,
    pub content_type: ContentType,
}

/// Composes the verification message for an account.
pub trait EmailTemplate {
    fn render(&self, verify_info: &VerifyInfo, account: &EmailAccount) -> EmailContent;
}

/// An email/password account as a client presents it.
#[derive(Debug, Clone, PartialEq, Eq)]
pub struct EmailAccount {
    pub email: String,
    pub password: String,
}

/// The email/password credential scheme: its hash strategy, its store, the
/// template of its verification messages, and the messages waiting for delivery.
pub struct InnerEmailProvider<T: EmailTemplate> {
    pub hash_function: HashFunction,
    pub database: AuthDatabase,
    pub template: T,
    pub outbox: Vec<EmailContent>,
}

/// What logging in with this email and password yields: `None` where the
/// stored hash cannot be read, `Some(None)` where the account does not exist
/// or the password does not match, and otherwise the account's link.
pub open spec fn login_view(
    hf: HashFunction,
    db: AuthDatabaseView,
    email: Seq<char>,
    password: Seq<char>,
) -> Option<Option<crate::repository::user_auth_pair::LinkView>> {
    match email_record(db.credentials, email) {
        None => Some(None),
        Some(rec) => match hf.outcome(password, rec.password_hash) {
            None => None,
            Some(false) => Some(None),
            Some(true) => Some(link_record(db.links, provider_name(), uuid_text(rec.auth_key))),
        },
    }
}

/// How a registration of `email` with `password` for `user_id` relates the
/// store before, the result and the store after: a taken email is a conflict;
/// a failure changes nothing; a success adds exactly one fresh credential
/// record, whose hash verifies the password, and exactly one unverified link
/// that names it by the text of its opaque key.
pub open spec fn register_post(
    hf: HashFunction,
    old_db: AuthDatabaseView,
    email: Seq<char>,
    password: Seq<char>,
    user_id: u128,
    r: Result<UserAuthPairData, AuthError>,
    new_db: AuthDatabaseView,
) -> bool {
    &&& wf_view(new_db)
    &&& (r == Err::<UserAuthPairData, AuthError>(AuthError::ConflictingAccount) <==> has_email(
        old_db.credentials,
        email,
    ))
    &&& r is Err ==> new_db == old_db
    &&& r is Err ==> (r->Err_0 is ConflictingAccount || r->Err_0 is DatabaseError || is_algorithm_error_of(r->Err_0, HashError::IntoHashError))
    &&& r is Ok ==> {
        let c = new_db.credentials.last();
        &&& new_db.credentials.len() == old_db.credentials.len() + 1
        &&& new_db.credentials == old_db.credentials.push(c)
        &&& c == fresh_credential(email, c.password_hash, c.auth_key)
        &&& hf.verifies(password, c.password_hash)
        &&& r->Ok_0@ == fresh_link(old_db.next_link_id, provider_name(), uuid_text(c.auth_key), user_id)
        &&& new_db.links == old_db.links.push(r->Ok_0@)
        &&& new_db.next_link_id == old_db.next_link_id + 1
    }
}

/// The store after a verification code was issued for `email` at time `at`:
/// the code replaces any earlier one; an unknown email changes nothing.
pub open spec fn verify_sent(db: AuthDatabaseView, email: Seq<char>, code: Seq<char>, at: i64) -> AuthDatabaseView {
    if has_email(db.credentials, email) {
        let p = email_pos(db.credentials, email);
        AuthDatabaseView {
            credentials: db.credentials.update(p, with_code(db.credentials[p], code, at)),
            links: db.links,
            next_link_id: db.next_link_id,
        }
    } else {
        db
    }
}

/// Whether `code` is the active verification code of the account with this email.
pub open spec fn code_matches(db: AuthDatabaseView, email: Seq<char>, code: Seq<char>) -> bool {
    match email_record(db.credentials, email) {
        None => false,
        Some(rec) => rec.verify_code == Some(code),
    }
}

impl<T: EmailTemplate> InnerEmailProvider<T> {
    /// The provider is well formed when its store is.
    pub open spec fn wf(&self) -> bool {
        self.database.wf()
    }

    /// A provider over a store, with its hash strategy and message template.
    pub fn new(hash_function: HashFunction, database: AuthDatabase, template: T) -> (r: Self)
        ensures
            r.hash_function == hash_function,
            r.database == database,
            r.template == template,
            r.outbox@.len() == 0,
    {
        InnerEmailProvider { hash_function, database, template, outbox: Vec::new() }
    }

    /// Logs in: looks the account up by email, checks the password with the
    /// hash strategy, and resolves the link by the record's opaque key. An
    /// unknown email and a wrong password both give `Ok(None)`.
    pub fn try_login(&self, account: &EmailAccount) -> (r: Result<
        Option<UserAuthPairData>,
        AuthError,
    >)
        requires
            self.wf(),
        ensures
            match login_view(self.hash_function, self.database@, account.email@, account.password@) {
                None => r is Err && is_algorithm_error_of(r->Err_0, HashError::FromHashError),
                Some(v) => r is Ok && link_opt(r->Ok_0) == v,
            },
    {
        let maybe_record = InnerEmailProviderData::find_by_email(&self.database, account.email.as_str());
        let record = match maybe_record {
            None => {
                return Ok(None);
            },
            Some(rec) => rec,
        };
        let is_password_correct = match self.hash_function.verify(
            account.password.as_str(),
            record.password_hash.as_str(),
        ) {
            Ok(b) => b,
            Err(e) => {
                return Err(e.to_auth_error());
            },
        };
        if !is_password_correct {
            return Ok(None);
        }
        let key = uuid_string(record.auth_key);
        let name = "inner_email_provider".to_owned();
        Ok(UserAuthPairData::find_by_key(&self.database, name.as_str(), key.as_str()))
    }

    /// Registers an account for `user_id`: a taken email is a conflicting
    /// account; otherwise a random opaque key is drawn, the password hashed,
    /// and the credential record and its link are stored as one unit.
    pub fn try_register(&mut self, account: &EmailAccount, user_id: u128) -> (r: Result<
        UserAuthPairData,
        AuthError,
    >)
        requires
            old(self).wf(),
        ensures
            final(self).wf(),
            final(self).hash_function == old(self).hash_function,
            final(self).template == old(self).template,
            final(self).outbox == old(self).outbox,
            register_post(
                old(self).hash_function,
                old(self).database@,
                account.email@,
                account.password@,
                user_id,
                r,
                final(self).database@,
            ),
    {
        if InnerEmailProviderData::find_by_email(&self.database, account.email.as_str()).is_some() {
            return Err(AuthError::ConflictingAccount);
        }
        let auth_key = random_auth_key();
        let hashed = match self.hash_function.into_hashed(account.password.as_str()) {
            Ok(h) => h,
            Err(e) => {
                return Err(e.to_auth_error());
            },
        };
        let record = InnerEmailProviderBeforeInsert {
            email: account.email.clone(),
            password_hash: hashed,
            auth_key,
        };
        let pair = UserAuthPairBeforeInsert {
            auth_provider: "inner_email_provider".to_owned(),
            auth_key: uuid_string(auth_key),
            user_id,
        };
        let r = self.database.register_pair(record, pair);
        proof {
            if r is Ok {
                assert(self.database@.credentials.last() == fresh_credential(
                    account.email@,
                    hashed@,
                    auth_key,
                ));
            }
        }
        r
    }

    /// Checks the rendered message's addresses, records `verify_code` as the
    /// account's active code at time `now`, and queues the message. An
    /// unreadable sender or recipient fails with a send error and changes nothing.
    pub fn send_verify_at(
        &mut self,
        email: &str,
        verify_code: String,
        message: EmailContent,
        now: i64,
    ) -> (r: Result<(), AuthError>)
        requires
            old(self).wf(),
        ensures
            final(self).wf(),
            final(self).hash_function == old(self).hash_function,
            final(self).template == old(self).template,
            !is_mailbox(message.from@) ==> r is Err && r->Err_0 is VerifySendError
                && r->Err_0->VerifySendError_0@ == "Invalid from email"@,
            is_mailbox(message.from@) && !is_mailbox(message.to@) ==> r is Err && r->Err_0 is VerifySendError
                && r->Err_0->VerifySendError_0@ == "Invalid to email"@,
            r is Err ==> final(self).database@ == old(self).database@ && final(self).outbox == old(self).outbox,
            is_mailbox(message.from@) && is_mailbox(message.to@) ==> {
                &&& r is Ok
                &&& final(self).database@ == verify_sent(old(self).database@, email@, verify_code@, now)
                &&& final(self).outbox@ == old(self).outbox@.push(message)
            },
    {
        if !parses_as_mailbox(message.from.as_str()) {
            return Err(AuthError::VerifySendError("Invalid from email".to_owned()));
        }
        if !parses_as_mailbox(message.to.as_str()) {
            return Err(AuthError::VerifySendError("Invalid to email".to_owned()));
        }
        match InnerEmailProviderData::find_by_email(&self.database, email) {
            None => {},
            Some(record) => {
                let _ = InnerEmailProviderData::set_verify_code_at(
                    &mut self.database,
                    &record,
                    verify_code,
                    now,
                );
                proof {
                    assert(self.database@ =~= verify_sent(old(self).database@, email@, verify_code@, now));
                }
            },
        }
        self.outbox.push(message);
        Ok(())
    }

    /// Renders the verification message for the account, records its code as
    /// the account's active one, and queues the message for delivery.
    pub fn send_verify(&mut self, account: &EmailAccount, verify_info: &VerifyInfo) -> (r: Result<
        (),
        AuthError,
    >)
        requires
            old(self).wf(),
        ensures
            final(self).wf(),
            final(self).hash_function == old(self).hash_function,
            final(self).template == old(self).template,
            r is Err ==> r->Err_0 is VerifySendError && final(self).database@ == old(self).database@
                && final(self).outbox == old(self).outbox,
            r is Ok ==> {
                &&& final(self).outbox@.len() == old(self).outbox@.len() + 1
                &&& is_mailbox(final(self).outbox@.last().from@)
                &&& is_mailbox(final(self).outbox@.last().to@)
                &&& exists|t: i64|
                    final(self).database@ == verify_sent(
                        old(self).database@,
                        account.email@,
                        verify_info.verify_code@,
                        t,
                    )
            },
    {
        let message = self.template.render(verify_info, account);
        let now = now_micros();
        self.send_verify_at(account.email.as_str(), verify_info.verify_code.clone(), message, now)
    }

    /// Whether `verify_code` equals the account's active code exactly; `false`
    /// where no code is outstanding or the account does not exist. The code
    /// stays active.
    pub fn check_verify_response(&self, account: &EmailAccount, verify_code: &str) -> (r: Result<
        bool,
        AuthError,
    >)
        requires
            self.wf(),
        ensures
            r == Ok::<bool, AuthError>(code_matches(self.database@, account.email@, verify_code@)),
    {
        match InnerEmailProviderData::find_by_email(&self.database, account.email.as_str()) {
            None => Ok(false),
            Some(record) => match &record.verify_code {
                None => Ok(false),
                Some(code) => Ok(crate::database::text_eq(code, verify_code)),
            },
        }
    }

    /// Hands over the queued messages, leaving the queue empty.
    pub fn take_outbox(&mut self) -> (r: Vec<EmailContent>)
        ensures
            r@ == old(self).outbox@,
            final(self).outbox@.len() == 0,
            final(self).database == old(self).database,
            final(self).hash_function == old(self).hash_function,
            final(self).template == old(self).template,
    {
        let mut out: Vec<EmailContent> = Vec::new();
        std::mem::swap(&mut out, &mut self.outbox);
        out
    }

    /// Replaces the account's password: hashes the new password and stores the
    /// hash on the record with the account's email.
    pub fn change_password(&mut self, account: &EmailAccount) -> (r: Result<
        InnerEmailProviderData,
        AuthError,
    >)
        requires
            old(self).wf(),
        ensures
            final(self).wf(),
            final(self).hash_function == old(self).hash_function,
            final(self).template == old(self).template,
            final(self).outbox == old(self).outbox,
            !has_email(old(self).database@.credentials, account.email@) ==> r == Err::<
                InnerEmailProviderData,
                AuthError,
            >(AuthError::DatabaseError(DbErr::RecordNotFound)),
            r is Err ==> final(self).database@ == old(self).database@,
            r is Ok ==> {
                let p = email_pos(old(self).database@.credentials, account.email@);
                &&& has_email(old(self).database@.credentials, account.email@)
                &&& r->Ok_0@ == with_password_hash(
                    old(self).database@.credentials[p],
                    r->Ok_0@.password_hash,
                )
                &&& old(self).hash_function.verifies(account.password@, r->Ok_0@.password_hash)
                &&& final(self).database@.credentials == old(
                    self,
                ).database@.credentials.update(p, r->Ok_0@)
                &&& final(self).database@.links == old(self).database@.links
                &&& final(self).database@.next_link_id == old(self).database@.next_link_id
            },
    {
        let record = match InnerEmailProviderData::find_by_email(
            &self.database,
            account.email.as_str(),
        ) {
            None => {
                return Err(AuthError::DatabaseError(DbErr::RecordNotFound));
            },
            Some(rec) => rec,
        };
        let hashed = match self.hash_function.into_hashed(account.password.as_str()) {
            Ok(h) => h,
            Err(e) => {
                return Err(e.to_auth_error());
            },
        };
        match InnerEmailProviderData::update_password_hash(
            &mut self.database,
            &record,
            hashed.as_str(),
        ) {
            Ok(m) => Ok(m),
            Err(e) => Err(AuthError::DatabaseError(e)),
        }
    }
}

impl<T: EmailTemplate> AuthProvider<EmailAccount> for InnerEmailProvider<T> {
    open spec fn inv(&self) -> bool {
        self.wf()
    }

    fn try_login(&self, account: &EmailAccount) -> (r: Result<
        Option<UserAuthPairData>,
        AuthError,
    >) {
        InnerEmailProvider::try_login(self, account)
    }

    fn try_register(&mut self, account: &EmailAccount, user_id: u128) -> (r: Result<
        UserAuthPairData,
        AuthError,
    >) {
        InnerEmailProvider::try_register(self, account, user_id)
    }

    fn send_verify(&mut self, account: &EmailAccount, verify_info: &VerifyInfo) -> (r: Result<
        (),
        AuthError,
    >) {
        InnerEmailProvider::send_verify(self, account, verify_info)
    }

    fn check_verify_response(&self, account: &EmailAccount, verify_code: &str) -> (r: Result<
        bool,
        AuthError,
    >) {
        InnerEmailProvider::check_verify_response(self, account, verify_code)
    }
}

/// A successful registration leaves exactly one credential record with the
/// email, and exactly one link under the provider name and the record's key:
/// the link returned, owned by `user_id` and unverified.
pub proof fn lemma_registration_creates_one_pair(
    hf: HashFunction,
    old_db: AuthDatabaseView,
    email: Seq<char>,
    password: Seq<char>,
    user_id: u128,
    r: Result<UserAuthPairData, AuthError>,
    new_db: AuthDatabaseView,
)
    requires
        register_post(hf, old_db, email, password, user_id, r, new_db),
        r is Ok,
    ensures
        ({
            let c = new_db.credentials.last();
            let l = r->Ok_0@;
            &&& email_record(new_db.credentials, email) == Some(c)
            &&& forall|i: int|
                0 <= i < new_db.credentials.len() && new_db.credentials[i].email == email ==> i
                    == new_db.credentials.len() - 1
            &&& link_record(new_db.links, provider_name(), uuid_text(c.auth_key)) == Some(l)
            &&& forall|i: int|
                0 <= i < new_db.links.len() && new_db.links[i].auth_provider == provider_name()
                    && new_db.links[i].auth_key == uuid_text(c.auth_key) ==> i == new_db.links.len()
                    - 1
            &&& l.auth_provider == provider_name()
            &&& l.auth_key == uuid_text(c.auth_key)
            &&& l.user_id == user_id
            &&& !l.is_verified
            &&& c.verify_code is None
        }),
{
    let c = new_db.credentials.last();
    let n = new_db.credentials.len() - 1;
    let m = new_db.links.len() - 1;
    assert(new_db.credentials[n] == c);
    assert(new_db.links[m] == r->Ok_0@);
    assert(has_email(new_db.credentials, email));
    assert(crate::database::has_link(new_db.links, provider_name(), uuid_text(c.auth_key)));
}

/// Logging in with the email and password of a successful registration
/// yields the link that the registration returned.
pub proof fn lemma_login_after_registration(
    hf: HashFunction,
    old_db: AuthDatabaseView,
    email: Seq<char>,
    password: Seq<char>,
    user_id: u128,
    r: Result<UserAuthPairData, AuthError>,
    new_db: AuthDatabaseView,
)
    requires
        register_post(hf, old_db, email, password, user_id, r, new_db),
        r is Ok,
    ensures
        login_view(hf, new_db, email, password) == Some(Some(r->Ok_0@)),
{
    lemma_registration_creates_one_pair(hf, old_db, email, password, user_id, r, new_db);
}

/// Logging in with an unknown email, or with a password that the strategy
/// rejects, yields no link and no error.
pub proof fn lemma_login_without_match(
    hf: HashFunction,
    db: AuthDatabaseView,
    email: Seq<char>,
    password: Seq<char>,
)
    requires
        !has_email(db.credentials, email) || hf.outcome(
            password,
            email_record(db.credentials, email).unwrap().password_hash,
        ) == Some(false),
    ensures
        login_view(hf, db, email, password) == Some(None::<crate::repository::user_auth_pair::LinkView>),
{
}

/// The verification workflow: with no code outstanding every check fails;
/// after a code is issued it, and only it, is accepted, repeatedly; issuing a
/// second code invalidates the first.
pub proof fn lemma_verification_workflow(
    db: AuthDatabaseView,
    email: Seq<char>,
    first: Seq<char>,
    second: Seq<char>,
    probe: Seq<char>,
    t1: i64,
    t2: i64,
)
    requires
        wf_view(db),
        has_email(db.credentials, email),
        email_record(db.credentials, email).unwrap().verify_code is None,
    ensures
        !code_matches(db, email, probe),
        code_matches(verify_sent(db, email, first, t1), email, first),
        probe != first ==> !code_matches(verify_sent(db, email, first, t1), email, probe),
        code_matches(verify_sent(verify_sent(db, email, first, t1), email, second, t2), email, second),
        first != second ==> !code_matches(
            verify_sent(verify_sent(db, email, first, t1), email, second, t2),
            email,
            first,
        ),
{
    let db1 = verify_sent(db, email, first, t1);
    lemma_code_issued(db, email, first, t1);
    lemma_code_issued(db1, email, second, t2);
}

/// Issuing a code for a stored email keeps the store well formed and makes
/// that code the record's active one.
pub proof fn lemma_code_issued(db: AuthDatabaseView, email: Seq<char>, code: Seq<char>, at: i64)
    requires
        wf_view(db),
        has_email(db.credentials, email),
    ensures
        wf_view(verify_sent(db, email, code, at)),
        has_email(verify_sent(db, email, code, at).credentials, email),
        email_record(verify_sent(db, email, code, at).credentials, email).unwrap().verify_code
            == Some(code),
{
    let p = email_pos(db.credentials, email);
    let db1 = verify_sent(db, email, code, at);
    assert(db1.credentials[p].email == email);
    assert(has_email(db1.credentials, email));
    let q = email_pos(db1.credentials, email);
    assert(db1.credentials[q].email == email);
    if q != p {
        assert(db.credentials[q].email == email);
    }
}

/// After the stored hash of an account is replaced by one that verifies a
/// new password, logging in with the new password yields the account's link.
pub proof fn lemma_new_password_verifies(
    hf: HashFunction,
    db: AuthDatabaseView,
    email: Seq<char>,
    password: Seq<char>,
    hash: Seq<char>,
)
    requires
        wf_view(db),
        has_email(db.credentials, email),
        hf.verifies(password, hash),
    ensures
        ({
            let p = email_pos(db.credentials, email);
            let db2 = AuthDatabaseView {
                credentials: db.credentials.update(p, with_password_hash(db.credentials[p], hash)),
                links: db.links,
                next_link_id: db.next_link_id,
            };
            login_view(hf, db2, email, password) == Some(
                link_record(db.links, provider_name(), uuid_text(db.credentials[p].auth_key)),
            )
        }),
{
    let p = email_pos(db.credentials, email);
    let creds2 = db.credentials.update(p, with_password_hash(db.credentials[p], hash));
    assert(creds2[p].email == email);
    assert(has_email(creds2, email));
    let q = email_pos(creds2, email);
    assert(creds2[q].email == email);
    if q != p {
        assert(db.credentials[q].email == email);
    }
}

/// Two registrations of one email, one after the other: at most one
/// succeeds, a success makes the other a conflicting account, and the store
/// never holds two records with the same email.
pub proof fn lemma_one_registration_per_email(
    hf: HashFunction,
    db0: AuthDatabaseView,
    email: Seq<char>,
    password1: Seq<char>,
    user1: u128,
    r1: Result<UserAuthPairData, AuthError>,
    db1: AuthDatabaseView,
    password2: Seq<char>,
    user2: u128,
    r2: Result<UserAuthPairData, AuthError>,
    db2: AuthDatabaseView,
)
    requires
        register_post(hf, db0, email, password1, user1, r1, db1),
        register_post(hf, db1, email, password2, user2, r2, db2),
    ensures
        !(r1 is Ok && r2 is Ok),
        r1 is Ok ==> r2 == Err::<UserAuthPairData, AuthError>(AuthError::ConflictingAccount),
        forall|i: int, j: int|
            0 <= i < db2.credentials.len() && 0 <= j < db2.credentials.len() && i != j
                ==> db2.credentials[i].email != db2.credentials[j].email,
{
    if r1 is Ok {
        lemma_registration_creates_one_pair(hf, db0, email, password1, user1, r1, db1);
    }
}

} // verus!
