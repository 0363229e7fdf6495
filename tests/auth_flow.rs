use lettre::message::header::ContentType;
use yggdrasil_auth::auth_provider::inner_email_provider::{
    EmailAccount, EmailContent, EmailTemplate, InnerEmailProvider,
};
use yggdrasil_auth::auth_provider::{AuthProvider, VerifyInfo};
use yggdrasil_auth::database::AuthDatabase;
use yggdrasil_auth::error::{AuthError, DbErr, HashError};
use yggdrasil_auth::password_hash::HashFunction;
use yggdrasil_auth::repository::inner_email_provider::InnerEmailProviderData;
use yggdrasil_auth::repository::user_auth_pair::UserAuthPairData;

struct PlainTemplate {
    from: String,
}

impl EmailTemplate for PlainTemplate {
    fn render(&self, verify_info: &VerifyInfo, account: &EmailAccount) -> EmailContent {
        EmailContent {
            subject: format!("{} verification", verify_info.service_name),
            from: self.from.clone(),
            to: account.email.clone(),
            content: format!(
                "Code for {}: {}",
                verify_info.user_account_description, verify_info.verify_code
            ),
            content_type: ContentType::TEXT_PLAIN,
        }
    }
}

fn provider(hash_function: HashFunction) -> InnerEmailProvider<PlainTemplate> {
    InnerEmailProvider::new(
        hash_function,
        AuthDatabase::new(),
        PlainTemplate { from: "Service <noreply@example.com>".to_owned() },
    )
}

fn account(email: &str, password: &str) -> EmailAccount {
    EmailAccount { email: email.to_owned(), password: password.to_owned() }
}

fn info(code: &str) -> VerifyInfo {
    VerifyInfo {
        verify_code: code.to_owned(),
        service_name: "Yggdrasil".to_owned(),
        user_account_description: "a@x.com".to_owned(),
    }
}

const USER: u128 = 0x6f1c_2b7e_4d3a_4c11_9e0f_1234_5678_9abc;

#[test]
fn register_creates_record_and_unverified_link() {
    let mut p = provider(HashFunction::argon2());
    let link = p.try_register(&account("a@x.com", "pw123"), USER).unwrap();
    assert_eq!(p.database.credentials.len(), 1);
    assert_eq!(p.database.links.len(), 1);
    let record = &p.database.credentials[0];
    assert_eq!(record.email, "a@x.com");
    assert_ne!(record.password_hash, "pw123");
    assert!(record.verify_code.is_none());
    assert_eq!(link.auth_provider, "inner_email_provider");
    assert_eq!(link.user_id, USER);
    assert!(!link.is_verified);
    assert!(link.verified_at.is_none());
    assert_eq!(link.id_number, 1);
    assert_eq!(link.auth_key, uuid::Uuid::from_u128(record.auth_key).to_string());
    assert_eq!(link.auth_key.len(), 36);
    assert_ne!(link.auth_key, "a@x.com");
    assert_eq!(p.database.links[0], link);
}

#[test]
fn register_twice_is_conflicting_account() {
    let mut p = provider(HashFunction::argon2());
    p.try_register(&account("a@x.com", "pw123"), USER).unwrap();
    let second = p.try_register(&account("a@x.com", "other"), USER + 1);
    assert_eq!(second, Err(AuthError::ConflictingAccount));
    assert_eq!(p.database.credentials.len(), 1);
    assert_eq!(p.database.links.len(), 1);
    assert_eq!(p.database.links[0].user_id, USER);
}

#[test]
fn same_email_registrations_only_one_succeeds() {
    let mut p = provider(HashFunction::argon2());
    let mut successes = 0;
    for i in 0..4u128 {
        match p.try_register(&account("race@x.com", "pw"), USER + i) {
            Ok(_) => successes += 1,
            Err(e) => assert_eq!(e, AuthError::ConflictingAccount),
        }
    }
    assert_eq!(successes, 1);
    let same: Vec<_> =
        p.database.credentials.iter().filter(|c| c.email == "race@x.com").collect();
    assert_eq!(same.len(), 1);
}

#[test]
fn login_outcomes() {
    let mut p = provider(HashFunction::bcrypt());
    let link = p.try_register(&account("a@x.com", "pw123"), USER).unwrap();
    assert_eq!(p.try_login(&account("a@x.com", "pw123")), Ok(Some(link)));
    assert_eq!(p.try_login(&account("a@x.com", "wrong")), Ok(None));
    assert_eq!(p.try_login(&account("nobody@x.com", "pw123")), Ok(None));
}

#[test]
fn login_through_the_provider_trait() {
    let mut p = provider(HashFunction::argon2());
    let link = AuthProvider::try_register(&mut p, &account("t@x.com", "pw"), USER).unwrap();
    assert_eq!(AuthProvider::try_login(&p, &account("t@x.com", "pw")), Ok(Some(link)));
    assert_eq!(AuthProvider::check_verify_response(&p, &account("t@x.com", "pw"), "1"), Ok(false));
}

#[test]
fn login_with_unreadable_hash_is_algorithm_error() {
    let mut p = provider(HashFunction::argon2());
    p.try_register(&account("a@x.com", "pw123"), USER).unwrap();
    let record = p.database.credentials[0].clone();
    InnerEmailProviderData::update_password_hash(&mut p.database, &record, "not a hash").unwrap();
    assert_eq!(
        p.try_login(&account("a@x.com", "pw123")),
        Err(AuthError::VerifyAlgorithmError(
            "Failed to verify password because of hash algorithm error.".to_owned()
        ))
    );
}

#[test]
fn hash_round_trip_bcrypt() {
    let f = HashFunction::bcrypt();
    let h = f.into_hashed("pw123").unwrap();
    assert!(h.starts_with("$2"));
    assert_eq!(f.verify("pw123", &h), Ok(true));
    assert_eq!(f.verify("pw124", &h), Ok(false));
    assert_ne!(f.into_hashed("pw123").unwrap(), h);
}

#[test]
fn hash_round_trip_argon2() {
    let f = HashFunction::argon2();
    let h = f.into_hashed("pw123").unwrap();
    assert!(h.starts_with("$argon2"));
    assert_eq!(f.verify("pw123", &h), Ok(true));
    assert_eq!(f.verify("pw124", &h), Ok(false));
    assert_ne!(f.into_hashed("pw123").unwrap(), h);
}

#[test]
fn verify_unparseable_hash_is_error() {
    assert_eq!(HashFunction::bcrypt().verify("pw", "garbage"), Err(HashError::FromHashError));
    assert_eq!(HashFunction::argon2().verify("pw", "garbage"), Err(HashError::FromHashError));
}

#[test]
fn hash_error_messages() {
    assert_eq!(
        HashError::IntoHashError.to_auth_error(),
        AuthError::VerifyAlgorithmError("Failed to hash password".to_owned())
    );
    assert_eq!(
        HashError::FromHashError.to_auth_error(),
        AuthError::VerifyAlgorithmError(
            "Failed to verify password because of hash algorithm error.".to_owned()
        )
    );
}

#[test]
fn verification_code_workflow() {
    let mut p = provider(HashFunction::argon2());
    let a = account("a@x.com", "pw123");
    p.try_register(&a, USER).unwrap();
    assert_eq!(p.check_verify_response(&a, "123456"), Ok(false));
    p.send_verify(&a, &info("123456")).unwrap();
    assert_eq!(p.check_verify_response(&a, "123456"), Ok(true));
    assert_eq!(p.check_verify_response(&a, "123456"), Ok(true));
    assert_eq!(p.check_verify_response(&a, "000000"), Ok(false));
    assert!(p.database.credentials[0].code_sent_at.is_some());
    p.send_verify(&a, &info("654321")).unwrap();
    assert_eq!(p.check_verify_response(&a, "123456"), Ok(false));
    assert_eq!(p.check_verify_response(&a, "654321"), Ok(true));
    let sent = p.take_outbox();
    assert_eq!(sent.len(), 2);
    assert_eq!(sent[0].to, "a@x.com");
    assert!(sent[0].content.contains("123456"));
    assert!(sent[1].content.contains("654321"));
    assert!(p.outbox.is_empty());
}

#[test]
fn check_verify_for_unknown_account_is_false() {
    let p = provider(HashFunction::argon2());
    assert_eq!(p.check_verify_response(&account("nobody@x.com", "pw"), "123456"), Ok(false));
}

#[test]
fn send_verify_with_invalid_addresses() {
    let mut p = InnerEmailProvider::new(
        HashFunction::argon2(),
        AuthDatabase::new(),
        PlainTemplate { from: "not an address".to_owned() },
    );
    let a = account("a@x.com", "pw123");
    p.try_register(&a, USER).unwrap();
    assert_eq!(
        p.send_verify(&a, &info("123456")),
        Err(AuthError::VerifySendError("Invalid from email".to_owned()))
    );
    assert!(p.outbox.is_empty());
    assert!(p.database.credentials[0].verify_code.is_none());

    let mut q = provider(HashFunction::argon2());
    let bad = account("no-at-sign", "pw123");
    q.try_register(&bad, USER).unwrap();
    assert_eq!(
        q.send_verify(&bad, &info("123456")),
        Err(AuthError::VerifySendError("Invalid to email".to_owned()))
    );
    assert_eq!(q.check_verify_response(&bad, "123456"), Ok(false));
}

#[test]
fn change_password_replaces_credential() {
    let mut p = provider(HashFunction::argon2());
    let link = p.try_register(&account("a@x.com", "old-pw"), USER).unwrap();
    let record = p.change_password(&account("a@x.com", "new-pw")).unwrap();
    assert_eq!(p.database.credentials[0], record);
    assert_eq!(p.try_login(&account("a@x.com", "old-pw")), Ok(None));
    assert_eq!(p.try_login(&account("a@x.com", "new-pw")), Ok(Some(link)));
    assert_eq!(
        p.change_password(&account("b@x.com", "pw")),
        Err(AuthError::DatabaseError(DbErr::RecordNotFound))
    );
}

#[test]
fn update_password_hash_on_missing_record() {
    let mut db = AuthDatabase::new();
    let ghost = InnerEmailProviderData {
        email: "a@x.com".to_owned(),
        password_hash: String::new(),
        auth_key: 1,
        verify_code: None,
        code_sent_at: None,
    };
    assert_eq!(
        InnerEmailProviderData::update_password_hash(&mut db, &ghost, "h"),
        Err(DbErr::RecordNotFound)
    );
    assert_eq!(InnerEmailProviderData::delete(&mut db, ghost), 0);
}

#[test]
fn link_is_verified_transitions() {
    let mut p = provider(HashFunction::argon2());
    let link = p.try_register(&account("a@x.com", "pw"), USER).unwrap();
    let v = UserAuthPairData::update_is_verified(&mut p.database, &link, true).unwrap();
    assert!(v.is_verified);
    assert!(v.verified_at.is_some());
    let u = UserAuthPairData::update_is_verified_at(&mut p.database, &v, false, 5).unwrap();
    assert!(!u.is_verified);
    assert_eq!(u.verified_at, None);
    let w = UserAuthPairData::update_is_verified_at(&mut p.database, &u, true, 1_700_000_000).unwrap();
    assert_eq!(w.verified_at, Some(1_700_000_000));
    assert_eq!(p.database.links[0], w);
}

#[test]
fn registration_after_ids_run_out_changes_nothing() {
    let mut p = provider(HashFunction::argon2());
    p.database.next_link_id = i32::MAX;
    assert_eq!(
        p.try_register(&account("a@x.com", "pw"), USER),
        Err(AuthError::DatabaseError(DbErr::IdExhausted))
    );
    assert!(p.database.credentials.is_empty());
    assert!(p.database.links.is_empty());
}
