use yggdrasil_auth::database::AuthDatabase;
use yggdrasil_auth::error::{AuthError, DbErr};
use yggdrasil_auth::repository::inner_email_provider::{
    InnerEmailProviderBeforeInsert, InnerEmailProviderData,
};
use yggdrasil_auth::repository::user_auth_pair::{UserAuthPairBeforeInsert, UserAuthPairData};

fn credential(email: &str, key: u128) -> InnerEmailProviderBeforeInsert {
    InnerEmailProviderBeforeInsert {
        email: email.to_owned(),
        password_hash: "hash".to_owned(),
        auth_key: key,
    }
}

fn pair(key: &str, user: u128) -> UserAuthPairBeforeInsert {
    UserAuthPairBeforeInsert {
        auth_provider: "inner_email_provider".to_owned(),
        auth_key: key.to_owned(),
        user_id: user,
    }
}

#[test]
fn credential_uniqueness() {
    let mut db = AuthDatabase::new();
    InnerEmailProviderData::create(&mut db, credential("a@x.com", 1)).unwrap();
    assert_eq!(
        InnerEmailProviderData::create(&mut db, credential("a@x.com", 2)).unwrap_err(),
        DbErr::DuplicateEmail
    );
    assert_eq!(
        InnerEmailProviderData::create(&mut db, credential("b@x.com", 1)).unwrap_err(),
        DbErr::DuplicateKey
    );
    assert_eq!(db.credentials.len(), 1);
    let found = InnerEmailProviderData::find_by_auth_key(&db, 1).unwrap();
    assert_eq!(found.email, "a@x.com");
    assert!(InnerEmailProviderData::find_by_auth_key(&db, 2).is_none());
    assert_eq!(InnerEmailProviderData::find_by_email(&db, "a@x.com"), Some(found));
}

#[test]
fn update_email_moves_record() {
    let mut db = AuthDatabase::new();
    let a = InnerEmailProviderData::create(&mut db, credential("a@x.com", 1)).unwrap();
    let b = InnerEmailProviderData::create(&mut db, credential("b@x.com", 2)).unwrap();
    assert_eq!(
        InnerEmailProviderData::update_email(&mut db, &a, "b@x.com").unwrap_err(),
        DbErr::DuplicateEmail
    );
    let moved = InnerEmailProviderData::update_email(&mut db, &a, "c@x.com").unwrap();
    assert_eq!(moved.email, "c@x.com");
    assert_eq!(moved.auth_key, 1);
    assert!(InnerEmailProviderData::find_by_email(&db, "a@x.com").is_none());
    assert_eq!(InnerEmailProviderData::delete(&mut db, b), 1);
    assert_eq!(db.credentials.len(), 1);
}

#[test]
fn set_verify_code_overwrites() {
    let mut db = AuthDatabase::new();
    let a = InnerEmailProviderData::create(&mut db, credential("a@x.com", 1)).unwrap();
    let first = InnerEmailProviderData::set_verify_code_at(&mut db, &a, "111".to_owned(), 10).unwrap();
    assert_eq!(first.verify_code.as_deref(), Some("111"));
    assert_eq!(first.code_sent_at, Some(10));
    let second = InnerEmailProviderData::set_verify_code(&mut db, &a, "222".to_owned()).unwrap();
    assert_eq!(second.verify_code.as_deref(), Some("222"));
    assert!(second.code_sent_at.is_some());
    assert_eq!(db.credentials[0], second);
}

#[test]
fn link_key_uniqueness_and_lookup() {
    let mut db = AuthDatabase::new();
    let l1 = UserAuthPairData::create(&mut db, pair("k1", 7)).unwrap();
    let l2 = UserAuthPairData::create(&mut db, pair("k2", 7)).unwrap();
    UserAuthPairData::create(&mut db, pair("k3", 8)).unwrap();
    assert_eq!(UserAuthPairData::create(&mut db, pair("k1", 9)).unwrap_err(), DbErr::DuplicateKey);
    assert_eq!((l1.id_number, l2.id_number), (1, 2));
    assert_eq!(UserAuthPairData::find_by_user_id(&db, 7), vec![l1.clone(), l2.clone()]);
    assert!(UserAuthPairData::find_by_user_id(&db, 99).is_empty());
    assert_eq!(UserAuthPairData::find_by_key(&db, "inner_email_provider", "k2"), Some(l2.clone()));
    assert_eq!(UserAuthPairData::find_by_key(&db, "other_provider", "k2"), None);
    assert_eq!(
        UserAuthPairData::update_auth_key(&mut db, &l1, "k2").unwrap_err(),
        DbErr::DuplicateKey
    );
    let rotated = UserAuthPairData::update_auth_key(&mut db, &l1, "k9").unwrap();
    assert_eq!(rotated.auth_key, "k9");
    assert_eq!(UserAuthPairData::delete(&mut db, l2.clone()), 1);
    assert_eq!(UserAuthPairData::delete(&mut db, l2), 0);
    assert_eq!(db.links.len(), 2);
}

#[test]
fn register_pair_is_atomic() {
    let mut db = AuthDatabase::new();
    UserAuthPairData::create(&mut db, pair("taken", 1)).unwrap();
    let r = db.register_pair(credential("a@x.com", 5), pair("taken", 2));
    assert_eq!(r, Err(AuthError::DatabaseError(DbErr::DuplicateKey)));
    assert!(db.credentials.is_empty());
    assert_eq!(db.links.len(), 1);

    InnerEmailProviderData::create(&mut db, credential("b@x.com", 6)).unwrap();
    let r = db.register_pair(credential("c@x.com", 6), pair("fresh", 3));
    assert_eq!(r, Err(AuthError::DatabaseError(DbErr::DuplicateKey)));
    assert_eq!(db.credentials.len(), 1);
    assert_eq!(db.links.len(), 1);

    let r = db.register_pair(credential("b@x.com", 7), pair("fresh", 3));
    assert_eq!(r, Err(AuthError::ConflictingAccount));

    let link = db.register_pair(credential("c@x.com", 7), pair("fresh", 3)).unwrap();
    assert_eq!(link.id_number, 2);
    assert_eq!(db.credentials.len(), 2);
    assert_eq!(db.links.len(), 2);
}

#[test]
fn update_missing_link_is_not_found() {
    let mut db = AuthDatabase::new();
    let l = UserAuthPairData::create(&mut db, pair("k", 1)).unwrap();
    UserAuthPairData::delete(&mut db, l.clone());
    assert_eq!(
        UserAuthPairData::update_is_verified(&mut db, &l, true).unwrap_err(),
        DbErr::RecordNotFound
    );
}
