use prostor::identity::IdentityStore;
use prostor::identity::InsertOutcome;
use prostor::identity::ProvisionStep;
use prostor::identity::provision_after_find;
use prostor::identity::provision_after_insert;
use prostor::token::AuthError;

#[test]
fn first_sight_creates_one_row() {
    let mut store = IdentityStore::new();
    let sub = "subject-1".to_string();
    let user = store.provision(&sub);
    assert_eq!(user.id.0, "subject-1");
    assert_eq!(store.subjects.len(), 1);
    assert_eq!(store.subjects[0], "subject-1");
}

#[test]
fn reauthentication_writes_nothing() {
    let mut store = IdentityStore::new();
    let sub = "subject-1".to_string();
    store.provision(&sub);
    assert_eq!(store.subjects.len(), 1);

    // A second request from the same subject reads the existing row and
    // performs zero writes.
    let again = store.provision(&sub);
    assert_eq!(again.id.0, "subject-1");
    assert_eq!(store.subjects.len(), 1);
    assert_eq!(store.subjects[0], "subject-1");
}

#[test]
fn concurrent_first_sight_is_idempotent() {
    // Two requests race to provision the same new subject: both look the
    // subject up before either insert lands.
    let mut store = IdentityStore::new();
    let sub = "subject-9".to_string();
    let found_a = store.find_user(&sub);
    let found_b = store.find_user(&sub);
    assert!(found_a.is_none() && found_b.is_none());
    assert!(matches!(provision_after_find(found_a), ProvisionStep::Insert));
    assert!(matches!(provision_after_find(found_b), ProvisionStep::Insert));

    // One insert wins; the other observes the uniqueness conflict.
    let first = store.insert_user(&sub);
    let second = store.insert_user(&sub);
    assert!(matches!(first, InsertOutcome::Inserted));
    assert!(matches!(second, InsertOutcome::Conflict));

    // The conflict is success: both requests end with the same identity,
    // and exactly one row exists.
    let u1 = provision_after_insert(&sub, first).unwrap();
    let u2 = provision_after_insert(&sub, second).unwrap();
    assert_eq!(u1.id.0, u2.id.0);
    assert_eq!(store.subjects.len(), 1);
}

#[test]
fn found_identity_is_returned_unchanged() {
    let mut store = IdentityStore::new();
    let sub = "subject-2".to_string();
    store.provision(&sub);

    let found = store.find_user(&sub).unwrap();
    match provision_after_find(Some(found)) {
        ProvisionStep::Done(u) => assert_eq!(u.id.0, "subject-2"),
        ProvisionStep::Insert => panic!("an existing identity must not be re-inserted"),
    }
}

#[test]
fn unreachable_store_fails_the_request() {
    let sub = "subject-3".to_string();
    let r = provision_after_insert(&sub, InsertOutcome::Unavailable);
    assert!(matches!(r, Err(AuthError::StoreUnavailable)));
}

#[test]
fn distinct_subjects_get_distinct_rows() {
    let mut store = IdentityStore::new();
    let a = store.provision(&"alpha".to_string());
    let b = store.provision(&"beta".to_string());
    assert_eq!(a.id.0, "alpha");
    assert_eq!(b.id.0, "beta");
    assert_eq!(store.subjects.len(), 2);
}
