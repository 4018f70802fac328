use auteur::errors::{StoreError, UpdateError, ValidationError};
use auteur::fields::RawField;
use auteur::post::{CreatePost, Post, RawBlock, RawPost};
use auteur::protocol::{apply_edit, should_retry, EditRequest, RetryPolicy};
use auteur::store::Store;

fn raw_field(label: &str, hint: &str, form_type: &str) -> RawField {
    RawField {
        label: label.to_owned(),
        hint: hint.to_owned(),
        form_type: form_type.to_owned(),
    }
}

fn raw_block(block_type: &str, data: RawField) -> RawBlock {
    RawBlock { block_type: block_type.to_owned(), block_data: data }
}

fn store_with_one_post() -> (Store, u64) {
    let mut store = Store::new();
    let created = store.create(Post::from_create(&CreatePost { title: "T".to_owned() })).unwrap();
    let id = created.id.unwrap();
    (store, id)
}

#[test]
fn replace_edit_applies_the_parsed_body() {
    let (mut store, id) = store_with_one_post();
    let body = RawPost {
        id: Some(42),
        title: raw_field("New", "", "InputArea"),
        blocks: vec![raw_block("Footer", raw_field("C", "", "InputText"))],
    };
    let updated = apply_edit(&mut store, id, &EditRequest::Replace(body)).unwrap();
    assert_eq!(updated.id, Some(id));
    assert_eq!(updated.title.label, "New");
    assert_eq!(updated.blocks.len(), 1);
    assert_eq!(updated.blocks[0].tag(), "Footer");
}

#[test]
fn append_edit_appends_the_resolved_block() {
    let (mut store, id) = store_with_one_post();
    let body = raw_block("Header", raw_field("H", "", "InputArea"));
    let updated = apply_edit(&mut store, id, &EditRequest::Append(body)).unwrap();
    assert_eq!(updated.title.label, "T");
    assert_eq!(updated.blocks.len(), 1);
    assert_eq!(updated.blocks[0].tag(), "Header");
}

#[test]
fn malformed_replace_is_rejected_before_any_write() {
    let (mut store, id) = store_with_one_post();
    let body = RawPost {
        id: None,
        title: raw_field("New", "", "InputArea"),
        blocks: vec![raw_block("Bogus", raw_field("", "", ""))],
    };
    let err = apply_edit(&mut store, id, &EditRequest::Replace(body)).unwrap_err();
    assert!(matches!(
        err,
        UpdateError::Validation(ValidationError::UnknownBlockKind(ref s)) if s == "Bogus"
    ));
    // Nothing was written: the stored post still has its old title and no blocks.
    let got = store.get_by_id(id).unwrap();
    assert_eq!(got.title.label, "T");
    assert!(got.blocks.is_empty());
}

#[test]
fn malformed_append_is_rejected_before_any_write() {
    let (mut store, id) = store_with_one_post();
    let body = raw_block("Header", raw_field("H", "", "Bogus"));
    let err = apply_edit(&mut store, id, &EditRequest::Append(body)).unwrap_err();
    assert!(matches!(
        err,
        UpdateError::Validation(ValidationError::InvalidFormKind(ref s)) if s == "Bogus"
    ));
    let got = store.get_by_id(id).unwrap();
    assert!(got.blocks.is_empty());
}

#[test]
fn valid_edit_on_missing_id_fails_not_found_without_creating() {
    let mut store = Store::new();
    let body = raw_block("Header", raw_field("H", "", "InputArea"));
    let err = apply_edit(&mut store, 5, &EditRequest::Append(body)).unwrap_err();
    assert!(matches!(err, UpdateError::Store(StoreError::NotFound)));
    assert!(store.list_all().is_empty());

    let replace_body = RawPost {
        id: Some(5),
        title: raw_field("T", "", "InputText"),
        blocks: vec![],
    };
    let err = apply_edit(&mut store, 5, &EditRequest::Replace(replace_body)).unwrap_err();
    assert!(matches!(err, UpdateError::Store(StoreError::NotFound)));
    assert!(store.list_all().is_empty());
}

#[test]
fn retry_only_on_transient_store_faults_within_the_bound() {
    let policy = RetryPolicy { max_attempts: 3 };
    let transient = UpdateError::Store(StoreError::Unavailable("connection reset".to_owned()));
    assert!(should_retry(policy, 0, &transient));
    assert!(should_retry(policy, 2, &transient));
    assert!(!should_retry(policy, 3, &transient));
    let validation =
        UpdateError::Validation(ValidationError::UnknownBlockKind("Bogus".to_owned()));
    assert!(!should_retry(policy, 0, &validation));
    let missing = UpdateError::Store(StoreError::NotFound);
    assert!(!should_retry(policy, 0, &missing));
    let rejected = UpdateError::Store(StoreError::WriteRejected("full".to_owned()));
    assert!(!should_retry(policy, 0, &rejected));
}
