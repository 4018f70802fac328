use auteur::blocks::Block;
use auteur::errors::StoreError;
use auteur::fields::{Field, FormType, RawField};
use auteur::post::{CreatePost, Post};
use auteur::store::Store;

fn field(label: &str, hint: &str, form_type: FormType) -> Field {
    Field { label: label.to_owned(), hint: hint.to_owned(), form_type }
}

fn raw_field(label: &str, hint: &str, form_type: &str) -> RawField {
    RawField {
        label: label.to_owned(),
        hint: hint.to_owned(),
        form_type: form_type.to_owned(),
    }
}

fn header(label: &str, hint: &str, kind: &str) -> Block {
    Block::from_tagged_payload("Header", &raw_field(label, hint, kind)).unwrap()
}

fn footer(label: &str, hint: &str, kind: &str) -> Block {
    Block::from_tagged_payload("Footer", &raw_field(label, hint, kind)).unwrap()
}

#[test]
fn create_assigns_an_id_and_keeps_content() {
    let mut store = Store::new();
    let created = store.create(Post::from_create(&CreatePost { title: "T".to_owned() })).unwrap();
    assert_eq!(created.id, Some(0));
    assert_eq!(created.title.label, "T");
    assert!(created.blocks.is_empty());
    let second = store.create(Post::from_create(&CreatePost { title: "U".to_owned() })).unwrap();
    assert_eq!(second.id, Some(1));
}

#[test]
fn get_by_id_returns_the_stored_state() {
    let mut store = Store::new();
    let created = store.create(Post::from_create(&CreatePost { title: "T".to_owned() })).unwrap();
    let got = store.get_by_id(created.id.unwrap()).unwrap();
    assert_eq!(got.id, created.id);
    assert_eq!(got.title.label, "T");
    assert!(got.blocks.is_empty());
}

#[test]
fn get_by_id_missing_fails_not_found() {
    let store = Store::new();
    let err = store.get_by_id(12).unwrap_err();
    assert!(matches!(err, StoreError::NotFound));
}

#[test]
fn append_block_adds_at_the_end_and_keeps_the_title() {
    let mut store = Store::new();
    let created = store.create(Post {
        id: None,
        title: field("T", "", FormType::InputText),
        blocks: vec![header("H1", "", "InputArea")],
    }).unwrap();
    let id = created.id.unwrap();
    let updated = store.append_block(id, footer("C", "", "InputText")).unwrap();
    assert_eq!(updated.id, Some(id));
    assert_eq!(updated.title.label, "T");
    assert_eq!(updated.blocks.len(), 2);
    assert_eq!(updated.blocks[0].tag(), "Header");
    assert_eq!(updated.blocks[0].payload().label, "H1");
    assert_eq!(updated.blocks[1].tag(), "Footer");
    assert_eq!(updated.blocks[1].payload().label, "C");
}

#[test]
fn append_block_missing_fails_not_found_and_creates_nothing() {
    let mut store = Store::new();
    let err = store.append_block(4, header("H", "", "InputArea")).unwrap_err();
    assert!(matches!(err, StoreError::NotFound));
    assert!(store.list_all().is_empty());
}

#[test]
fn replace_stores_exactly_the_new_state_except_the_id() {
    let mut store = Store::new();
    let created = store.create(Post {
        id: None,
        title: field("Old", "old hint", FormType::InputText),
        blocks: vec![header("H", "", "InputArea")],
    }).unwrap();
    let id = created.id.unwrap();
    // The replacement body claims a different id; addressing ignores it.
    let replacement = Post {
        id: Some(99),
        title: field("New", "", FormType::InputArea),
        blocks: vec![footer("C", "", "InputText")],
    };
    let stored = store.replace(id, &replacement).unwrap();
    assert_eq!(stored.id, Some(id));
    assert_eq!(stored.title.label, "New");
    assert_eq!(stored.title.form_type, FormType::InputArea);
    assert_eq!(stored.blocks.len(), 1);
    assert_eq!(stored.blocks[0].tag(), "Footer");
    let got = store.get_by_id(id).unwrap();
    assert_eq!(got.id, Some(id));
    assert_eq!(got.title.label, "New");
    assert_eq!(got.blocks.len(), 1);
}

#[test]
fn replace_missing_fails_not_found_and_creates_nothing() {
    let mut store = Store::new();
    let body = Post {
        id: None,
        title: field("T", "", FormType::InputText),
        blocks: vec![],
    };
    let err = store.replace(8, &body).unwrap_err();
    assert!(matches!(err, StoreError::NotFound));
    assert!(store.list_all().is_empty());
}

#[test]
fn list_all_returns_every_post_in_store_order() {
    let mut store = Store::new();
    store.create(Post::from_create(&CreatePost { title: "A".to_owned() })).unwrap();
    store.create(Post::from_create(&CreatePost { title: "B".to_owned() })).unwrap();
    let all = store.list_all();
    assert_eq!(all.len(), 2);
    assert_eq!(all[0].title.label, "A");
    assert_eq!(all[1].title.label, "B");
}

#[test]
fn create_append_append_scenario() {
    // Create with a plain title, then append a header and a footer: the
    // id stays, the title stays, and block order is preserved.
    let mut store = Store::new();
    let created = store.create(Post::from_create(&CreatePost { title: "T".to_owned() })).unwrap();
    let id = created.id.expect("create assigns an id");
    assert!(created.blocks.is_empty());

    let after_header = store.append_block(id, header("H", "", "InputArea")).unwrap();
    assert_eq!(after_header.title.label, "T");
    assert_eq!(after_header.blocks.len(), 1);
    assert_eq!(after_header.blocks[0].tag(), "Header");
    assert_eq!(after_header.blocks[0].payload().label, "H");
    assert_eq!(after_header.blocks[0].payload().form_type, FormType::InputArea);

    let after_footer = store.append_block(id, footer("C", "", "InputText")).unwrap();
    assert_eq!(after_footer.title.label, "T");
    assert_eq!(after_footer.blocks.len(), 2);
    assert_eq!(after_footer.blocks[0].tag(), "Header");
    assert_eq!(after_footer.blocks[1].tag(), "Footer");
    assert_eq!(after_footer.blocks[1].payload().label, "C");
}
