use auteur::counter::{Counter, CounterAction};
use auteur::pages::{hello_response, index_page_data, mario_page_data};
use auteur::refs::Reference;
use auteur::registry::{default_page_schema, get_all_block_schemas, schema_for, BlockKind};
use auteur::seo::RobotsMeta;

fn action(word: &str) -> CounterAction {
    CounterAction { action: word.to_owned() }
}

#[test]
fn counter_starts_at_zero() {
    let c = Counter::new("demo".to_owned());
    assert_eq!(c.id, "demo");
    assert_eq!(c.value, 0);
}

#[test]
fn counter_actions_inc_dec_and_ignore() {
    let mut c = Counter::new("demo".to_owned());
    c.apply_action(&action("inc"));
    assert_eq!(c.value, 1);
    c.apply_action(&action("inc"));
    assert_eq!(c.value, 2);
    c.apply_action(&action("dec"));
    assert_eq!(c.value, 1);
    c.apply_action(&action("reset"));
    assert_eq!(c.value, 1);
    assert_eq!(c.id, "demo");
}

#[test]
fn counter_update_describes_the_state() {
    let mut c = Counter::new("live".to_owned());
    c.apply_action(&action("inc"));
    let u = c.to_update();
    assert_eq!(u.id, "live");
    assert_eq!(u.count, 1);
}

#[test]
fn index_page_context_values() {
    let d = index_page_data();
    assert_eq!(d.title, "Auteur.Engineer (from index_handler)");
    assert_eq!(d.heading, "Welcome to Auteur.Engineer");
    assert_eq!(d.message, "This is a message for Autuer from the index_handler");
    assert!(d.show_extra_info);
}

#[test]
fn mario_page_context_values() {
    let d = mario_page_data();
    assert_eq!(d.title, "Mario Page");
    assert_eq!(d.heading, "Welcome to Auteur.Engineer");
    assert_eq!(d.message, "Click on the Mario Coin Box");
    assert!(d.show_extra_info);
}

#[test]
fn hello_response_values() {
    let r = hello_response();
    assert_eq!(r.message, "hello_JSON from api_handler");
    assert_eq!(r.status_code, 200);
    assert_eq!(r.data.as_deref(), Some("this is some example data"));
}

#[test]
fn registry_lists_both_kinds_in_declaration_order() {
    let all = get_all_block_schemas();
    assert_eq!(all.len(), 2);
    assert_eq!(all[0].block_type, "Header");
    assert_eq!(all[0].fields.len(), 1);
    assert_eq!(all[0].fields[0].name, "content");
    assert_eq!(all[0].fields[0].label, "Content");
    assert_eq!(all[0].fields[0].form_type, "InputArea");
    assert_eq!(all[1].block_type, "Footer");
    assert_eq!(all[1].fields.len(), 1);
    assert_eq!(all[1].fields[0].name, "copyright");
    assert_eq!(all[1].fields[0].label, "Copyright");
    assert_eq!(all[1].fields[0].form_type, "InputText");
}

#[test]
fn schema_for_matches_the_listing() {
    let h = schema_for(BlockKind::Header);
    assert_eq!(h.block_type, "Header");
    assert_eq!(h.fields[0].name, "content");
    let f = schema_for(BlockKind::Footer);
    assert_eq!(f.block_type, "Footer");
    assert_eq!(f.fields[0].name, "copyright");
}

#[test]
fn default_page_schema_is_header_then_footer() {
    let blocks = default_page_schema();
    assert_eq!(blocks.len(), 2);
    assert_eq!(blocks[0].tag(), "Header");
    assert_eq!(blocks[0].payload().label, "Header");
    assert_eq!(blocks[0].payload().hint, "");
    assert_eq!(
        blocks[0].payload().form_type,
        auteur::fields::FormType::InputArea
    );
    assert_eq!(blocks[1].tag(), "Footer");
    assert_eq!(blocks[1].payload().label, "Copyright");
    assert_eq!(blocks[1].payload().hint, "");
    assert_eq!(
        blocks[1].payload().form_type,
        auteur::fields::FormType::InputText
    );
}

#[test]
fn robots_default_is_permissive() {
    let r = RobotsMeta::default();
    assert_eq!(r.index, Some(true));
    assert_eq!(r.follow, Some(true));
    assert_eq!(r.archive, Some(true));
    assert!(r.max_snippet.is_none());
    assert!(r.max_image_preview.is_none());
    assert!(r.max_video_preview.is_none());
}

#[test]
fn reference_carries_the_constant_marker() {
    let r: Reference<u32> = Reference::new("posts:abc");
    assert_eq!(r.ref_type, "reference");
    assert_eq!(r.id, "posts:abc");
}
