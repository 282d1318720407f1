use unsplash_api::endpoint::photos::random::RandomParams;
use unsplash_api::endpoint::photos::Orientation;
use unsplash_api::endpoint::{Method, ToQuery};
use unsplash_api::Photos;

const RANDOM: &str = "https://api.unsplash.com/photos/random";

#[test]
fn base_stage_with_flag_and_orientation() {
    let r = Photos::random()
        .featured(true)
        .orientation(Orientation::Landscape)
        .get("Client-ID: key");
    assert!(r.method == Method::Get);
    assert_eq!(r.uri, format!("{}?featured=true&orientation=Landscape", RANDOM));
    assert_eq!(
        r.headers,
        vec![
            ("Accept".to_string(), "application/json".to_string()),
            ("Accept-Version".to_string(), "v1".to_string()),
            ("Authorization".to_string(), "Client-ID: key".to_string()),
        ]
    );
}

#[test]
fn query_then_count() {
    let r = Photos::random().query("cats".to_string()).count(3).get("a");
    assert!(r.method == Method::Get);
    assert_eq!(r.uri, format!("{}?query=cats&count=3", RANDOM));
}

#[test]
fn query_then_count_keeps_base_fields() {
    let base = Photos::random().username("jo".to_string()).w(40).h(30);
    let base_query = base.params().to_query();
    let p = Photos::random()
        .username("jo".to_string())
        .w(40)
        .h(30)
        .query("cats".to_string())
        .count(3)
        .params();
    assert!(p.collection.is_none());
    assert_eq!(base_query, "?username=jo&w=40&h=30");
    assert_eq!(p.to_query(), format!("{}&query=cats&count=3", base_query));
}

#[test]
fn unset_builder_sends_no_query() {
    let r = Photos::random().get("a");
    assert_eq!(r.uri, RANDOM);
}

#[test]
fn setting_a_field_twice_keeps_the_last() {
    let p = Photos::random().w(10).w(20).featured(true).featured(false).params();
    assert_eq!(p.to_query(), "?featured=false&w=20");
}

#[test]
fn collection_ids_are_joined_by_commas() {
    let ids = vec!["12".to_string(), "34".to_string()];
    let p = Photos::random().collection(ids.clone()).params();
    assert_eq!(p.collection.as_deref(), Some("12,34"));
    assert!(p.query.is_none());
    let r = Photos::random().collection(ids).count(2).get("a");
    assert_eq!(r.uri, format!("{}?collection=12%2C34&count=2", RANDOM));
}

#[test]
fn counted_stage_sends_count() {
    let r = Photos::random().orientation(Orientation::Squarish).count(5).get("a");
    assert_eq!(r.uri, format!("{}?orientation=Squarish&count=5", RANDOM));
}

#[test]
fn query_stage_without_count() {
    let r = Photos::random().h(9).query("red car".to_string()).get("a");
    assert_eq!(r.uri, format!("{}?h=9&query=red+car", RANDOM));
}

#[test]
fn collection_stage_without_count() {
    let r = Photos::random().collection(vec!["7".to_string()]).get("a");
    assert_eq!(r.uri, format!("{}?collection=7", RANDOM));
}

#[test]
fn all_fields_in_declared_order() {
    let p = RandomParams {
        featured: Some(true),
        username: Some("u".to_string()),
        w: Some(1),
        h: Some(2),
        orientation: Some(Orientation::Portrait),
        collection: Some("c".to_string()),
        query: Some("q".to_string()),
        count: Some(3),
    };
    assert_eq!(
        p.to_query(),
        "?featured=true&username=u&w=1&h=2&orientation=Portrait&collection=c&query=q&count=3"
    );
}
