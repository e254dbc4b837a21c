use streak::query::encode_query;
use streak::search::{self, SearchParamsBuilder};

#[test]
fn unset_params_are_omitted() {
    // {query: "AWS", page: unset} encodes to a string containing
    // `query=AWS` and no `page` key at all.
    let b = search::query("AWS");
    let pairs = b.to_pairs();
    let encoded = encode_query(&pairs);
    assert_eq!(encoded, "query=AWS");
    assert!(pairs.iter().all(|p| p.0 != "page"));
}

#[test]
fn set_page_appears_after_query() {
    let b = search::query("AWS").page(2);
    let encoded = encode_query(&b.to_pairs());
    assert_eq!(encoded, "query=AWS&page=2");
}

#[test]
fn negative_page_renders_with_sign() {
    let b = search::query("x").page(-17);
    let encoded = encode_query(&b.to_pairs());
    assert_eq!(encoded, "query=x&page=-17");
}

#[test]
fn name_search_sets_only_name() {
    let b = search::name("Big Deal");
    let encoded = encode_query(&b.to_pairs());
    assert_eq!(encoded, "name=Big%20Deal");
}

#[test]
fn key_lists_repeat_their_key() {
    let b = search::query("q").pipeline_key(vec!["p1".to_owned(), "p2".to_owned()]).stage_key(
        vec!["s1".to_owned()],
    );
    let encoded = encode_query(&b.to_pairs());
    assert_eq!(encoded, "query=q&pipelineKey=p1&pipelineKey=p2&stageKey=s1");
}

#[test]
fn values_are_percent_escaped() {
    let b = search::query("a&b=c d/é");
    let encoded = encode_query(&b.to_pairs());
    assert_eq!(encoded, "query=a%26b%3Dc%20d%2F%C3%A9");
}

#[test]
fn default_builder_encodes_to_nothing() {
    let b = SearchParamsBuilder::default();
    assert_eq!(encode_query(&b.to_pairs()), "");
}
