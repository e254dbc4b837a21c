use streak::client::{classify, HttpResponse, Step};
use streak::search;
use streak::JsonValue;

fn parse_via_transport(body: &str) -> JsonValue {
    let resp = HttpResponse { status: 200, body: body.to_owned(), has_location: false };
    match classify(&resp, 0) {
        Step::Success(v) => v,
        other => panic!("fixture did not parse: {:?}", other),
    }
}

const SEARCH_FIXTURE: &str = "{\"results\":{\"orgs\":[{\"name\":\"Acme\",\"key\":\"o1\",\"industry\":\"tools\",\"domains\":[\"acme.example\"]}],\"boxes\":[{\"boxKey\":\"b1\",\"name\":\"Big Deal\",\"lastUpdatedTimestamp\":1500000000000,\"stageKey\":\"5001\",\"pipelineKey\":\"p1\"}],\"contacts\":[{\"key\":\"c1\",\"emailAddresses\":[\"ada@example.com\"],\"title\":null}]},\"page\":1,\"query\":\"deal\"}";

#[test]
fn search_response_decodes() {
    let v = parse_via_transport(SEARCH_FIXTURE);
    let r = search::decode_response(&v).expect("response should decode");
    assert_eq!(r.page, 1);
    assert_eq!(r.query, Some("deal".to_owned()));
    assert_eq!(r.results.boxes.len(), 1);
    assert_eq!(r.results.boxes[0].box_key, "b1");
    assert_eq!(r.results.boxes[0].pipeline_key, "p1");
    let orgs = r.results.orgs.expect("orgs were present");
    assert_eq!(orgs[0].domains, vec!["acme.example".to_owned()]);
    let contacts = r.results.contacts.expect("contacts were present");
    assert_eq!(contacts[0].email_addresses, Some(vec!["ada@example.com".to_owned()]));
    assert_eq!(contacts[0].title, None);
}

#[test]
fn absent_groups_decode_to_none() {
    let body = "{\"results\":{\"boxes\":[]},\"page\":0,\"query\":null}";
    let v = parse_via_transport(body);
    let r = search::decode_response(&v).expect("response should decode");
    assert_eq!(r.results.orgs, None);
    assert_eq!(r.results.contacts, None);
    assert!(r.results.boxes.is_empty());
    assert_eq!(r.query, None);
}

#[test]
fn malformed_response_is_a_typed_error() {
    let v = parse_via_transport("{\"page\":1}");
    assert_eq!(
        search::decode_response(&v),
        Err(streak::StreakError::JsonParseError("malformed search response".to_owned()))
    );
}

#[test]
fn search_path_is_fixed() {
    assert_eq!(search::search_path(), "search");
}
