use streak::boxes::{self, FieldValue, User};
use streak::contacts::{self, Contact};
use streak::client::{classify, HttpResponse, Step};
use streak::pipelines::{
    self, AclEntry, Color, Field, FieldItem, FieldItems, Pipeline, Stage,
};
use streak::JsonValue;

const PIPELINE_FIXTURE: &str = "{\"key\":\"p1\",\"pipelineKey\":\"p1\",\"creatorKey\":\"u1\",\"name\":\"Sales\",\"description\":null,\"orgWide\":false,\"fields\":[{\"name\":\"Priority\",\"key\":\"1001\",\"type\":\"DROPDOWN\",\"lastUpdatedTimestamp\":1500000000000,\"dropdownSettings\":{\"items\":[{\"key\":\"9001\",\"name\":\"High\"}]}}],\"stages\":{\"5001\":{\"name\":\"Lead\",\"key\":\"5001\",\"color\":{\"foregroundColor\":\"#fff\",\"backgroundColor\":\"#00f\"},\"boxCount\":2}},\"stageOrder\":[\"5001\"],\"aclEntries\":[{\"fullName\":\"Ada Example\",\"email\":\"ada@example.com\",\"isOwner\":true,\"image\":\"https://example.com/a.png\",\"displayName\":\"Ada\",\"userKey\":\"u1\",\"permissionSetName\":\"owner\"}],\"owner\":null,\"teamKey\":\"t1\",\"teamWide\":false,\"creationTimestamp\":1400000000000,\"lastUpdatedTimestamp\":1500000000000,\"lastSavedTimestamp\":1500000000001,\"boxCountHint\":2,\"boxCount\":2,\"sharingRestrictedToOrg\":false,\"sharingRestrictedToTeam\":true}";

fn parse_via_transport(body: &str) -> JsonValue {
    let resp = HttpResponse { status: 200, body: body.to_owned(), has_location: false };
    match classify(&resp, 0) {
        Step::Success(v) => v,
        other => panic!("fixture did not parse: {:?}", other),
    }
}

#[test]
fn pipeline_list_fixture_decodes() {
    // The pipeline-list endpoint on a one-record body yields one typed
    // pipeline record with key "p1".
    let body = format!("[{}]", PIPELINE_FIXTURE);
    let v = parse_via_transport(&body);
    let pipelines = pipelines::list(&v).expect("list should decode");
    assert_eq!(pipelines.len(), 1);
    assert_eq!(pipelines[0].key, "p1");
    assert_eq!(pipelines[0].name, "Sales");
    assert_eq!(pipelines[0].stages.len(), 1);
    assert_eq!(pipelines[0].stages[0].0, "5001");
    assert_eq!(pipelines[0].stages[0].1.color.background_color, "#00f");
    assert_eq!(pipelines[0].stage_order, vec!["5001".to_owned()]);
    assert_eq!(pipelines[0].description, None);
    assert_eq!(pipelines[0].owner, None);
    assert_eq!(pipelines[0].fields[0].dropdown_settings.as_ref().unwrap().items[0].name, "High");
}

/// The same value with every object's fields sorted by key, so that two
/// structures can be compared modulo key ordering.
fn normalized(v: &JsonValue) -> JsonValue {
    match v {
        JsonValue::Null => JsonValue::Null,
        JsonValue::Bool(b) => JsonValue::Bool(*b),
        JsonValue::Int(i) => JsonValue::Int(*i),
        JsonValue::UInt(u) => JsonValue::UInt(*u),
        JsonValue::NumLit(s) => JsonValue::NumLit(s.clone()),
        JsonValue::Str(s) => JsonValue::Str(s.clone()),
        JsonValue::Arr(items) => JsonValue::Arr(items.iter().map(normalized).collect()),
        JsonValue::Obj(fields) => {
            let mut out: Vec<(String, JsonValue)> = fields
                .iter()
                .map(|(k, f)| (k.clone(), normalized(f)))
                .collect();
            out.sort_by(|a, b| a.0.cmp(&b.0));
            JsonValue::Obj(out)
        },
    }
}

#[test]
fn pipeline_fixture_reencodes_to_the_same_structure() {
    // Decoding the fixture and re-encoding the record gives back the JSON
    // structure the fixture parsed to, modulo key ordering.
    let v = parse_via_transport(PIPELINE_FIXTURE);
    let p = pipelines::get(&v).expect("pipeline should decode");
    let reencoded = pipelines::encode_pipeline(&p);
    assert_eq!(normalized(&reencoded), normalized(&v));
}

fn sample_pipeline() -> Pipeline {
    Pipeline {
        key: "p9".to_owned(),
        pipeline_key: "p9".to_owned(),
        creator_key: "u2".to_owned(),
        name: "Hiring".to_owned(),
        description: Some("candidates".to_owned()),
        org_wide: true,
        fields: vec![Field {
            name: "Stage notes".to_owned(),
            key: "1002".to_owned(),
            field_type: "TEXT_INPUT".to_owned(),
            last_updated_timestamp: None,
            dropdown_settings: None,
        }],
        stages: vec![(
            "5002".to_owned(),
            Stage {
                name: "Screen".to_owned(),
                key: "5002".to_owned(),
                color: Color {
                    foreground_color: "#000".to_owned(),
                    background_color: "#fe0".to_owned(),
                },
                box_count: 0,
            },
        )],
        stage_order: vec!["5002".to_owned()],
        acl_entries: Vec::new(),
        owner: Some(AclEntry {
            full_name: "Grace Example".to_owned(),
            email: "grace@example.com".to_owned(),
            is_owner: Some(true),
            image: "".to_owned(),
            display_name: "Grace".to_owned(),
            user_key: "u2".to_owned(),
            permission_set_name: "owner".to_owned(),
        }),
        team_key: "t2".to_owned(),
        team_wide: true,
        creation_timestamp: 1,
        last_updated_timestamp: 2,
        last_saved_timestamp: 3,
        box_count_hint: -1,
        box_count: 0,
        sharing_restricted_to_org: true,
        sharing_restricted_to_team: false,
    }
}

#[test]
fn pipeline_round_trip() {
    let p = sample_pipeline();
    let encoded = pipelines::encode_pipeline(&p);
    let decoded = pipelines::decode_pipeline(&encoded).expect("round trip should decode");
    assert_eq!(decoded, p);
}

#[test]
fn small_record_round_trips() {
    let c = Color { foreground_color: "#123".to_owned(), background_color: "#456".to_owned() };
    assert_eq!(pipelines::decode_color(&pipelines::encode_color(&c)), Ok(c.clone()));

    let it = FieldItem { key: "k".to_owned(), name: "n".to_owned() };
    assert_eq!(pipelines::decode_field_item(&pipelines::encode_field_item(&it)), Ok(it.clone()));

    let its = FieldItems { items: vec![it] };
    assert_eq!(pipelines::decode_field_items(&pipelines::encode_field_items(&its)), Ok(its));

    let st = Stage { name: "Lead".to_owned(), key: "5001".to_owned(), color: c, box_count: 7 };
    assert_eq!(pipelines::decode_stage(&pipelines::encode_stage(&st)), Ok(st));
}

#[test]
fn contact_round_trip() {
    let c = Contact {
        team_key: "t1".to_owned(),
        given_name: "Ada".to_owned(),
        family_name: "Example".to_owned(),
        title: None,
        email_addresses: vec!["ada@example.com".to_owned()],
        phone_numbers: Vec::new(),
        last_saved_user_key: "u1".to_owned(),
        creator_key: "u1".to_owned(),
        creation_date: 1400000000000,
        key: "c1".to_owned(),
        version_timestamp: 2,
        last_saved_timestamp: 3,
    };
    let encoded = contacts::encode_contact(&c);
    assert_eq!(contacts::decode_contact(&encoded), Ok(c));
}

#[test]
fn contact_fixture_decodes() {
    let body = "{\"teamKey\":\"t1\",\"givenName\":\"Ada\",\"familyName\":\"Example\",\"title\":\"CTO\",\"emailAddresses\":[\"ada@example.com\"],\"phoneNumbers\":[],\"lastSavedUserKey\":\"u1\",\"creatorKey\":\"u1\",\"creationDate\":1400000000000,\"key\":\"c1\",\"versionTimestamp\":2,\"lastSavedTimestamp\":3}";
    let v = parse_via_transport(body);
    let c = contacts::get(&v).expect("contact should decode");
    assert_eq!(c.title, Some("CTO".to_owned()));
    assert_eq!(c.key, "c1");
}

#[test]
fn malformed_records_name_their_shape() {
    let v = JsonValue::Obj(vec![("key".to_owned(), JsonValue::Str("p1".to_owned()))]);
    assert_eq!(
        pipelines::get(&v),
        Err(streak::StreakError::JsonParseError("malformed pipeline record".to_owned()))
    );
    assert_eq!(
        contacts::get(&v),
        Err(streak::StreakError::JsonParseError("malformed contact record".to_owned()))
    );
    assert_eq!(
        boxes::get(&v),
        Err(streak::StreakError::JsonParseError("malformed box record".to_owned()))
    );
}

fn sample_user() -> User {
    User {
        display_name: "Ada".to_owned(),
        full_name: "Ada Example".to_owned(),
        email: "ada@example.com".to_owned(),
        image: "".to_owned(),
        user_key: "u1".to_owned(),
    }
}

#[test]
fn user_round_trip() {
    let u = sample_user();
    assert_eq!(boxes::decode_user(&boxes::encode_user(&u)), Ok(u));
}

#[test]
fn field_value_round_trip_and_as_string() {
    let fv = FieldValue::String("important".to_owned());
    let encoded = boxes::encode_field_value(&fv);
    assert_eq!(boxes::decode_field_value(&encoded), Ok(fv));
    assert_eq!(
        FieldValue::String("x".to_owned()).as_string(),
        Some("x".to_owned())
    );
    assert_eq!(FieldValue::Integer(3).as_string(), None);

    let arr = FieldValue::Array(vec![JsonValue::Int(1), JsonValue::Str("two".to_owned())]);
    let encoded = boxes::encode_field_value(&arr);
    assert_eq!(boxes::decode_field_value(&encoded), Ok(arr));
}

#[test]
fn box_round_trip() {
    let b = streak::boxes::Box {
        last_saved_timestamp: 10,
        pipeline_key: "p1".to_owned(),
        creator_key: "u1".to_owned(),
        creation_timestamp: 1,
        last_updated_timestamp: 2,
        last_stage_change_timestamp: 3,
        last_comment_timestamp: None,
        total_number_of_emails: 4,
        total_number_of_sent_emails: 2,
        total_number_of_received_emails: 2,
        name: "Big Deal".to_owned(),
        notes: Some("call back".to_owned()),
        assigned_to_sharing_entries: vec![sample_user()],
        creator_sharing_entry: sample_user(),
        follower_sharing_entries: Vec::new(),
        stage_key: "5001".to_owned(),
        follower_keys: vec!["u1".to_owned()],
        linked_box_keys: Vec::new(),
        email_addresses_auto_extracted: Vec::new(),
        email_addresses_blacklist: Vec::new(),
        email_addresses: vec!["ada@example.com".to_owned()],
        task_complete_count: 0,
        task_incomplete_count: 1,
        task_overdue_count: 0,
        task_total: 1,
        call_log_count: 0,
        meeting_notes_count: 0,
        total_call_log_duration: 0,
        total_meeting_notes_duration: 0,
        follower_count: 1,
        comment_count: 0,
        gmail_thread_count: 0,
        file_count: 0,
        fields: vec![
            ("1001".to_owned(), FieldValue::String("High".to_owned())),
            ("1002".to_owned(), FieldValue::Integer(9)),
        ],
        box_key: "b1".to_owned(),
        key: "b1".to_owned(),
    };
    let encoded = boxes::encode_box(&b);
    assert_eq!(boxes::decode_box(&encoded), Ok(b));
}

#[test]
fn numbers_keep_their_shape() {
    // A number beyond i64 range parses as UInt, a fractional one keeps its
    // decimal rendering, a negative one is Int.
    let v = parse_via_transport("[9223372036854775808,1.5,-2]");
    assert_eq!(
        v,
        JsonValue::Arr(vec![
            JsonValue::UInt(9223372036854775808),
            JsonValue::NumLit("1.5".to_owned()),
            JsonValue::Int(-2),
        ])
    );
}

#[test]
fn paths_compose() {
    assert_eq!(pipelines::list_path(), "pipelines");
    assert_eq!(pipelines::get_path("p1"), "pipelines/p1");
    assert_eq!(boxes::get_path("b1"), "boxes/b1");
    assert_eq!(boxes::list_path("p1"), "pipelines/p1/boxes");
    assert_eq!(contacts::get_path("c1"), "contacts/c1");
}
