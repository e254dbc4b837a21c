//! Box records — the deals a pipeline tracks — and their JSON codecs.
//!
//! A box carries an open-ended map of custom fields, schema-free at the wire
//! level: each value is an integer, a boolean, a string, or a list of raw
//! JSON values. The fractional freshness score the service reports beside a
//! box is left aside by this model.

use vstd::prelude::*;
use vstd::string::StringExecFns;
use crate::error::{ErrV, StreakError};
use crate::json::{
    JsonValue, json_eqv, lemma_obj_get_at, spec_get, spec_get_arr, spec_get_opt_str,
    spec_get_opt_u64, spec_get_str, spec_get_u32, spec_get_u64, str_arr_decodes_to,
    str_arr_encoding, str_arr_wf, decode_str_items, encode_str_items,
};
use crate::pipelines::{pair_is_str, pair_is_opt_str};
use crate::contacts::pair_is_uint;

verus! {

broadcast use vstd::string::group_string_axioms;

/// One custom-field value of a box: a tagged union over the shapes the
/// service sends.
#[derive(Debug, PartialEq, Eq)]
pub enum FieldValue {
    Integer(u64),
    Bool(bool),
    String(String),
    Array(Vec<JsonValue>),
}

/// A user reference carried in a box's sharing entries.
#[derive(Debug, Clone, PartialEq, Eq)]
pub struct User {
    pub display_name: String,
    pub full_name: String,
    pub email: String,
    pub image: String,
    pub user_key: String,
}

impl FieldValue {
    /// The held text, if this value is a string.
    pub fn as_string(self) -> (r: Option<String>)
        ensures
            (match self {
                FieldValue::String(s) => r == Some(s),
                _ => r is None,
            }),
    {
        if let FieldValue::String(s) = self {
            Some(s)
        } else {
            None
        }
    }
}

/// Structural equivalence is symmetric.
pub proof fn lemma_json_eqv_sym(a: JsonValue, b: JsonValue)
    requires
        json_eqv(a, b),
    ensures
        json_eqv(b, a),
    decreases a,
{
    match (a, b) {
        (JsonValue::Arr(xs), JsonValue::Arr(ys)) => {
            assert forall|i: int| 0 <= i < ys@.len() implies json_eqv(
                b->Arr_0@[i],
                #[trigger] xs@[i],
            ) by {
                assert(json_eqv(a->Arr_0@[i], ys@[i]));
                lemma_json_eqv_sym(a->Arr_0@[i], ys@[i]);
            }
        },
        (JsonValue::Obj(xf), JsonValue::Obj(yf)) => {
            assert forall|i: int|
                0 <= i < yf@.len() implies (#[trigger] xf@[i]).0@ == b->Obj_0@[i].0@ && json_eqv(
                b->Obj_0@[i].1,
                xf@[i].1,
            ) by {
                assert(yf@[i].0@ == a->Obj_0@[i].0@ && json_eqv(a->Obj_0@[i].1, yf@[i].1));
                lemma_json_eqv_sym(a->Obj_0@[i].1, yf@[i].1);
            }
        },
        _ => (),
    }
}

/// A body that reads as a custom-field value.
pub open spec fn field_value_wf(j: JsonValue) -> bool {
    match j {
        JsonValue::UInt(_) => true,
        JsonValue::Int(i) => i >= 0,
        JsonValue::Bool(_) => true,
        JsonValue::Str(_) => true,
        JsonValue::Arr(_) => true,
        _ => false,
    }
}

/// How a decoded custom-field value reads against its body.
pub open spec fn field_value_decodes_to(j: JsonValue, c: FieldValue) -> bool {
    match j {
        JsonValue::UInt(u) => c == FieldValue::Integer(u),
        JsonValue::Int(i) => i >= 0 && c == FieldValue::Integer(i as u64),
        JsonValue::Bool(b) => c == FieldValue::Bool(b),
        JsonValue::Str(s) => c matches FieldValue::String(t) && t@ == s@,
        JsonValue::Arr(items) => c matches FieldValue::Array(vs) && vs@.len() == items@.len() && (
        forall|k: int| 0 <= k < items@.len() ==> json_eqv(#[trigger] items@[k], vs@[k])),
        _ => false,
    }
}

/// The canonical encoding of a custom-field value.
pub open spec fn field_value_encoding(c: FieldValue, j: JsonValue) -> bool {
    match c {
        FieldValue::Integer(u) => j == JsonValue::UInt(u),
        FieldValue::Bool(b) => j == JsonValue::Bool(b),
        FieldValue::String(s) => j matches JsonValue::Str(t) && t@ == s@,
        FieldValue::Array(vs) => j matches JsonValue::Arr(items) && items@.len() == vs@.len() && (
        forall|k: int| 0 <= k < vs@.len() ==> json_eqv(#[trigger] vs@[k], items@[k])),
    }
}

/// Reads a custom-field value out of a parsed body.
pub fn decode_field_value(v: &JsonValue) -> (r: Result<FieldValue, StreakError>)
    ensures
        r is Ok <==> field_value_wf(*v),
        (r matches Ok(c) ==> field_value_decodes_to(*v, c)),
        (r matches Err(e) ==> e@ == ErrV::JsonParseError("malformed box record"@)),
{
    match v {
        JsonValue::UInt(u) => Ok(FieldValue::Integer(*u)),
        JsonValue::Int(i) => {
            if *i >= 0 {
                Ok(FieldValue::Integer(*i as u64))
            } else {
                Err(parse_error())
            }
        },
        JsonValue::Bool(b) => Ok(FieldValue::Bool(*b)),
        JsonValue::Str(s) => Ok(FieldValue::String(s.clone())),
        JsonValue::Arr(items) => {
            let mut vs: Vec<JsonValue> = Vec::new();
            let mut i: usize = 0;
            while i < items.len()
                invariant
                    i <= items.len(),
                    vs@.len() == i,
                    forall|k: int| 0 <= k < i ==> json_eqv(#[trigger] items@[k], vs@[k]),
                decreases items.len() - i,
            {
                vs.push(items[i].duplicate());
                i = i + 1;
            }
            proof {
                assert(*v == JsonValue::Arr(*items));
            }
            Ok(FieldValue::Array(vs))
        },
        _ => Err(parse_error()),
    }
}

/// Writes a custom-field value back as JSON.
pub fn encode_field_value(c: &FieldValue) -> (r: JsonValue)
    ensures
        field_value_encoding(*c, r),
{
    match c {
        FieldValue::Integer(u) => JsonValue::UInt(*u),
        FieldValue::Bool(b) => JsonValue::Bool(*b),
        FieldValue::String(s) => JsonValue::Str(s.clone()),
        FieldValue::Array(vs) => {
            let mut items: Vec<JsonValue> = Vec::new();
            let mut i: usize = 0;
            while i < vs.len()
                invariant
                    i <= vs.len(),
                    items@.len() == i,
                    forall|k: int| 0 <= k < i ==> json_eqv(#[trigger] vs@[k], items@[k]),
                decreases vs.len() - i,
            {
                items.push(vs[i].duplicate());
                i = i + 1;
            }
            proof {
                assert(*c == FieldValue::Array(*vs));
            }
            JsonValue::Arr(items)
        },
    }
}

/// Round trip: any encoding of a custom-field value decodes back to an
/// equivalent one.
pub proof fn lemma_field_value_round_trip(c: FieldValue, j: JsonValue)
    requires
        field_value_encoding(c, j),
    ensures
        field_value_wf(j),
        field_value_decodes_to(j, c),
{
    match c {
        FieldValue::Array(vs) => {
            let items = j->Arr_0;
            assert forall|k: int| 0 <= k < items@.len() implies json_eqv(
                #[trigger] items@[k],
                vs@[k],
            ) by {
                assert(json_eqv(vs@[k], items@[k]));
                lemma_json_eqv_sym(vs@[k], items@[k]);
            }
        },
        _ => (),
    }
}

/// A body that reads as a user reference.
pub open spec fn user_wf(j: JsonValue) -> bool {
    &&& spec_get_str(j, "displayName"@) is Some
    &&& spec_get_str(j, "fullName"@) is Some
    &&& spec_get_str(j, "email"@) is Some
    &&& spec_get_str(j, "image"@) is Some
    &&& spec_get_str(j, "userKey"@) is Some
}

/// How a decoded user reference reads against its body.
pub open spec fn user_decodes_to(j: JsonValue, c: User) -> bool {
    &&& spec_get_str(j, "displayName"@) == Some(c.display_name@)
    &&& spec_get_str(j, "fullName"@) == Some(c.full_name@)
    &&& spec_get_str(j, "email"@) == Some(c.email@)
    &&& spec_get_str(j, "image"@) == Some(c.image@)
    &&& spec_get_str(j, "userKey"@) == Some(c.user_key@)
}

/// The canonical encoding of a user reference.
pub open spec fn user_encoding(c: User, j: JsonValue) -> bool {
    match j {
        JsonValue::Obj(fields) => {
            &&& fields@.len() == 5
            &&& pair_is_str(fields@[0], "displayName"@, c.display_name@)
            &&& pair_is_str(fields@[1], "fullName"@, c.full_name@)
            &&& pair_is_str(fields@[2], "email"@, c.email@)
            &&& pair_is_str(fields@[3], "image"@, c.image@)
            &&& pair_is_str(fields@[4], "userKey"@, c.user_key@)
        },
        _ => false,
    }
}

/// Reads a user reference out of a parsed body.
pub fn decode_user(v: &JsonValue) -> (r: Result<User, StreakError>)
    ensures
        r is Ok <==> user_wf(*v),
        (r matches Ok(c) ==> user_decodes_to(*v, c)),
        (r matches Err(e) ==> e@ == ErrV::JsonParseError("malformed box record"@)),
{
    let display_name = match v.get_str("displayName") {
        Some(s) => s,
        None => {
            return Err(parse_error());
        },
    };
    let full_name = match v.get_str("fullName") {
        Some(s) => s,
        None => {
            return Err(parse_error());
        },
    };
    let email = match v.get_str("email") {
        Some(s) => s,
        None => {
            return Err(parse_error());
        },
    };
    let image = match v.get_str("image") {
        Some(s) => s,
        None => {
            return Err(parse_error());
        },
    };
    let user_key = match v.get_str("userKey") {
        Some(s) => s,
        None => {
            return Err(parse_error());
        },
    };
    Ok(User { display_name, full_name, email, image, user_key })
}

/// Writes a user reference back as JSON.
pub fn encode_user(c: &User) -> (r: JsonValue)
    ensures
        user_encoding(*c, r),
{
    let mut fields: Vec<(String, JsonValue)> = Vec::new();
    fields.push(("displayName".to_owned(), JsonValue::Str(c.display_name.clone())));
    fields.push(("fullName".to_owned(), JsonValue::Str(c.full_name.clone())));
    fields.push(("email".to_owned(), JsonValue::Str(c.email.clone())));
    fields.push(("image".to_owned(), JsonValue::Str(c.image.clone())));
    fields.push(("userKey".to_owned(), JsonValue::Str(c.user_key.clone())));
    JsonValue::Obj(fields)
}

/// Round trip: any encoding of a user reference decodes back to it.
pub proof fn lemma_user_round_trip(c: User, j: JsonValue)
    requires
        user_encoding(c, j),
    ensures
        user_wf(j),
        user_decodes_to(j, c),
{
    reveal_strlit("displayName");
    reveal_strlit("fullName");
    reveal_strlit("email");
    reveal_strlit("image");
    reveal_strlit("userKey");
    assert("displayName"@.len() == 11);
    assert("fullName"@.len() == 8);
    assert("email"@.len() == 5);
    assert("image"@.len() == 5);
    assert("userKey"@.len() == 7);
    assert("email"@[0] == 'e');
    assert("image"@[0] == 'i');
    let fields = j->Obj_0;
    lemma_obj_get_at(fields@, "displayName"@, 0);
    lemma_obj_get_at(fields@, "fullName"@, 1);
    lemma_obj_get_at(fields@, "email"@, 2);
    lemma_obj_get_at(fields@, "image"@, 3);
    lemma_obj_get_at(fields@, "userKey"@, 4);
}

/// Every element of a user array reads as a user reference.
pub open spec fn users_arr_wf(items: Seq<JsonValue>) -> bool {
    forall|i: int| 0 <= i < items.len() ==> user_wf(#[trigger] items[i])
}

/// How a decoded user list reads against its array body.
pub open spec fn users_arr_decodes_to(items: Seq<JsonValue>, out: Seq<User>) -> bool {
    &&& out.len() == items.len()
    &&& forall|i: int| 0 <= i < items.len() ==> user_decodes_to(#[trigger] items[i], out[i])
}

/// The canonical encoding of a user list, element for element.
pub open spec fn users_arr_encoding(out: Seq<User>, items: Seq<JsonValue>) -> bool {
    &&& items.len() == out.len()
    &&& forall|i: int| 0 <= i < items.len() ==> user_encoding(out[i], #[trigger] items[i])
}

/// Reads a list of user references out of an array body.
pub fn decode_users(arr: &Vec<JsonValue>) -> (r: Result<Vec<User>, StreakError>)
    ensures
        r is Ok <==> users_arr_wf(arr@),
        (r matches Ok(out) ==> users_arr_decodes_to(arr@, out@)),
        (r matches Err(e) ==> e@ == ErrV::JsonParseError("malformed box record"@)),
{
    let mut out: Vec<User> = Vec::new();
    let mut i: usize = 0;
    while i < arr.len()
        invariant
            i <= arr.len(),
            out@.len() == i,
            forall|k: int| 0 <= k < i ==> user_decodes_to(#[trigger] arr@[k], out@[k]),
            forall|k: int| 0 <= k < i ==> user_wf(#[trigger] arr@[k]),
        decreases arr.len() - i,
    {
        match decode_user(&arr[i]) {
            Ok(c) => out.push(c),
            Err(e) => {
                return Err(e);
            },
        }
        i = i + 1;
    }
    Ok(out)
}

/// Writes a list of user references back as a JSON array.
pub fn encode_users(out: &Vec<User>) -> (r: Vec<JsonValue>)
    ensures
        users_arr_encoding(out@, r@),
{
    let mut items: Vec<JsonValue> = Vec::new();
    let mut i: usize = 0;
    while i < out.len()
        invariant
            i <= out.len(),
            items@.len() == i,
            forall|k: int| 0 <= k < i ==> user_encoding(out@[k], #[trigger] items@[k]),
        decreases out.len() - i,
    {
        items.push(encode_user(&out[i]));
        i = i + 1;
    }
    items
}

/// Every value of a custom-fields object reads as a field value.
pub open spec fn field_map_wf(fs: Seq<(String, JsonValue)>) -> bool {
    forall|i: int| 0 <= i < fs.len() ==> field_value_wf((#[trigger] fs[i]).1)
}

/// How a decoded custom-fields list reads against its object: same keys in
/// the same order, each value decoded.
pub open spec fn field_map_decodes_to(
    fs: Seq<(String, JsonValue)>,
    out: Seq<(String, FieldValue)>,
) -> bool {
    &&& out.len() == fs.len()
    &&& forall|i: int|
        0 <= i < fs.len() ==> out[i].0@ == (#[trigger] fs[i]).0@ && field_value_decodes_to(
            fs[i].1,
            out[i].1,
        )
}

/// The canonical encoding of a custom-fields list as an object.
pub open spec fn field_map_encoding(
    out: Seq<(String, FieldValue)>,
    fs: Seq<(String, JsonValue)>,
) -> bool {
    &&& fs.len() == out.len()
    &&& forall|i: int|
        0 <= i < fs.len() ==> (#[trigger] fs[i]).0@ == out[i].0@ && field_value_encoding(
            out[i].1,
            fs[i].1,
        )
}

/// Reads the custom-fields object into a key/value list, keeping the
/// parser's field order.
pub fn decode_field_map(fs: &Vec<(String, JsonValue)>) -> (r: Result<
    Vec<(String, FieldValue)>,
    StreakError,
>)
    ensures
        r is Ok <==> field_map_wf(fs@),
        (r matches Ok(out) ==> field_map_decodes_to(fs@, out@)),
        (r matches Err(e) ==> e@ == ErrV::JsonParseError("malformed box record"@)),
{
    let mut out: Vec<(String, FieldValue)> = Vec::new();
    let mut i: usize = 0;
    while i < fs.len()
        invariant
            i <= fs.len(),
            out@.len() == i,
            forall|k: int|
                0 <= k < i ==> out@[k].0@ == (#[trigger] fs@[k]).0@ && field_value_decodes_to(
                    fs@[k].1,
                    out@[k].1,
                ),
            forall|k: int| 0 <= k < i ==> field_value_wf((#[trigger] fs@[k]).1),
        decreases fs.len() - i,
    {
        match decode_field_value(&fs[i].1) {
            Ok(c) => out.push((fs[i].0.clone(), c)),
            Err(e) => {
                return Err(e);
            },
        }
        i = i + 1;
    }
    Ok(out)
}

/// Writes a custom-fields list back as a JSON object.
pub fn encode_field_map(out: &Vec<(String, FieldValue)>) -> (r: Vec<(String, JsonValue)>)
    ensures
        field_map_encoding(out@, r@),
{
    let mut fs: Vec<(String, JsonValue)> = Vec::new();
    let mut i: usize = 0;
    while i < out.len()
        invariant
            i <= out.len(),
            fs@.len() == i,
            forall|k: int|
                0 <= k < i ==> (#[trigger] fs@[k]).0@ == out@[k].0@ && field_value_encoding(
                    out@[k].1,
                    fs@[k].1,
                ),
        decreases out.len() - i,
    {
        fs.push((out[i].0.clone(), encode_field_value(&out[i].1)));
        i = i + 1;
    }
    fs
}

/// A box: one deal, with its counters, sharing entries and custom fields.
#[derive(Debug, PartialEq, Eq)]
pub struct Box {
    pub last_saved_timestamp: u64,
    pub pipeline_key: String,
    pub creator_key: String,
    pub creation_timestamp: u64,
    pub last_updated_timestamp: u64,
    pub last_stage_change_timestamp: u64,
    pub last_comment_timestamp: Option<u64>,
    pub total_number_of_emails: u32,
    pub total_number_of_sent_emails: u32,
    pub total_number_of_received_emails: u32,
    pub name: String,
    pub notes: Option<String>,
    pub assigned_to_sharing_entries: Vec<User>,
    pub creator_sharing_entry: User,
    pub follower_sharing_entries: Vec<User>,
    pub stage_key: String,
    pub follower_keys: Vec<String>,
    pub linked_box_keys: Vec<String>,
    pub email_addresses_auto_extracted: Vec<String>,
    pub email_addresses_blacklist: Vec<String>,
    pub email_addresses: Vec<String>,
    pub task_complete_count: u32,
    pub task_incomplete_count: u32,
    pub task_overdue_count: u32,
    pub task_total: u32,
    pub call_log_count: u32,
    pub meeting_notes_count: u32,
    pub total_call_log_duration: u32,
    pub total_meeting_notes_duration: u32,
    pub follower_count: u32,
    pub comment_count: u32,
    pub gmail_thread_count: u32,
    pub file_count: u32,
    pub fields: Vec<(String, FieldValue)>,
    pub box_key: String,
    pub key: String,
}

/// One optional non-negative-integer pair: `null` for an absent value.
pub open spec fn pair_is_opt_uint(p: (String, JsonValue), key: Seq<char>, val: Option<u64>) -> bool {
    p.0@ == key && (match val {
        Some(u) => p.1 == JsonValue::UInt(u),
        None => p.1 == JsonValue::Null,
    })
}

/// A body that reads as a box record.
pub open spec fn box_wf(j: JsonValue) -> bool {
    &&& spec_get_u64(j, "lastSavedTimestamp"@) is Some
    &&& spec_get_str(j, "pipelineKey"@) is Some
    &&& spec_get_str(j, "creatorKey"@) is Some
    &&& spec_get_u64(j, "creationTimestamp"@) is Some
    &&& spec_get_u64(j, "lastUpdatedTimestamp"@) is Some
    &&& spec_get_u64(j, "lastStageChangeTimestamp"@) is Some
    &&& spec_get_opt_u64(j, "lastCommentTimestamp"@) is Some
    &&& spec_get_u32(j, "totalNumberOfEmails"@) is Some
    &&& spec_get_u32(j, "totalNumberOfSentEmails"@) is Some
    &&& spec_get_u32(j, "totalNumberOfReceivedEmails"@) is Some
    &&& spec_get_str(j, "name"@) is Some
    &&& spec_get_opt_str(j, "notes"@) is Some
    &&& (match spec_get_arr(j, "assignedToSharingEntries"@) {
        Some(items) => users_arr_wf(items),
        None => false,
    })
    &&& (match spec_get(j, "creatorSharingEntry"@) {
        Some(uv) => user_wf(uv),
        None => false,
    })
    &&& (match spec_get_arr(j, "followerSharingEntries"@) {
        Some(items) => users_arr_wf(items),
        None => false,
    })
    &&& spec_get_str(j, "stageKey"@) is Some
    &&& (match spec_get_arr(j, "followerKeys"@) {
        Some(items) => str_arr_wf(items),
        None => false,
    })
    &&& (match spec_get_arr(j, "linkedBoxKeys"@) {
        Some(items) => str_arr_wf(items),
        None => false,
    })
    &&& (match spec_get_arr(j, "emailAddressesAutoExtracted"@) {
        Some(items) => str_arr_wf(items),
        None => false,
    })
    &&& (match spec_get_arr(j, "emailAddressesBlacklist"@) {
        Some(items) => str_arr_wf(items),
        None => false,
    })
    &&& (match spec_get_arr(j, "emailAddresses"@) {
        Some(items) => str_arr_wf(items),
        None => false,
    })
    &&& spec_get_u32(j, "taskCompleteCount"@) is Some
    &&& spec_get_u32(j, "taskIncompleteCount"@) is Some
    &&& spec_get_u32(j, "taskOverdueCount"@) is Some
    &&& spec_get_u32(j, "taskTotal"@) is Some
    &&& spec_get_u32(j, "callLogCount"@) is Some
    &&& spec_get_u32(j, "meetingNotesCount"@) is Some
    &&& spec_get_u32(j, "totalCallLogDuration"@) is Some
    &&& spec_get_u32(j, "totalMeetingNotesDuration"@) is Some
    &&& spec_get_u32(j, "followerCount"@) is Some
    &&& spec_get_u32(j, "commentCount"@) is Some
    &&& spec_get_u32(j, "gmailThreadCount"@) is Some
    &&& spec_get_u32(j, "fileCount"@) is Some
    &&& (match spec_get(j, "fields"@) {
        Some(JsonValue::Obj(fs)) => field_map_wf(fs@),
        _ => false,
    })
    &&& spec_get_str(j, "boxKey"@) is Some
    &&& spec_get_str(j, "key"@) is Some
}

/// How a decoded box reads against its body.
pub open spec fn box_decodes_to(j: JsonValue, c: Box) -> bool {
    &&& spec_get_u64(j, "lastSavedTimestamp"@) == Some(c.last_saved_timestamp)
    &&& spec_get_str(j, "pipelineKey"@) == Some(c.pipeline_key@)
    &&& spec_get_str(j, "creatorKey"@) == Some(c.creator_key@)
    &&& spec_get_u64(j, "creationTimestamp"@) == Some(c.creation_timestamp)
    &&& spec_get_u64(j, "lastUpdatedTimestamp"@) == Some(c.last_updated_timestamp)
    &&& spec_get_u64(j, "lastStageChangeTimestamp"@) == Some(c.last_stage_change_timestamp)
    &&& spec_get_opt_u64(j, "lastCommentTimestamp"@) == Some(c.last_comment_timestamp)
    &&& spec_get_u32(j, "totalNumberOfEmails"@) == Some(c.total_number_of_emails)
    &&& spec_get_u32(j, "totalNumberOfSentEmails"@) == Some(c.total_number_of_sent_emails)
    &&& spec_get_u32(j, "totalNumberOfReceivedEmails"@) == Some(c.total_number_of_received_emails)
    &&& spec_get_str(j, "name"@) == Some(c.name@)
    &&& spec_get_opt_str(j, "notes"@) == Some(c.notes.deep_view())
    &&& (match spec_get_arr(j, "assignedToSharingEntries"@) {
        Some(items) => users_arr_decodes_to(items, c.assigned_to_sharing_entries@),
        None => false,
    })
    &&& (match spec_get(j, "creatorSharingEntry"@) {
        Some(uv) => user_decodes_to(uv, c.creator_sharing_entry),
        None => false,
    })
    &&& (match spec_get_arr(j, "followerSharingEntries"@) {
        Some(items) => users_arr_decodes_to(items, c.follower_sharing_entries@),
        None => false,
    })
    &&& spec_get_str(j, "stageKey"@) == Some(c.stage_key@)
    &&& (match spec_get_arr(j, "followerKeys"@) {
        Some(items) => str_arr_decodes_to(items, c.follower_keys@),
        None => false,
    })
    &&& (match spec_get_arr(j, "linkedBoxKeys"@) {
        Some(items) => str_arr_decodes_to(items, c.linked_box_keys@),
        None => false,
    })
    &&& (match spec_get_arr(j, "emailAddressesAutoExtracted"@) {
        Some(items) => str_arr_decodes_to(items, c.email_addresses_auto_extracted@),
        None => false,
    })
    &&& (match spec_get_arr(j, "emailAddressesBlacklist"@) {
        Some(items) => str_arr_decodes_to(items, c.email_addresses_blacklist@),
        None => false,
    })
    &&& (match spec_get_arr(j, "emailAddresses"@) {
        Some(items) => str_arr_decodes_to(items, c.email_addresses@),
        None => false,
    })
    &&& spec_get_u32(j, "taskCompleteCount"@) == Some(c.task_complete_count)
    &&& spec_get_u32(j, "taskIncompleteCount"@) == Some(c.task_incomplete_count)
    &&& spec_get_u32(j, "taskOverdueCount"@) == Some(c.task_overdue_count)
    &&& spec_get_u32(j, "taskTotal"@) == Some(c.task_total)
    &&& spec_get_u32(j, "callLogCount"@) == Some(c.call_log_count)
    &&& spec_get_u32(j, "meetingNotesCount"@) == Some(c.meeting_notes_count)
    &&& spec_get_u32(j, "totalCallLogDuration"@) == Some(c.total_call_log_duration)
    &&& spec_get_u32(j, "totalMeetingNotesDuration"@) == Some(c.total_meeting_notes_duration)
    &&& spec_get_u32(j, "followerCount"@) == Some(c.follower_count)
    &&& spec_get_u32(j, "commentCount"@) == Some(c.comment_count)
    &&& spec_get_u32(j, "gmailThreadCount"@) == Some(c.gmail_thread_count)
    &&& spec_get_u32(j, "fileCount"@) == Some(c.file_count)
    &&& (match spec_get(j, "fields"@) {
        Some(JsonValue::Obj(fs)) => field_map_decodes_to(fs@, c.fields@),
        _ => false,
    })
    &&& spec_get_str(j, "boxKey"@) == Some(c.box_key@)
    &&& spec_get_str(j, "key"@) == Some(c.key@)
}

/// Reads a box out of a parsed body.
pub fn decode_box(v: &JsonValue) -> (r: Result<Box, StreakError>)
    ensures
        r is Ok <==> box_wf(*v),
        (r matches Ok(c) ==> box_decodes_to(*v, c)),
        (r matches Err(e) ==> e@ == ErrV::JsonParseError("malformed box record"@)),
{
    let last_saved_timestamp = match v.get_u64("lastSavedTimestamp") {
        Some(u) => u,
        None => {
            return Err(parse_error());
        },
    };
    let pipeline_key = match v.get_str("pipelineKey") {
        Some(s) => s,
        None => {
            return Err(parse_error());
        },
    };
    let creator_key = match v.get_str("creatorKey") {
        Some(s) => s,
        None => {
            return Err(parse_error());
        },
    };
    let creation_timestamp = match v.get_u64("creationTimestamp") {
        Some(u) => u,
        None => {
            return Err(parse_error());
        },
    };
    let last_updated_timestamp = match v.get_u64("lastUpdatedTimestamp") {
        Some(u) => u,
        None => {
            return Err(parse_error());
        },
    };
    let last_stage_change_timestamp = match v.get_u64("lastStageChangeTimestamp") {
        Some(u) => u,
        None => {
            return Err(parse_error());
        },
    };
    let last_comment_timestamp = match v.get_opt_u64("lastCommentTimestamp") {
        Some(o) => o,
        None => {
            return Err(parse_error());
        },
    };
    let total_number_of_emails = match v.get_u32("totalNumberOfEmails") {
        Some(u) => u,
        None => {
            return Err(parse_error());
        },
    };
    let total_number_of_sent_emails = match v.get_u32("totalNumberOfSentEmails") {
        Some(u) => u,
        None => {
            return Err(parse_error());
        },
    };
    let total_number_of_received_emails = match v.get_u32("totalNumberOfReceivedEmails") {
        Some(u) => u,
        None => {
            return Err(parse_error());
        },
    };
    let name = match v.get_str("name") {
        Some(s) => s,
        None => {
            return Err(parse_error());
        },
    };
    let notes = match v.get_opt_str("notes") {
        Some(o) => o,
        None => {
            return Err(parse_error());
        },
    };
    let assigned_to_sharing_entries = match v.get_arr("assignedToSharingEntries") {
        Some(items) => match decode_users(items) {
            Ok(out) => out,
            Err(e) => {
                return Err(e);
            },
        },
        None => {
            return Err(parse_error());
        },
    };
    let creator_sharing_entry = match v.get("creatorSharingEntry") {
        Some(uv) => match decode_user(uv) {
            Ok(u) => u,
            Err(e) => {
                return Err(e);
            },
        },
        None => {
            return Err(parse_error());
        },
    };
    let follower_sharing_entries = match v.get_arr("followerSharingEntries") {
        Some(items) => match decode_users(items) {
            Ok(out) => out,
            Err(e) => {
                return Err(e);
            },
        },
        None => {
            return Err(parse_error());
        },
    };
    let stage_key = match v.get_str("stageKey") {
        Some(s) => s,
        None => {
            return Err(parse_error());
        },
    };
    let follower_keys = match v.get_arr("followerKeys") {
        Some(items) => match decode_str_items(items) {
            Some(out) => out,
            None => {
                return Err(parse_error());
            },
        },
        None => {
            return Err(parse_error());
        },
    };
    let linked_box_keys = match v.get_arr("linkedBoxKeys") {
        Some(items) => match decode_str_items(items) {
            Some(out) => out,
            None => {
                return Err(parse_error());
            },
        },
        None => {
            return Err(parse_error());
        },
    };
    let email_addresses_auto_extracted = match v.get_arr("emailAddressesAutoExtracted") {
        Some(items) => match decode_str_items(items) {
            Some(out) => out,
            None => {
                return Err(parse_error());
            },
        },
        None => {
            return Err(parse_error());
        },
    };
    let email_addresses_blacklist = match v.get_arr("emailAddressesBlacklist") {
        Some(items) => match decode_str_items(items) {
            Some(out) => out,
            None => {
                return Err(parse_error());
            },
        },
        None => {
            return Err(parse_error());
        },
    };
    let email_addresses = match v.get_arr("emailAddresses") {
        Some(items) => match decode_str_items(items) {
            Some(out) => out,
            None => {
                return Err(parse_error());
            },
        },
        None => {
            return Err(parse_error());
        },
    };
    let task_complete_count = match v.get_u32("taskCompleteCount") {
        Some(u) => u,
        None => {
            return Err(parse_error());
        },
    };
    let task_incomplete_count = match v.get_u32("taskIncompleteCount") {
        Some(u) => u,
        None => {
            return Err(parse_error());
        },
    };
    let task_overdue_count = match v.get_u32("taskOverdueCount") {
        Some(u) => u,
        None => {
            return Err(parse_error());
        },
    };
    let task_total = match v.get_u32("taskTotal") {
        Some(u) => u,
        None => {
            return Err(parse_error());
        },
    };
    let call_log_count = match v.get_u32("callLogCount") {
        Some(u) => u,
        None => {
            return Err(parse_error());
        },
    };
    let meeting_notes_count = match v.get_u32("meetingNotesCount") {
        Some(u) => u,
        None => {
            return Err(parse_error());
        },
    };
    let total_call_log_duration = match v.get_u32("totalCallLogDuration") {
        Some(u) => u,
        None => {
            return Err(parse_error());
        },
    };
    let total_meeting_notes_duration = match v.get_u32("totalMeetingNotesDuration") {
        Some(u) => u,
        None => {
            return Err(parse_error());
        },
    };
    let follower_count = match v.get_u32("followerCount") {
        Some(u) => u,
        None => {
            return Err(parse_error());
        },
    };
    let comment_count = match v.get_u32("commentCount") {
        Some(u) => u,
        None => {
            return Err(parse_error());
        },
    };
    let gmail_thread_count = match v.get_u32("gmailThreadCount") {
        Some(u) => u,
        None => {
            return Err(parse_error());
        },
    };
    let file_count = match v.get_u32("fileCount") {
        Some(u) => u,
        None => {
            return Err(parse_error());
        },
    };
    let fields = match v.get("fields") {
        Some(JsonValue::Obj(fs)) => match decode_field_map(fs) {
            Ok(out) => out,
            Err(e) => {
                return Err(e);
            },
        },
        _ => {
            return Err(parse_error());
        },
    };
    let box_key = match v.get_str("boxKey") {
        Some(s) => s,
        None => {
            return Err(parse_error());
        },
    };
    let key = match v.get_str("key") {
        Some(s) => s,
        None => {
            return Err(parse_error());
        },
    };
    Ok(Box {
        last_saved_timestamp,
        pipeline_key,
        creator_key,
        creation_timestamp,
        last_updated_timestamp,
        last_stage_change_timestamp,
        last_comment_timestamp,
        total_number_of_emails,
        total_number_of_sent_emails,
        total_number_of_received_emails,
        name,
        notes,
        assigned_to_sharing_entries,
        creator_sharing_entry,
        follower_sharing_entries,
        stage_key,
        follower_keys,
        linked_box_keys,
        email_addresses_auto_extracted,
        email_addresses_blacklist,
        email_addresses,
        task_complete_count,
        task_incomplete_count,
        task_overdue_count,
        task_total,
        call_log_count,
        meeting_notes_count,
        total_call_log_duration,
        total_meeting_notes_duration,
        follower_count,
        comment_count,
        gmail_thread_count,
        file_count,
        fields,
        box_key,
        key,
    })
}

/// The canonical encoding of a box.
pub open spec fn box_encoding(c: Box, j: JsonValue) -> bool {
    match j {
        JsonValue::Obj(fields) => {
            &&& fields@.len() == 36
            &&& pair_is_uint(fields@[0], "lastSavedTimestamp"@, c.last_saved_timestamp)
            &&& pair_is_str(fields@[1], "pipelineKey"@, c.pipeline_key@)
            &&& pair_is_str(fields@[2], "creatorKey"@, c.creator_key@)
            &&& pair_is_uint(fields@[3], "creationTimestamp"@, c.creation_timestamp)
            &&& pair_is_uint(fields@[4], "lastUpdatedTimestamp"@, c.last_updated_timestamp)
            &&& pair_is_uint(fields@[5], "lastStageChangeTimestamp"@, c.last_stage_change_timestamp)
            &&& pair_is_opt_uint(fields@[6], "lastCommentTimestamp"@, c.last_comment_timestamp)
            &&& pair_is_uint(fields@[7], "totalNumberOfEmails"@, c.total_number_of_emails as u64)
            &&& pair_is_uint(
                fields@[8],
                "totalNumberOfSentEmails"@,
                c.total_number_of_sent_emails as u64,
            )
            &&& pair_is_uint(
                fields@[9],
                "totalNumberOfReceivedEmails"@,
                c.total_number_of_received_emails as u64,
            )
            &&& pair_is_str(fields@[10], "name"@, c.name@)
            &&& pair_is_opt_str(fields@[11], "notes"@, c.notes)
            &&& fields@[12].0@ == "assignedToSharingEntries"@
            &&& (fields@[12].1 matches JsonValue::Arr(items) && users_arr_encoding(
                c.assigned_to_sharing_entries@,
                items@,
            ))
            &&& fields@[13].0@ == "creatorSharingEntry"@
            &&& user_encoding(c.creator_sharing_entry, fields@[13].1)
            &&& fields@[14].0@ == "followerSharingEntries"@
            &&& (fields@[14].1 matches JsonValue::Arr(items) && users_arr_encoding(
                c.follower_sharing_entries@,
                items@,
            ))
            &&& pair_is_str(fields@[15], "stageKey"@, c.stage_key@)
            &&& fields@[16].0@ == "followerKeys"@
            &&& (fields@[16].1 matches JsonValue::Arr(items) && str_arr_encoding(
                c.follower_keys@,
                items@,
            ))
            &&& fields@[17].0@ == "linkedBoxKeys"@
            &&& (fields@[17].1 matches JsonValue::Arr(items) && str_arr_encoding(
                c.linked_box_keys@,
                items@,
            ))
            &&& fields@[18].0@ == "emailAddressesAutoExtracted"@
            &&& (fields@[18].1 matches JsonValue::Arr(items) && str_arr_encoding(
                c.email_addresses_auto_extracted@,
                items@,
            ))
            &&& fields@[19].0@ == "emailAddressesBlacklist"@
            &&& (fields@[19].1 matches JsonValue::Arr(items) && str_arr_encoding(
                c.email_addresses_blacklist@,
                items@,
            ))
            &&& fields@[20].0@ == "emailAddresses"@
            &&& (fields@[20].1 matches JsonValue::Arr(items) && str_arr_encoding(
                c.email_addresses@,
                items@,
            ))
            &&& pair_is_uint(fields@[21], "taskCompleteCount"@, c.task_complete_count as u64)
            &&& pair_is_uint(fields@[22], "taskIncompleteCount"@, c.task_incomplete_count as u64)
            &&& pair_is_uint(fields@[23], "taskOverdueCount"@, c.task_overdue_count as u64)
            &&& pair_is_uint(fields@[24], "taskTotal"@, c.task_total as u64)
            &&& pair_is_uint(fields@[25], "callLogCount"@, c.call_log_count as u64)
            &&& pair_is_uint(fields@[26], "meetingNotesCount"@, c.meeting_notes_count as u64)
            &&& pair_is_uint(fields@[27], "totalCallLogDuration"@, c.total_call_log_duration as u64)
            &&& pair_is_uint(
                fields@[28],
                "totalMeetingNotesDuration"@,
                c.total_meeting_notes_duration as u64,
            )
            &&& pair_is_uint(fields@[29], "followerCount"@, c.follower_count as u64)
            &&& pair_is_uint(fields@[30], "commentCount"@, c.comment_count as u64)
            &&& pair_is_uint(fields@[31], "gmailThreadCount"@, c.gmail_thread_count as u64)
            &&& pair_is_uint(fields@[32], "fileCount"@, c.file_count as u64)
            &&& fields@[33].0@ == "fields"@
            &&& (fields@[33].1 matches JsonValue::Obj(fs) && field_map_encoding(c.fields@, fs@))
            &&& pair_is_str(fields@[34], "boxKey"@, c.box_key@)
            &&& pair_is_str(fields@[35], "key"@, c.key@)
        },
        _ => false,
    }
}

/// Writes a box back as JSON, in the canonical field order.
pub fn encode_box(c: &Box) -> (r: JsonValue)
    ensures
        box_encoding(*c, r),
{
    let mut fields: Vec<(String, JsonValue)> = Vec::new();
    fields.push(("lastSavedTimestamp".to_owned(), JsonValue::UInt(c.last_saved_timestamp)));
    fields.push(("pipelineKey".to_owned(), JsonValue::Str(c.pipeline_key.clone())));
    fields.push(("creatorKey".to_owned(), JsonValue::Str(c.creator_key.clone())));
    fields.push(("creationTimestamp".to_owned(), JsonValue::UInt(c.creation_timestamp)));
    fields.push(("lastUpdatedTimestamp".to_owned(), JsonValue::UInt(c.last_updated_timestamp)));
    fields.push((
        "lastStageChangeTimestamp".to_owned(),
        JsonValue::UInt(c.last_stage_change_timestamp),
    ));
    fields.push((
        "lastCommentTimestamp".to_owned(),
        match c.last_comment_timestamp {
            Some(u) => JsonValue::UInt(u),
            None => JsonValue::Null,
        },
    ));
    fields.push((
        "totalNumberOfEmails".to_owned(),
        JsonValue::UInt(c.total_number_of_emails as u64),
    ));
    fields.push((
        "totalNumberOfSentEmails".to_owned(),
        JsonValue::UInt(c.total_number_of_sent_emails as u64),
    ));
    fields.push((
        "totalNumberOfReceivedEmails".to_owned(),
        JsonValue::UInt(c.total_number_of_received_emails as u64),
    ));
    fields.push(("name".to_owned(), JsonValue::Str(c.name.clone())));
    fields.push((
        "notes".to_owned(),
        match &c.notes {
            Some(s) => JsonValue::Str(s.clone()),
            None => JsonValue::Null,
        },
    ));
    fields.push((
        "assignedToSharingEntries".to_owned(),
        JsonValue::Arr(encode_users(&c.assigned_to_sharing_entries)),
    ));
    fields.push(("creatorSharingEntry".to_owned(), encode_user(&c.creator_sharing_entry)));
    fields.push((
        "followerSharingEntries".to_owned(),
        JsonValue::Arr(encode_users(&c.follower_sharing_entries)),
    ));
    fields.push(("stageKey".to_owned(), JsonValue::Str(c.stage_key.clone())));
    fields.push(("followerKeys".to_owned(), JsonValue::Arr(encode_str_items(&c.follower_keys))));
    fields.push((
        "linkedBoxKeys".to_owned(),
        JsonValue::Arr(encode_str_items(&c.linked_box_keys)),
    ));
    fields.push((
        "emailAddressesAutoExtracted".to_owned(),
        JsonValue::Arr(encode_str_items(&c.email_addresses_auto_extracted)),
    ));
    fields.push((
        "emailAddressesBlacklist".to_owned(),
        JsonValue::Arr(encode_str_items(&c.email_addresses_blacklist)),
    ));
    fields.push((
        "emailAddresses".to_owned(),
        JsonValue::Arr(encode_str_items(&c.email_addresses)),
    ));
    fields.push(("taskCompleteCount".to_owned(), JsonValue::UInt(c.task_complete_count as u64)));
    fields.push((
        "taskIncompleteCount".to_owned(),
        JsonValue::UInt(c.task_incomplete_count as u64),
    ));
    fields.push(("taskOverdueCount".to_owned(), JsonValue::UInt(c.task_overdue_count as u64)));
    fields.push(("taskTotal".to_owned(), JsonValue::UInt(c.task_total as u64)));
    fields.push(("callLogCount".to_owned(), JsonValue::UInt(c.call_log_count as u64)));
    fields.push(("meetingNotesCount".to_owned(), JsonValue::UInt(c.meeting_notes_count as u64)));
    fields.push((
        "totalCallLogDuration".to_owned(),
        JsonValue::UInt(c.total_call_log_duration as u64),
    ));
    fields.push((
        "totalMeetingNotesDuration".to_owned(),
        JsonValue::UInt(c.total_meeting_notes_duration as u64),
    ));
    fields.push(("followerCount".to_owned(), JsonValue::UInt(c.follower_count as u64)));
    fields.push(("commentCount".to_owned(), JsonValue::UInt(c.comment_count as u64)));
    fields.push(("gmailThreadCount".to_owned(), JsonValue::UInt(c.gmail_thread_count as u64)));
    fields.push(("fileCount".to_owned(), JsonValue::UInt(c.file_count as u64)));
    fields.push(("fields".to_owned(), JsonValue::Obj(encode_field_map(&c.fields))));
    fields.push(("boxKey".to_owned(), JsonValue::Str(c.box_key.clone())));
    fields.push(("key".to_owned(), JsonValue::Str(c.key.clone())));
    JsonValue::Obj(fields)
}

/// Round trip: any encoding of a box is well formed and decodes back to
/// it, sharing entries and custom fields included.
#[verifier::rlimit(100)]
pub proof fn lemma_box_round_trip(c: Box, j: JsonValue)
    requires
        box_encoding(c, j),
    ensures
        box_wf(j),
        box_decodes_to(j, c),
{
    reveal_strlit("lastSavedTimestamp");
    reveal_strlit("pipelineKey");
    reveal_strlit("creatorKey");
    reveal_strlit("creationTimestamp");
    reveal_strlit("lastUpdatedTimestamp");
    reveal_strlit("lastStageChangeTimestamp");
    reveal_strlit("lastCommentTimestamp");
    reveal_strlit("totalNumberOfEmails");
    reveal_strlit("totalNumberOfSentEmails");
    reveal_strlit("totalNumberOfReceivedEmails");
    reveal_strlit("name");
    reveal_strlit("notes");
    reveal_strlit("assignedToSharingEntries");
    reveal_strlit("creatorSharingEntry");
    reveal_strlit("followerSharingEntries");
    reveal_strlit("stageKey");
    reveal_strlit("followerKeys");
    reveal_strlit("linkedBoxKeys");
    reveal_strlit("emailAddressesAutoExtracted");
    reveal_strlit("emailAddressesBlacklist");
    reveal_strlit("emailAddresses");
    reveal_strlit("taskCompleteCount");
    reveal_strlit("taskIncompleteCount");
    reveal_strlit("taskOverdueCount");
    reveal_strlit("taskTotal");
    reveal_strlit("callLogCount");
    reveal_strlit("meetingNotesCount");
    reveal_strlit("totalCallLogDuration");
    reveal_strlit("totalMeetingNotesDuration");
    reveal_strlit("followerCount");
    reveal_strlit("commentCount");
    reveal_strlit("gmailThreadCount");
    reveal_strlit("fileCount");
    reveal_strlit("fields");
    reveal_strlit("boxKey");
    reveal_strlit("key");
    assert("lastSavedTimestamp"@.len() == 18);
    assert("pipelineKey"@.len() == 11);
    assert("creatorKey"@.len() == 10);
    assert("creationTimestamp"@.len() == 17);
    assert("lastUpdatedTimestamp"@.len() == 20);
    assert("lastStageChangeTimestamp"@.len() == 24);
    assert("lastCommentTimestamp"@.len() == 20);
    assert("totalNumberOfEmails"@.len() == 19);
    assert("totalNumberOfSentEmails"@.len() == 23);
    assert("totalNumberOfReceivedEmails"@.len() == 27);
    assert("name"@.len() == 4);
    assert("notes"@.len() == 5);
    assert("assignedToSharingEntries"@.len() == 24);
    assert("creatorSharingEntry"@.len() == 19);
    assert("followerSharingEntries"@.len() == 22);
    assert("stageKey"@.len() == 8);
    assert("followerKeys"@.len() == 12);
    assert("linkedBoxKeys"@.len() == 13);
    assert("emailAddressesAutoExtracted"@.len() == 27);
    assert("emailAddressesBlacklist"@.len() == 23);
    assert("emailAddresses"@.len() == 14);
    assert("taskCompleteCount"@.len() == 17);
    assert("taskIncompleteCount"@.len() == 19);
    assert("taskOverdueCount"@.len() == 16);
    assert("taskTotal"@.len() == 9);
    assert("callLogCount"@.len() == 12);
    assert("meetingNotesCount"@.len() == 17);
    assert("totalCallLogDuration"@.len() == 20);
    assert("totalMeetingNotesDuration"@.len() == 25);
    assert("followerCount"@.len() == 13);
    assert("commentCount"@.len() == 12);
    assert("gmailThreadCount"@.len() == 16);
    assert("fileCount"@.len() == 9);
    assert("fields"@.len() == 6);
    assert("boxKey"@.len() == 6);
    assert("key"@.len() == 3);
    assert("fields"@[0] == 'f');
    assert("boxKey"@[0] == 'b');
    assert("taskTotal"@[0] == 't');
    assert("fileCount"@[0] == 'f');
    assert("followerKeys"@[0] == 'f');
    assert("callLogCount"@[0] == 'c');
    assert("commentCount"@[0] == 'c');
    assert("callLogCount"@[1] == 'a');
    assert("commentCount"@[1] == 'o');
    assert("linkedBoxKeys"@[0] == 'l');
    assert("followerCount"@[0] == 'f');
    assert("taskOverdueCount"@[0] == 't');
    assert("gmailThreadCount"@[0] == 'g');
    assert("creationTimestamp"@[0] == 'c');
    assert("taskCompleteCount"@[0] == 't');
    assert("meetingNotesCount"@[0] == 'm');
    assert("totalNumberOfEmails"@[0] == 't');
    assert("creatorSharingEntry"@[0] == 'c');
    assert("taskIncompleteCount"@[0] == 't');
    assert("totalNumberOfEmails"@[1] == 'o');
    assert("taskIncompleteCount"@[1] == 'a');
    assert("lastUpdatedTimestamp"@[0] == 'l');
    assert("lastCommentTimestamp"@[0] == 'l');
    assert("totalCallLogDuration"@[0] == 't');
    assert("lastUpdatedTimestamp"@[4] == 'U');
    assert("lastCommentTimestamp"@[4] == 'C');
    assert("totalNumberOfSentEmails"@[0] == 't');
    assert("emailAddressesBlacklist"@[0] == 'e');
    assert("lastStageChangeTimestamp"@[0] == 'l');
    assert("assignedToSharingEntries"@[0] == 'a');
    assert("totalNumberOfReceivedEmails"@[0] == 't');
    assert("emailAddressesAutoExtracted"@[0] == 'e');
    let fields = j->Obj_0;
    lemma_obj_get_at(fields@, "lastSavedTimestamp"@, 0);
    lemma_obj_get_at(fields@, "pipelineKey"@, 1);
    lemma_obj_get_at(fields@, "creatorKey"@, 2);
    lemma_obj_get_at(fields@, "creationTimestamp"@, 3);
    lemma_obj_get_at(fields@, "lastUpdatedTimestamp"@, 4);
    lemma_obj_get_at(fields@, "lastStageChangeTimestamp"@, 5);
    lemma_obj_get_at(fields@, "lastCommentTimestamp"@, 6);
    lemma_obj_get_at(fields@, "totalNumberOfEmails"@, 7);
    lemma_obj_get_at(fields@, "totalNumberOfSentEmails"@, 8);
    lemma_obj_get_at(fields@, "totalNumberOfReceivedEmails"@, 9);
    lemma_obj_get_at(fields@, "name"@, 10);
    lemma_obj_get_at(fields@, "notes"@, 11);
    lemma_obj_get_at(fields@, "assignedToSharingEntries"@, 12);
    lemma_obj_get_at(fields@, "creatorSharingEntry"@, 13);
    lemma_obj_get_at(fields@, "followerSharingEntries"@, 14);
    lemma_obj_get_at(fields@, "stageKey"@, 15);
    lemma_obj_get_at(fields@, "followerKeys"@, 16);
    lemma_obj_get_at(fields@, "linkedBoxKeys"@, 17);
    lemma_obj_get_at(fields@, "emailAddressesAutoExtracted"@, 18);
    lemma_obj_get_at(fields@, "emailAddressesBlacklist"@, 19);
    lemma_obj_get_at(fields@, "emailAddresses"@, 20);
    lemma_obj_get_at(fields@, "taskCompleteCount"@, 21);
    lemma_obj_get_at(fields@, "taskIncompleteCount"@, 22);
    lemma_obj_get_at(fields@, "taskOverdueCount"@, 23);
    lemma_obj_get_at(fields@, "taskTotal"@, 24);
    lemma_obj_get_at(fields@, "callLogCount"@, 25);
    lemma_obj_get_at(fields@, "meetingNotesCount"@, 26);
    lemma_obj_get_at(fields@, "totalCallLogDuration"@, 27);
    lemma_obj_get_at(fields@, "totalMeetingNotesDuration"@, 28);
    lemma_obj_get_at(fields@, "followerCount"@, 29);
    lemma_obj_get_at(fields@, "commentCount"@, 30);
    lemma_obj_get_at(fields@, "gmailThreadCount"@, 31);
    lemma_obj_get_at(fields@, "fileCount"@, 32);
    lemma_obj_get_at(fields@, "fields"@, 33);
    lemma_obj_get_at(fields@, "boxKey"@, 34);
    lemma_obj_get_at(fields@, "key"@, 35);
    let users_a = fields@[12].1->Arr_0;
    assert forall|i: int| 0 <= i < users_a@.len() implies user_wf(#[trigger] users_a@[i])
        && user_decodes_to(users_a@[i], c.assigned_to_sharing_entries@[i]) by {
        lemma_user_round_trip(c.assigned_to_sharing_entries@[i], users_a@[i]);
    }
    lemma_user_round_trip(c.creator_sharing_entry, fields@[13].1);
    let users_f = fields@[14].1->Arr_0;
    assert forall|i: int| 0 <= i < users_f@.len() implies user_wf(#[trigger] users_f@[i])
        && user_decodes_to(users_f@[i], c.follower_sharing_entries@[i]) by {
        lemma_user_round_trip(c.follower_sharing_entries@[i], users_f@[i]);
    }
    let fm = fields@[33].1->Obj_0;
    assert forall|i: int| 0 <= i < fm@.len() implies field_value_wf((#[trigger] fm@[i]).1)
        && field_value_decodes_to(fm@[i].1, c.fields@[i].1) by {
        lemma_field_value_round_trip(c.fields@[i].1, fm@[i].1);
    }
}

// ------------------------------------------------------------- endpoints

/// The resource path of a single-box fetch.
pub fn get_path(box_key: &str) -> (r: String)
    ensures
        r@ == "boxes/"@ + box_key@,
{
    let mut r = "boxes/".to_owned();
    r.append(box_key);
    r
}

/// The resource path of the list of boxes in one pipeline.
pub fn list_path(pipeline_key: &str) -> (r: String)
    ensures
        r@ == "pipelines/"@ + pipeline_key@ + "/boxes"@,
{
    let mut r = "pipelines/".to_owned();
    r.append(pipeline_key);
    r.append("/boxes");
    r
}

/// Decodes the body of a single-box fetch into a box record.
pub fn get(v: &JsonValue) -> (r: Result<Box, StreakError>)
    ensures
        r is Ok <==> box_wf(*v),
        (r matches Ok(c) ==> box_decodes_to(*v, c)),
        (r matches Err(e) ==> e@ == ErrV::JsonParseError("malformed box record"@)),
{
    decode_box(v)
}

/// Every element of a list body reads as a box.
pub open spec fn boxes_arr_wf(items: Seq<JsonValue>) -> bool {
    forall|i: int| 0 <= i < items.len() ==> box_wf(#[trigger] items[i])
}

/// How a decoded box list reads against its array body.
pub open spec fn boxes_arr_decodes_to(items: Seq<JsonValue>, out: Seq<Box>) -> bool {
    &&& out.len() == items.len()
    &&& forall|i: int| 0 <= i < items.len() ==> box_decodes_to(#[trigger] items[i], out[i])
}

/// Decodes the body of the box-list endpoint: a JSON array of box records.
pub fn list(v: &JsonValue) -> (r: Result<Vec<Box>, StreakError>)
    ensures
        r is Ok <==> (v matches JsonValue::Arr(items) && boxes_arr_wf(items@)),
        (r matches Ok(out) ==> v matches JsonValue::Arr(items) && boxes_arr_decodes_to(
            items@,
            out@,
        )),
        (r matches Err(e) ==> e@ == ErrV::JsonParseError("malformed box record"@)),
{
    let arr = match v {
        JsonValue::Arr(items) => items,
        _ => {
            return Err(parse_error());
        },
    };
    let mut out: Vec<Box> = Vec::new();
    let mut i: usize = 0;
    while i < arr.len()
        invariant
            i <= arr.len(),
            out@.len() == i,
            *v == JsonValue::Arr(*arr),
            forall|k: int| 0 <= k < i ==> box_decodes_to(#[trigger] arr@[k], out@[k]),
            forall|k: int| 0 <= k < i ==> box_wf(#[trigger] arr@[k]),
        decreases arr.len() - i,
    {
        match decode_box(&arr[i]) {
            Ok(c) => out.push(c),
            Err(e) => {
                return Err(e);
            },
        }
        i = i + 1;
    }
    Ok(out)
}

/// The error value every malformed box body maps to.
fn parse_error() -> (e: StreakError)
    ensures
        e@ == ErrV::JsonParseError("malformed box record"@),
{
    StreakError::JsonParseError("malformed box record".to_owned())
}

} // verus!
