//! Pipeline records and their JSON codecs.
//!
//! A pipeline arrives as a JSON object under camel-case keys; the decoders
//! below read one (or a list) out of a parsed body, and the encoders write
//! the same shape back. The stages map is held as a list of key/stage pairs
//! in the order the parser hands them out.

use vstd::prelude::*;
use vstd::string::StringExecFns;
use crate::error::{ErrV, StreakError};
use crate::json::{
    JsonValue, lemma_obj_get_at, spec_get, spec_get_arr, spec_get_bool, spec_get_i32,
    spec_get_i64, spec_get_opt_bool, spec_get_opt_i64, spec_get_opt_str, spec_get_str,
    str_arr_decodes_to, str_arr_encoding, str_arr_wf, decode_str_items, encode_str_items,
};

verus! {

broadcast use vstd::string::group_string_axioms;

/// A pipeline: the workflow a set of boxes moves through.
#[derive(Debug, Clone, PartialEq, Eq)]
pub struct Pipeline {
    pub key: String,
    pub pipeline_key: String,
    pub creator_key: String,
    pub name: String,
    pub description: Option<String>,
    pub org_wide: bool,
    pub fields: Vec<Field>,
    pub stages: Vec<(String, Stage)>,
    pub stage_order: Vec<String>,
    pub acl_entries: Vec<AclEntry>,
    pub owner: Option<AclEntry>,
    pub team_key: String,
    pub team_wide: bool,
    pub creation_timestamp: i64,
    pub last_updated_timestamp: i64,
    pub last_saved_timestamp: i64,
    pub box_count_hint: i32,
    pub box_count: i32,
    pub sharing_restricted_to_org: bool,
    pub sharing_restricted_to_team: bool,
}

/// A custom field a pipeline carries on each of its boxes.
#[derive(Debug, Clone, PartialEq, Eq)]
pub struct Field {
    pub name: String,
    pub key: String,
    pub field_type: String,
    pub last_updated_timestamp: Option<i64>,
    pub dropdown_settings: Option<FieldItems>,
}

/// The choices of a dropdown field.
#[derive(Debug, Clone, PartialEq, Eq)]
pub struct FieldItems {
    pub items: Vec<FieldItem>,
}

/// One choice of a dropdown field.
#[derive(Debug, Clone, PartialEq, Eq)]
pub struct FieldItem {
    pub key: String,
    pub name: String,
}

/// A named step of a pipeline.
#[derive(Debug, Clone, PartialEq, Eq, Hash)]
pub struct Stage {
    pub name: String,
    pub key: String,
    pub color: Color,
    pub box_count: i32,
}

/// The display colors of a stage.
#[derive(Debug, Clone, PartialEq, Eq, Hash)]
pub struct Color {
    pub foreground_color: String,
    pub background_color: String,
}

/// One access-control entry of a pipeline.
#[derive(Debug, Clone, PartialEq, Eq)]
pub struct AclEntry {
    pub full_name: String,
    pub email: String,
    pub is_owner: Option<bool>,
    pub image: String,
    pub display_name: String,
    pub user_key: String,
    pub permission_set_name: String,
}

/// One `key: string-value` pair of an encoded object.
pub open spec fn pair_is_str(p: (String, JsonValue), key: Seq<char>, val: Seq<char>) -> bool {
    p.0@ == key && (p.1 matches JsonValue::Str(s) && s@ == val)
}

/// One `key: integer-value` pair of an encoded object.
pub open spec fn pair_is_int(p: (String, JsonValue), key: Seq<char>, val: i64) -> bool {
    p.0@ == key && p.1 == JsonValue::Int(val)
}

/// One `key: boolean-value` pair of an encoded object.
pub open spec fn pair_is_bool(p: (String, JsonValue), key: Seq<char>, val: bool) -> bool {
    p.0@ == key && p.1 == JsonValue::Bool(val)
}

/// One optional-string pair: `null` for an absent value.
pub open spec fn pair_is_opt_str(p: (String, JsonValue), key: Seq<char>, val: Option<String>) -> bool {
    p.0@ == key && (match val {
        Some(s) => p.1 matches JsonValue::Str(t) && t@ == s@,
        None => p.1 == JsonValue::Null,
    })
}

/// One optional-integer pair: `null` for an absent value.
pub open spec fn pair_is_opt_i64(p: (String, JsonValue), key: Seq<char>, val: Option<i64>) -> bool {
    p.0@ == key && (match val {
        Some(i) => p.1 == JsonValue::Int(i),
        None => p.1 == JsonValue::Null,
    })
}

/// One optional-boolean pair: `null` for an absent value.
pub open spec fn pair_is_opt_bool(p: (String, JsonValue), key: Seq<char>, val: Option<bool>) -> bool {
    p.0@ == key && (match val {
        Some(b) => p.1 == JsonValue::Bool(b),
        None => p.1 == JsonValue::Null,
    })
}

// ---------------------------------------------------------------- Color

/// A body that reads as a color record.
pub open spec fn color_wf(j: JsonValue) -> bool {
    &&& spec_get_str(j, "foregroundColor"@) is Some
    &&& spec_get_str(j, "backgroundColor"@) is Some
}

/// How a decoded color reads against its body.
pub open spec fn color_decodes_to(j: JsonValue, c: Color) -> bool {
    &&& spec_get_str(j, "foregroundColor"@) == Some(c.foreground_color@)
    &&& spec_get_str(j, "backgroundColor"@) == Some(c.background_color@)
}

/// The canonical encoding of a color.
pub open spec fn color_encoding(c: Color, j: JsonValue) -> bool {
    match j {
        JsonValue::Obj(fields) => {
            &&& fields@.len() == 2
            &&& pair_is_str(fields@[0], "foregroundColor"@, c.foreground_color@)
            &&& pair_is_str(fields@[1], "backgroundColor"@, c.background_color@)
        },
        _ => false,
    }
}

/// Reads a color out of a parsed body.
pub fn decode_color(v: &JsonValue) -> (r: Result<Color, StreakError>)
    ensures
        r is Ok <==> color_wf(*v),
        (r matches Ok(c) ==> color_decodes_to(*v, c)),
        (r matches Err(e) ==> e@ == ErrV::JsonParseError("malformed pipeline record"@)),
{
    let foreground_color = match v.get_str("foregroundColor") {
        Some(s) => s,
        None => {
            return Err(parse_error());
        },
    };
    let background_color = match v.get_str("backgroundColor") {
        Some(s) => s,
        None => {
            return Err(parse_error());
        },
    };
    Ok(Color { foreground_color, background_color })
}

/// Writes a color back as JSON.
pub fn encode_color(c: &Color) -> (r: JsonValue)
    ensures
        color_encoding(*c, r),
{
    let mut fields: Vec<(String, JsonValue)> = Vec::new();
    fields.push(("foregroundColor".to_owned(), JsonValue::Str(c.foreground_color.clone())));
    fields.push(("backgroundColor".to_owned(), JsonValue::Str(c.background_color.clone())));
    JsonValue::Obj(fields)
}

/// Round trip: any encoding of a color is well formed and decodes back to
/// the same record.
pub proof fn lemma_color_round_trip(c: Color, j: JsonValue)
    requires
        color_encoding(c, j),
    ensures
        color_wf(j),
        color_decodes_to(j, c),
{
    reveal_strlit("foregroundColor");
    reveal_strlit("backgroundColor");
    assert("foregroundColor"@.len() == 15);
    assert("backgroundColor"@.len() == 15);
    assert("foregroundColor"@[0] == 'f');
    assert("backgroundColor"@[0] == 'b');
    let fields = j->Obj_0;
    lemma_obj_get_at(fields@, "foregroundColor"@, 0);
    lemma_obj_get_at(fields@, "backgroundColor"@, 1);
}

// ------------------------------------------------------------- FieldItem

/// A body that reads as a dropdown choice.
pub open spec fn field_item_wf(j: JsonValue) -> bool {
    &&& spec_get_str(j, "key"@) is Some
    &&& spec_get_str(j, "name"@) is Some
}

/// How a decoded dropdown choice reads against its body.
pub open spec fn field_item_decodes_to(j: JsonValue, c: FieldItem) -> bool {
    &&& spec_get_str(j, "key"@) == Some(c.key@)
    &&& spec_get_str(j, "name"@) == Some(c.name@)
}

/// The canonical encoding of a dropdown choice.
pub open spec fn field_item_encoding(c: FieldItem, j: JsonValue) -> bool {
    match j {
        JsonValue::Obj(fields) => {
            &&& fields@.len() == 2
            &&& pair_is_str(fields@[0], "key"@, c.key@)
            &&& pair_is_str(fields@[1], "name"@, c.name@)
        },
        _ => false,
    }
}

/// Reads a dropdown choice out of a parsed body.
pub fn decode_field_item(v: &JsonValue) -> (r: Result<FieldItem, StreakError>)
    ensures
        r is Ok <==> field_item_wf(*v),
        (r matches Ok(c) ==> field_item_decodes_to(*v, c)),
        (r matches Err(e) ==> e@ == ErrV::JsonParseError("malformed pipeline record"@)),
{
    let key = match v.get_str("key") {
        Some(s) => s,
        None => {
            return Err(parse_error());
        },
    };
    let name = match v.get_str("name") {
        Some(s) => s,
        None => {
            return Err(parse_error());
        },
    };
    Ok(FieldItem { key, name })
}

/// Writes a dropdown choice back as JSON.
pub fn encode_field_item(c: &FieldItem) -> (r: JsonValue)
    ensures
        field_item_encoding(*c, r),
{
    let mut fields: Vec<(String, JsonValue)> = Vec::new();
    fields.push(("key".to_owned(), JsonValue::Str(c.key.clone())));
    fields.push(("name".to_owned(), JsonValue::Str(c.name.clone())));
    JsonValue::Obj(fields)
}

/// Round trip: any encoding of a dropdown choice decodes back to it.
pub proof fn lemma_field_item_round_trip(c: FieldItem, j: JsonValue)
    requires
        field_item_encoding(c, j),
    ensures
        field_item_wf(j),
        field_item_decodes_to(j, c),
{
    reveal_strlit("key");
    reveal_strlit("name");
    assert("key"@.len() == 3);
    assert("name"@.len() == 4);
    let fields = j->Obj_0;
    lemma_obj_get_at(fields@, "key"@, 0);
    lemma_obj_get_at(fields@, "name"@, 1);
}

// ------------------------------------------------------------ FieldItems

/// Every element of a dropdown-choice array reads as a choice.
pub open spec fn field_items_arr_wf(items: Seq<JsonValue>) -> bool {
    forall|i: int| 0 <= i < items.len() ==> field_item_wf(#[trigger] items[i])
}

/// How a decoded choice list reads against its array body.
pub open spec fn field_items_arr_decodes_to(items: Seq<JsonValue>, out: Seq<FieldItem>) -> bool {
    &&& out.len() == items.len()
    &&& forall|i: int| 0 <= i < items.len() ==> field_item_decodes_to(#[trigger] items[i], out[i])
}

/// The canonical encoding of a choice list, element for element.
pub open spec fn field_items_arr_encoding(out: Seq<FieldItem>, items: Seq<JsonValue>) -> bool {
    &&& items.len() == out.len()
    &&& forall|i: int| 0 <= i < items.len() ==> field_item_encoding(out[i], #[trigger] items[i])
}

/// A body that reads as a dropdown-settings record.
pub open spec fn field_items_wf(j: JsonValue) -> bool {
    match spec_get_arr(j, "items"@) {
        Some(items) => field_items_arr_wf(items),
        None => false,
    }
}

/// How decoded dropdown settings read against their body.
pub open spec fn field_items_decodes_to(j: JsonValue, c: FieldItems) -> bool {
    match spec_get_arr(j, "items"@) {
        Some(items) => field_items_arr_decodes_to(items, c.items@),
        None => false,
    }
}

/// The canonical encoding of dropdown settings.
pub open spec fn field_items_encoding(c: FieldItems, j: JsonValue) -> bool {
    match j {
        JsonValue::Obj(fields) => {
            &&& fields@.len() == 1
            &&& fields@[0].0@ == "items"@
            &&& (fields@[0].1 matches JsonValue::Arr(items) && field_items_arr_encoding(
                c.items@,
                items@,
            ))
        },
        _ => false,
    }
}

/// Reads dropdown settings out of a parsed body.
pub fn decode_field_items(v: &JsonValue) -> (r: Result<FieldItems, StreakError>)
    ensures
        r is Ok <==> field_items_wf(*v),
        (r matches Ok(c) ==> field_items_decodes_to(*v, c)),
        (r matches Err(e) ==> e@ == ErrV::JsonParseError("malformed pipeline record"@)),
{
    let arr = match v.get_arr("items") {
        Some(items) => items,
        None => {
            return Err(parse_error());
        },
    };
    let mut out: Vec<FieldItem> = Vec::new();
    let mut i: usize = 0;
    while i < arr.len()
        invariant
            i <= arr.len(),
            out@.len() == i,
            spec_get_arr(*v, "items"@) == Some(arr@),
            forall|k: int| 0 <= k < i ==> field_item_decodes_to(#[trigger] arr@[k], out@[k]),
            forall|k: int| 0 <= k < i ==> field_item_wf(#[trigger] arr@[k]),
        decreases arr.len() - i,
    {
        match decode_field_item(&arr[i]) {
            Ok(c) => out.push(c),
            Err(e) => {
                return Err(e);
            },
        }
        i = i + 1;
    }
    Ok(FieldItems { items: out })
}

/// Writes dropdown settings back as JSON.
pub fn encode_field_items(c: &FieldItems) -> (r: JsonValue)
    ensures
        field_items_encoding(*c, r),
{
    let mut items: Vec<JsonValue> = Vec::new();
    let mut i: usize = 0;
    while i < c.items.len()
        invariant
            i <= c.items.len(),
            items@.len() == i,
            forall|k: int| 0 <= k < i ==> field_item_encoding(c.items@[k], #[trigger] items@[k]),
        decreases c.items.len() - i,
    {
        items.push(encode_field_item(&c.items[i]));
        i = i + 1;
    }
    let mut fields: Vec<(String, JsonValue)> = Vec::new();
    fields.push(("items".to_owned(), JsonValue::Arr(items)));
    JsonValue::Obj(fields)
}

/// Round trip: any encoding of dropdown settings decodes back to them.
pub proof fn lemma_field_items_round_trip(c: FieldItems, j: JsonValue)
    requires
        field_items_encoding(c, j),
    ensures
        field_items_wf(j),
        field_items_decodes_to(j, c),
{
    reveal_strlit("items");
    let fields = j->Obj_0;
    lemma_obj_get_at(fields@, "items"@, 0);
    let items = fields@[0].1->Arr_0;
    assert forall|i: int| 0 <= i < items@.len() implies field_item_wf(#[trigger] items@[i])
        && field_item_decodes_to(items@[i], c.items@[i]) by {
        lemma_field_item_round_trip(c.items@[i], items@[i]);
    }
}

// ----------------------------------------------------------------- Field

/// A body that reads as a pipeline field record.
pub open spec fn field_wf(j: JsonValue) -> bool {
    &&& spec_get_str(j, "name"@) is Some
    &&& spec_get_str(j, "key"@) is Some
    &&& spec_get_str(j, "type"@) is Some
    &&& spec_get_opt_i64(j, "lastUpdatedTimestamp"@) is Some
    &&& (match spec_get(j, "dropdownSettings"@) {
        None => true,
        Some(JsonValue::Null) => true,
        Some(d) => field_items_wf(d),
    })
}

/// How a decoded field record reads against its body.
pub open spec fn field_decodes_to(j: JsonValue, c: Field) -> bool {
    &&& spec_get_str(j, "name"@) == Some(c.name@)
    &&& spec_get_str(j, "key"@) == Some(c.key@)
    &&& spec_get_str(j, "type"@) == Some(c.field_type@)
    &&& spec_get_opt_i64(j, "lastUpdatedTimestamp"@) == Some(c.last_updated_timestamp)
    &&& (match spec_get(j, "dropdownSettings"@) {
        None => c.dropdown_settings is None,
        Some(JsonValue::Null) => c.dropdown_settings is None,
        Some(d) => c.dropdown_settings matches Some(ds) && field_items_decodes_to(d, ds),
    })
}

/// The canonical encoding of a field record.
pub open spec fn field_encoding(c: Field, j: JsonValue) -> bool {
    match j {
        JsonValue::Obj(fields) => {
            &&& fields@.len() == 5
            &&& pair_is_str(fields@[0], "name"@, c.name@)
            &&& pair_is_str(fields@[1], "key"@, c.key@)
            &&& pair_is_str(fields@[2], "type"@, c.field_type@)
            &&& pair_is_opt_i64(fields@[3], "lastUpdatedTimestamp"@, c.last_updated_timestamp)
            &&& fields@[4].0@ == "dropdownSettings"@
            &&& (match c.dropdown_settings {
                Some(ds) => field_items_encoding(ds, fields@[4].1),
                None => fields@[4].1 == JsonValue::Null,
            })
        },
        _ => false,
    }
}

/// Reads a field record out of a parsed body.
pub fn decode_field(v: &JsonValue) -> (r: Result<Field, StreakError>)
    ensures
        r is Ok <==> field_wf(*v),
        (r matches Ok(c) ==> field_decodes_to(*v, c)),
        (r matches Err(e) ==> e@ == ErrV::JsonParseError("malformed pipeline record"@)),
{
    let name = match v.get_str("name") {
        Some(s) => s,
        None => {
            return Err(parse_error());
        },
    };
    let key = match v.get_str("key") {
        Some(s) => s,
        None => {
            return Err(parse_error());
        },
    };
    let field_type = match v.get_str("type") {
        Some(s) => s,
        None => {
            return Err(parse_error());
        },
    };
    let last_updated_timestamp = match v.get_opt_i64("lastUpdatedTimestamp") {
        Some(o) => o,
        None => {
            return Err(parse_error());
        },
    };
    let dropdown_settings = match v.get("dropdownSettings") {
        None => None,
        Some(JsonValue::Null) => None,
        Some(d) => match decode_field_items(d) {
            Ok(ds) => Some(ds),
            Err(e) => {
                return Err(e);
            },
        },
    };
    Ok(Field { name, key, field_type, last_updated_timestamp, dropdown_settings })
}

/// Writes a field record back as JSON.
pub fn encode_field(c: &Field) -> (r: JsonValue)
    ensures
        field_encoding(*c, r),
{
    let mut fields: Vec<(String, JsonValue)> = Vec::new();
    fields.push(("name".to_owned(), JsonValue::Str(c.name.clone())));
    fields.push(("key".to_owned(), JsonValue::Str(c.key.clone())));
    fields.push(("type".to_owned(), JsonValue::Str(c.field_type.clone())));
    fields.push((
        "lastUpdatedTimestamp".to_owned(),
        match c.last_updated_timestamp {
            Some(i) => JsonValue::Int(i),
            None => JsonValue::Null,
        },
    ));
    fields.push((
        "dropdownSettings".to_owned(),
        match &c.dropdown_settings {
            Some(ds) => encode_field_items(ds),
            None => JsonValue::Null,
        },
    ));
    JsonValue::Obj(fields)
}

/// Round trip: any encoding of a field record decodes back to it.
pub proof fn lemma_field_round_trip(c: Field, j: JsonValue)
    requires
        field_encoding(c, j),
    ensures
        field_wf(j),
        field_decodes_to(j, c),
{
    reveal_strlit("name");
    reveal_strlit("key");
    reveal_strlit("type");
    reveal_strlit("lastUpdatedTimestamp");
    reveal_strlit("dropdownSettings");
    assert("name"@.len() == 4);
    assert("key"@.len() == 3);
    assert("type"@.len() == 4);
    assert("lastUpdatedTimestamp"@.len() == 20);
    assert("dropdownSettings"@.len() == 16);
    assert("name"@[0] == 'n');
    assert("type"@[0] == 't');
    let fields = j->Obj_0;
    lemma_obj_get_at(fields@, "name"@, 0);
    lemma_obj_get_at(fields@, "key"@, 1);
    lemma_obj_get_at(fields@, "type"@, 2);
    lemma_obj_get_at(fields@, "lastUpdatedTimestamp"@, 3);
    lemma_obj_get_at(fields@, "dropdownSettings"@, 4);
    match c.dropdown_settings {
        Some(ds) => lemma_field_items_round_trip(ds, fields@[4].1),
        None => (),
    }
}

// ----------------------------------------------------------------- Stage

/// A body that reads as a stage record.
pub open spec fn stage_wf(j: JsonValue) -> bool {
    &&& spec_get_str(j, "name"@) is Some
    &&& spec_get_str(j, "key"@) is Some
    &&& (match spec_get(j, "color"@) {
        Some(cv) => color_wf(cv),
        None => false,
    })
    &&& spec_get_i32(j, "boxCount"@) is Some
}

/// How a decoded stage reads against its body.
pub open spec fn stage_decodes_to(j: JsonValue, c: Stage) -> bool {
    &&& spec_get_str(j, "name"@) == Some(c.name@)
    &&& spec_get_str(j, "key"@) == Some(c.key@)
    &&& (match spec_get(j, "color"@) {
        Some(cv) => color_decodes_to(cv, c.color),
        None => false,
    })
    &&& spec_get_i32(j, "boxCount"@) == Some(c.box_count)
}

/// The canonical encoding of a stage.
pub open spec fn stage_encoding(c: Stage, j: JsonValue) -> bool {
    match j {
        JsonValue::Obj(fields) => {
            &&& fields@.len() == 4
            &&& pair_is_str(fields@[0], "name"@, c.name@)
            &&& pair_is_str(fields@[1], "key"@, c.key@)
            &&& fields@[2].0@ == "color"@
            &&& color_encoding(c.color, fields@[2].1)
            &&& pair_is_int(fields@[3], "boxCount"@, c.box_count as i64)
        },
        _ => false,
    }
}

/// Reads a stage out of a parsed body.
pub fn decode_stage(v: &JsonValue) -> (r: Result<Stage, StreakError>)
    ensures
        r is Ok <==> stage_wf(*v),
        (r matches Ok(c) ==> stage_decodes_to(*v, c)),
        (r matches Err(e) ==> e@ == ErrV::JsonParseError("malformed pipeline record"@)),
{
    let name = match v.get_str("name") {
        Some(s) => s,
        None => {
            return Err(parse_error());
        },
    };
    let key = match v.get_str("key") {
        Some(s) => s,
        None => {
            return Err(parse_error());
        },
    };
    let color = match v.get("color") {
        Some(cv) => match decode_color(cv) {
            Ok(c) => c,
            Err(e) => {
                return Err(e);
            },
        },
        None => {
            return Err(parse_error());
        },
    };
    let box_count = match v.get_i32("boxCount") {
        Some(i) => i,
        None => {
            return Err(parse_error());
        },
    };
    Ok(Stage { name, key, color, box_count })
}

/// Writes a stage back as JSON.
pub fn encode_stage(c: &Stage) -> (r: JsonValue)
    ensures
        stage_encoding(*c, r),
{
    let mut fields: Vec<(String, JsonValue)> = Vec::new();
    fields.push(("name".to_owned(), JsonValue::Str(c.name.clone())));
    fields.push(("key".to_owned(), JsonValue::Str(c.key.clone())));
    fields.push(("color".to_owned(), encode_color(&c.color)));
    fields.push(("boxCount".to_owned(), JsonValue::Int(c.box_count as i64)));
    JsonValue::Obj(fields)
}

/// Round trip: any encoding of a stage decodes back to it.
pub proof fn lemma_stage_round_trip(c: Stage, j: JsonValue)
    requires
        stage_encoding(c, j),
    ensures
        stage_wf(j),
        stage_decodes_to(j, c),
{
    reveal_strlit("name");
    reveal_strlit("key");
    reveal_strlit("color");
    reveal_strlit("boxCount");
    assert("name"@.len() == 4);
    assert("key"@.len() == 3);
    assert("color"@.len() == 5);
    assert("boxCount"@.len() == 8);
    let fields = j->Obj_0;
    lemma_obj_get_at(fields@, "name"@, 0);
    lemma_obj_get_at(fields@, "key"@, 1);
    lemma_obj_get_at(fields@, "color"@, 2);
    lemma_obj_get_at(fields@, "boxCount"@, 3);
    lemma_color_round_trip(c.color, fields@[2].1);
}

// -------------------------------------------------------------- AclEntry

/// A body that reads as an access-control entry.
pub open spec fn acl_wf(j: JsonValue) -> bool {
    &&& spec_get_str(j, "fullName"@) is Some
    &&& spec_get_str(j, "email"@) is Some
    &&& spec_get_opt_bool(j, "isOwner"@) is Some
    &&& spec_get_str(j, "image"@) is Some
    &&& spec_get_str(j, "displayName"@) is Some
    &&& spec_get_str(j, "userKey"@) is Some
    &&& spec_get_str(j, "permissionSetName"@) is Some
}

/// How a decoded access-control entry reads against its body.
pub open spec fn acl_decodes_to(j: JsonValue, c: AclEntry) -> bool {
    &&& spec_get_str(j, "fullName"@) == Some(c.full_name@)
    &&& spec_get_str(j, "email"@) == Some(c.email@)
    &&& spec_get_opt_bool(j, "isOwner"@) == Some(c.is_owner)
    &&& spec_get_str(j, "image"@) == Some(c.image@)
    &&& spec_get_str(j, "displayName"@) == Some(c.display_name@)
    &&& spec_get_str(j, "userKey"@) == Some(c.user_key@)
    &&& spec_get_str(j, "permissionSetName"@) == Some(c.permission_set_name@)
}

/// The canonical encoding of an access-control entry.
pub open spec fn acl_encoding(c: AclEntry, j: JsonValue) -> bool {
    match j {
        JsonValue::Obj(fields) => {
            &&& fields@.len() == 7
            &&& pair_is_str(fields@[0], "fullName"@, c.full_name@)
            &&& pair_is_str(fields@[1], "email"@, c.email@)
            &&& pair_is_opt_bool(fields@[2], "isOwner"@, c.is_owner)
            &&& pair_is_str(fields@[3], "image"@, c.image@)
            &&& pair_is_str(fields@[4], "displayName"@, c.display_name@)
            &&& pair_is_str(fields@[5], "userKey"@, c.user_key@)
            &&& pair_is_str(fields@[6], "permissionSetName"@, c.permission_set_name@)
        },
        _ => false,
    }
}

/// Reads an access-control entry out of a parsed body.
pub fn decode_acl_entry(v: &JsonValue) -> (r: Result<AclEntry, StreakError>)
    ensures
        r is Ok <==> acl_wf(*v),
        (r matches Ok(c) ==> acl_decodes_to(*v, c)),
        (r matches Err(e) ==> e@ == ErrV::JsonParseError("malformed pipeline record"@)),
{
    let full_name = match v.get_str("fullName") {
        Some(s) => s,
        None => {
            return Err(parse_error());
        },
    };
    let email = match v.get_str("email") {
        Some(s) => s,
        None => {
            return Err(parse_error());
        },
    };
    let is_owner = match v.get_opt_bool("isOwner") {
        Some(o) => o,
        None => {
            return Err(parse_error());
        },
    };
    let image = match v.get_str("image") {
        Some(s) => s,
        None => {
            return Err(parse_error());
        },
    };
    let display_name = match v.get_str("displayName") {
        Some(s) => s,
        None => {
            return Err(parse_error());
        },
    };
    let user_key = match v.get_str("userKey") {
        Some(s) => s,
        None => {
            return Err(parse_error());
        },
    };
    let permission_set_name = match v.get_str("permissionSetName") {
        Some(s) => s,
        None => {
            return Err(parse_error());
        },
    };
    Ok(AclEntry {
        full_name,
        email,
        is_owner,
        image,
        display_name,
        user_key,
        permission_set_name,
    })
}

/// Writes an access-control entry back as JSON.
pub fn encode_acl_entry(c: &AclEntry) -> (r: JsonValue)
    ensures
        acl_encoding(*c, r),
{
    let mut fields: Vec<(String, JsonValue)> = Vec::new();
    fields.push(("fullName".to_owned(), JsonValue::Str(c.full_name.clone())));
    fields.push(("email".to_owned(), JsonValue::Str(c.email.clone())));
    fields.push((
        "isOwner".to_owned(),
        match c.is_owner {
            Some(b) => JsonValue::Bool(b),
            None => JsonValue::Null,
        },
    ));
    fields.push(("image".to_owned(), JsonValue::Str(c.image.clone())));
    fields.push(("displayName".to_owned(), JsonValue::Str(c.display_name.clone())));
    fields.push(("userKey".to_owned(), JsonValue::Str(c.user_key.clone())));
    fields.push(("permissionSetName".to_owned(), JsonValue::Str(c.permission_set_name.clone())));
    JsonValue::Obj(fields)
}

/// Round trip: any encoding of an access-control entry decodes back to it.
pub proof fn lemma_acl_round_trip(c: AclEntry, j: JsonValue)
    requires
        acl_encoding(c, j),
    ensures
        acl_wf(j),
        acl_decodes_to(j, c),
{
    reveal_strlit("fullName");
    reveal_strlit("email");
    reveal_strlit("isOwner");
    reveal_strlit("image");
    reveal_strlit("displayName");
    reveal_strlit("userKey");
    reveal_strlit("permissionSetName");
    assert("fullName"@.len() == 8);
    assert("email"@.len() == 5);
    assert("isOwner"@.len() == 7);
    assert("image"@.len() == 5);
    assert("displayName"@.len() == 11);
    assert("userKey"@.len() == 7);
    assert("permissionSetName"@.len() == 17);
    assert("email"@[0] == 'e');
    assert("image"@[0] == 'i');
    assert("isOwner"@[0] == 'i');
    assert("userKey"@[0] == 'u');
    let fields = j->Obj_0;
    lemma_obj_get_at(fields@, "fullName"@, 0);
    lemma_obj_get_at(fields@, "email"@, 1);
    lemma_obj_get_at(fields@, "isOwner"@, 2);
    lemma_obj_get_at(fields@, "image"@, 3);
    lemma_obj_get_at(fields@, "displayName"@, 4);
    lemma_obj_get_at(fields@, "userKey"@, 5);
    lemma_obj_get_at(fields@, "permissionSetName"@, 6);
}

// ----------------------------------------------------- arrays and stages

/// Every element of a field array reads as a field record.
pub open spec fn fields_arr_wf(items: Seq<JsonValue>) -> bool {
    forall|i: int| 0 <= i < items.len() ==> field_wf(#[trigger] items[i])
}

/// How a decoded field list reads against its array body.
pub open spec fn fields_arr_decodes_to(items: Seq<JsonValue>, out: Seq<Field>) -> bool {
    &&& out.len() == items.len()
    &&& forall|i: int| 0 <= i < items.len() ==> field_decodes_to(#[trigger] items[i], out[i])
}

/// The canonical encoding of a field list, element for element.
pub open spec fn fields_arr_encoding(out: Seq<Field>, items: Seq<JsonValue>) -> bool {
    &&& items.len() == out.len()
    &&& forall|i: int| 0 <= i < items.len() ==> field_encoding(out[i], #[trigger] items[i])
}

/// Reads a list of field records out of an array body.
pub fn decode_fields(arr: &Vec<JsonValue>) -> (r: Result<Vec<Field>, StreakError>)
    ensures
        r is Ok <==> fields_arr_wf(arr@),
        (r matches Ok(out) ==> fields_arr_decodes_to(arr@, out@)),
        (r matches Err(e) ==> e@ == ErrV::JsonParseError("malformed pipeline record"@)),
{
    let mut out: Vec<Field> = Vec::new();
    let mut i: usize = 0;
    while i < arr.len()
        invariant
            i <= arr.len(),
            out@.len() == i,
            forall|k: int| 0 <= k < i ==> field_decodes_to(#[trigger] arr@[k], out@[k]),
            forall|k: int| 0 <= k < i ==> field_wf(#[trigger] arr@[k]),
        decreases arr.len() - i,
    {
        match decode_field(&arr[i]) {
            Ok(c) => out.push(c),
            Err(e) => {
                return Err(e);
            },
        }
        i = i + 1;
    }
    Ok(out)
}

/// Writes a list of field records back as a JSON array.
pub fn encode_fields(out: &Vec<Field>) -> (r: Vec<JsonValue>)
    ensures
        fields_arr_encoding(out@, r@),
{
    let mut items: Vec<JsonValue> = Vec::new();
    let mut i: usize = 0;
    while i < out.len()
        invariant
            i <= out.len(),
            items@.len() == i,
            forall|k: int| 0 <= k < i ==> field_encoding(out@[k], #[trigger] items@[k]),
        decreases out.len() - i,
    {
        items.push(encode_field(&out[i]));
        i = i + 1;
    }
    items
}

/// Every element of an access-control array reads as an entry.
pub open spec fn acls_arr_wf(items: Seq<JsonValue>) -> bool {
    forall|i: int| 0 <= i < items.len() ==> acl_wf(#[trigger] items[i])
}

/// How a decoded entry list reads against its array body.
pub open spec fn acls_arr_decodes_to(items: Seq<JsonValue>, out: Seq<AclEntry>) -> bool {
    &&& out.len() == items.len()
    &&& forall|i: int| 0 <= i < items.len() ==> acl_decodes_to(#[trigger] items[i], out[i])
}

/// The canonical encoding of an entry list, element for element.
pub open spec fn acls_arr_encoding(out: Seq<AclEntry>, items: Seq<JsonValue>) -> bool {
    &&& items.len() == out.len()
    &&& forall|i: int| 0 <= i < items.len() ==> acl_encoding(out[i], #[trigger] items[i])
}

/// Reads a list of access-control entries out of an array body.
pub fn decode_acls(arr: &Vec<JsonValue>) -> (r: Result<Vec<AclEntry>, StreakError>)
    ensures
        r is Ok <==> acls_arr_wf(arr@),
        (r matches Ok(out) ==> acls_arr_decodes_to(arr@, out@)),
        (r matches Err(e) ==> e@ == ErrV::JsonParseError("malformed pipeline record"@)),
{
    let mut out: Vec<AclEntry> = Vec::new();
    let mut i: usize = 0;
    while i < arr.len()
        invariant
            i <= arr.len(),
            out@.len() == i,
            forall|k: int| 0 <= k < i ==> acl_decodes_to(#[trigger] arr@[k], out@[k]),
            forall|k: int| 0 <= k < i ==> acl_wf(#[trigger] arr@[k]),
        decreases arr.len() - i,
    {
        match decode_acl_entry(&arr[i]) {
            Ok(c) => out.push(c),
            Err(e) => {
                return Err(e);
            },
        }
        i = i + 1;
    }
    Ok(out)
}

/// Writes a list of access-control entries back as a JSON array.
pub fn encode_acls(out: &Vec<AclEntry>) -> (r: Vec<JsonValue>)
    ensures
        acls_arr_encoding(out@, r@),
{
    let mut items: Vec<JsonValue> = Vec::new();
    let mut i: usize = 0;
    while i < out.len()
        invariant
            i <= out.len(),
            items@.len() == i,
            forall|k: int| 0 <= k < i ==> acl_encoding(out@[k], #[trigger] items@[k]),
        decreases out.len() - i,
    {
        items.push(encode_acl_entry(&out[i]));
        i = i + 1;
    }
    items
}

/// Every value of a stages object reads as a stage.
pub open spec fn stages_wf(fs: Seq<(String, JsonValue)>) -> bool {
    forall|i: int| 0 <= i < fs.len() ==> stage_wf((#[trigger] fs[i]).1)
}

/// How a decoded key/stage list reads against the stages object: same keys
/// in the same order, each value decoded.
pub open spec fn stages_decode_to(fs: Seq<(String, JsonValue)>, out: Seq<(String, Stage)>) -> bool {
    &&& out.len() == fs.len()
    &&& forall|i: int|
        0 <= i < fs.len() ==> out[i].0@ == (#[trigger] fs[i]).0@ && stage_decodes_to(
            fs[i].1,
            out[i].1,
        )
}

/// The canonical encoding of a key/stage list as an object.
pub open spec fn stages_encoding(out: Seq<(String, Stage)>, fs: Seq<(String, JsonValue)>) -> bool {
    &&& fs.len() == out.len()
    &&& forall|i: int|
        0 <= i < fs.len() ==> (#[trigger] fs[i]).0@ == out[i].0@ && stage_encoding(
            out[i].1,
            fs[i].1,
        )
}

/// Reads the stages object into a key/stage list, keeping the parser's
/// field order.
pub fn decode_stages(fs: &Vec<(String, JsonValue)>) -> (r: Result<
    Vec<(String, Stage)>,
    StreakError,
>)
    ensures
        r is Ok <==> stages_wf(fs@),
        (r matches Ok(out) ==> stages_decode_to(fs@, out@)),
        (r matches Err(e) ==> e@ == ErrV::JsonParseError("malformed pipeline record"@)),
{
    let mut out: Vec<(String, Stage)> = Vec::new();
    let mut i: usize = 0;
    while i < fs.len()
        invariant
            i <= fs.len(),
            out@.len() == i,
            forall|k: int|
                0 <= k < i ==> out@[k].0@ == (#[trigger] fs@[k]).0@ && stage_decodes_to(
                    fs@[k].1,
                    out@[k].1,
                ),
            forall|k: int| 0 <= k < i ==> stage_wf((#[trigger] fs@[k]).1),
        decreases fs.len() - i,
    {
        match decode_stage(&fs[i].1) {
            Ok(st) => out.push((fs[i].0.clone(), st)),
            Err(e) => {
                return Err(e);
            },
        }
        i = i + 1;
    }
    Ok(out)
}

/// Writes a key/stage list back as a JSON object.
pub fn encode_stages(out: &Vec<(String, Stage)>) -> (r: Vec<(String, JsonValue)>)
    ensures
        stages_encoding(out@, r@),
{
    let mut fs: Vec<(String, JsonValue)> = Vec::new();
    let mut i: usize = 0;
    while i < out.len()
        invariant
            i <= out.len(),
            fs@.len() == i,
            forall|k: int|
                0 <= k < i ==> (#[trigger] fs@[k]).0@ == out@[k].0@ && stage_encoding(
                    out@[k].1,
                    fs@[k].1,
                ),
        decreases out.len() - i,
    {
        fs.push((out[i].0.clone(), encode_stage(&out[i].1)));
        i = i + 1;
    }
    fs
}

// -------------------------------------------------------------- Pipeline

/// A body that reads as a pipeline record.
pub open spec fn pipeline_wf(j: JsonValue) -> bool {
    &&& spec_get_str(j, "key"@) is Some
    &&& spec_get_str(j, "pipelineKey"@) is Some
    &&& spec_get_str(j, "creatorKey"@) is Some
    &&& spec_get_str(j, "name"@) is Some
    &&& spec_get_opt_str(j, "description"@) is Some
    &&& spec_get_bool(j, "orgWide"@) is Some
    &&& (match spec_get_arr(j, "fields"@) {
        Some(items) => fields_arr_wf(items),
        None => false,
    })
    &&& (match spec_get(j, "stages"@) {
        Some(JsonValue::Obj(fs)) => stages_wf(fs@),
        _ => false,
    })
    &&& (match spec_get_arr(j, "stageOrder"@) {
        Some(items) => str_arr_wf(items),
        None => false,
    })
    &&& (match spec_get_arr(j, "aclEntries"@) {
        Some(items) => acls_arr_wf(items),
        None => false,
    })
    &&& (match spec_get(j, "owner"@) {
        None => true,
        Some(JsonValue::Null) => true,
        Some(o) => acl_wf(o),
    })
    &&& spec_get_str(j, "teamKey"@) is Some
    &&& spec_get_bool(j, "teamWide"@) is Some
    &&& spec_get_i64(j, "creationTimestamp"@) is Some
    &&& spec_get_i64(j, "lastUpdatedTimestamp"@) is Some
    &&& spec_get_i64(j, "lastSavedTimestamp"@) is Some
    &&& spec_get_i32(j, "boxCountHint"@) is Some
    &&& spec_get_i32(j, "boxCount"@) is Some
    &&& spec_get_bool(j, "sharingRestrictedToOrg"@) is Some
    &&& spec_get_bool(j, "sharingRestrictedToTeam"@) is Some
}

/// How a decoded pipeline reads against its body.
pub open spec fn pipeline_decodes_to(j: JsonValue, c: Pipeline) -> bool {
    &&& spec_get_str(j, "key"@) == Some(c.key@)
    &&& spec_get_str(j, "pipelineKey"@) == Some(c.pipeline_key@)
    &&& spec_get_str(j, "creatorKey"@) == Some(c.creator_key@)
    &&& spec_get_str(j, "name"@) == Some(c.name@)
    &&& spec_get_opt_str(j, "description"@) == Some(c.description.deep_view())
    &&& spec_get_bool(j, "orgWide"@) == Some(c.org_wide)
    &&& (match spec_get_arr(j, "fields"@) {
        Some(items) => fields_arr_decodes_to(items, c.fields@),
        None => false,
    })
    &&& (match spec_get(j, "stages"@) {
        Some(JsonValue::Obj(fs)) => stages_decode_to(fs@, c.stages@),
        _ => false,
    })
    &&& (match spec_get_arr(j, "stageOrder"@) {
        Some(items) => str_arr_decodes_to(items, c.stage_order@),
        None => false,
    })
    &&& (match spec_get_arr(j, "aclEntries"@) {
        Some(items) => acls_arr_decodes_to(items, c.acl_entries@),
        None => false,
    })
    &&& (match spec_get(j, "owner"@) {
        None => c.owner is None,
        Some(JsonValue::Null) => c.owner is None,
        Some(o) => c.owner matches Some(a) && acl_decodes_to(o, a),
    })
    &&& spec_get_str(j, "teamKey"@) == Some(c.team_key@)
    &&& spec_get_bool(j, "teamWide"@) == Some(c.team_wide)
    &&& spec_get_i64(j, "creationTimestamp"@) == Some(c.creation_timestamp)
    &&& spec_get_i64(j, "lastUpdatedTimestamp"@) == Some(c.last_updated_timestamp)
    &&& spec_get_i64(j, "lastSavedTimestamp"@) == Some(c.last_saved_timestamp)
    &&& spec_get_i32(j, "boxCountHint"@) == Some(c.box_count_hint)
    &&& spec_get_i32(j, "boxCount"@) == Some(c.box_count)
    &&& spec_get_bool(j, "sharingRestrictedToOrg"@) == Some(c.sharing_restricted_to_org)
    &&& spec_get_bool(j, "sharingRestrictedToTeam"@) == Some(c.sharing_restricted_to_team)
}

/// The canonical encoding of a pipeline.
pub open spec fn pipeline_encoding(c: Pipeline, j: JsonValue) -> bool {
    match j {
        JsonValue::Obj(fields) => {
            &&& fields@.len() == 20
            &&& pair_is_str(fields@[0], "key"@, c.key@)
            &&& pair_is_str(fields@[1], "pipelineKey"@, c.pipeline_key@)
            &&& pair_is_str(fields@[2], "creatorKey"@, c.creator_key@)
            &&& pair_is_str(fields@[3], "name"@, c.name@)
            &&& pair_is_opt_str(fields@[4], "description"@, c.description)
            &&& pair_is_bool(fields@[5], "orgWide"@, c.org_wide)
            &&& fields@[6].0@ == "fields"@
            &&& (fields@[6].1 matches JsonValue::Arr(items) && fields_arr_encoding(
                c.fields@,
                items@,
            ))
            &&& fields@[7].0@ == "stages"@
            &&& (fields@[7].1 matches JsonValue::Obj(fs) && stages_encoding(c.stages@, fs@))
            &&& fields@[8].0@ == "stageOrder"@
            &&& (fields@[8].1 matches JsonValue::Arr(items) && str_arr_encoding(
                c.stage_order@,
                items@,
            ))
            &&& fields@[9].0@ == "aclEntries"@
            &&& (fields@[9].1 matches JsonValue::Arr(items) && acls_arr_encoding(
                c.acl_entries@,
                items@,
            ))
            &&& fields@[10].0@ == "owner"@
            &&& (match c.owner {
                Some(a) => acl_encoding(a, fields@[10].1),
                None => fields@[10].1 == JsonValue::Null,
            })
            &&& pair_is_str(fields@[11], "teamKey"@, c.team_key@)
            &&& pair_is_bool(fields@[12], "teamWide"@, c.team_wide)
            &&& pair_is_int(fields@[13], "creationTimestamp"@, c.creation_timestamp)
            &&& pair_is_int(fields@[14], "lastUpdatedTimestamp"@, c.last_updated_timestamp)
            &&& pair_is_int(fields@[15], "lastSavedTimestamp"@, c.last_saved_timestamp)
            &&& pair_is_int(fields@[16], "boxCountHint"@, c.box_count_hint as i64)
            &&& pair_is_int(fields@[17], "boxCount"@, c.box_count as i64)
            &&& pair_is_bool(fields@[18], "sharingRestrictedToOrg"@, c.sharing_restricted_to_org)
            &&& pair_is_bool(fields@[19], "sharingRestrictedToTeam"@, c.sharing_restricted_to_team)
        },
        _ => false,
    }
}

/// Reads a pipeline out of a parsed body.
pub fn decode_pipeline(v: &JsonValue) -> (r: Result<Pipeline, StreakError>)
    ensures
        r is Ok <==> pipeline_wf(*v),
        (r matches Ok(c) ==> pipeline_decodes_to(*v, c)),
        (r matches Err(e) ==> e@ == ErrV::JsonParseError("malformed pipeline record"@)),
{
    let key = match v.get_str("key") {
        Some(s) => s,
        None => {
            return Err(parse_error());
        },
    };
    let pipeline_key = match v.get_str("pipelineKey") {
        Some(s) => s,
        None => {
            return Err(parse_error());
        },
    };
    let creator_key = match v.get_str("creatorKey") {
        Some(s) => s,
        None => {
            return Err(parse_error());
        },
    };
    let name = match v.get_str("name") {
        Some(s) => s,
        None => {
            return Err(parse_error());
        },
    };
    let description = match v.get_opt_str("description") {
        Some(o) => o,
        None => {
            return Err(parse_error());
        },
    };
    let org_wide = match v.get_bool("orgWide") {
        Some(b) => b,
        None => {
            return Err(parse_error());
        },
    };
    let fields = match v.get_arr("fields") {
        Some(items) => match decode_fields(items) {
            Ok(out) => out,
            Err(e) => {
                return Err(e);
            },
        },
        None => {
            return Err(parse_error());
        },
    };
    let stages = match v.get("stages") {
        Some(JsonValue::Obj(fs)) => match decode_stages(fs) {
            Ok(out) => out,
            Err(e) => {
                return Err(e);
            },
        },
        _ => {
            return Err(parse_error());
        },
    };
    let stage_order = match v.get_arr("stageOrder") {
        Some(items) => match decode_str_items(items) {
            Some(out) => out,
            None => {
                return Err(parse_error());
            },
        },
        None => {
            return Err(parse_error());
        },
    };
    let acl_entries = match v.get_arr("aclEntries") {
        Some(items) => match decode_acls(items) {
            Ok(out) => out,
            Err(e) => {
                return Err(e);
            },
        },
        None => {
            return Err(parse_error());
        },
    };
    let owner = match v.get("owner") {
        None => None,
        Some(JsonValue::Null) => None,
        Some(o) => match decode_acl_entry(o) {
            Ok(a) => Some(a),
            Err(e) => {
                return Err(e);
            },
        },
    };
    let team_key = match v.get_str("teamKey") {
        Some(s) => s,
        None => {
            return Err(parse_error());
        },
    };
    let team_wide = match v.get_bool("teamWide") {
        Some(b) => b,
        None => {
            return Err(parse_error());
        },
    };
    let creation_timestamp = match v.get_i64("creationTimestamp") {
        Some(i) => i,
        None => {
            return Err(parse_error());
        },
    };
    let last_updated_timestamp = match v.get_i64("lastUpdatedTimestamp") {
        Some(i) => i,
        None => {
            return Err(parse_error());
        },
    };
    let last_saved_timestamp = match v.get_i64("lastSavedTimestamp") {
        Some(i) => i,
        None => {
            return Err(parse_error());
        },
    };
    let box_count_hint = match v.get_i32("boxCountHint") {
        Some(i) => i,
        None => {
            return Err(parse_error());
        },
    };
    let box_count = match v.get_i32("boxCount") {
        Some(i) => i,
        None => {
            return Err(parse_error());
        },
    };
    let sharing_restricted_to_org = match v.get_bool("sharingRestrictedToOrg") {
        Some(b) => b,
        None => {
            return Err(parse_error());
        },
    };
    let sharing_restricted_to_team = match v.get_bool("sharingRestrictedToTeam") {
        Some(b) => b,
        None => {
            return Err(parse_error());
        },
    };
    Ok(Pipeline {
        key,
        pipeline_key,
        creator_key,
        name,
        description,
        org_wide,
        fields,
        stages,
        stage_order,
        acl_entries,
        owner,
        team_key,
        team_wide,
        creation_timestamp,
        last_updated_timestamp,
        last_saved_timestamp,
        box_count_hint,
        box_count,
        sharing_restricted_to_org,
        sharing_restricted_to_team,
    })
}

/// Writes a pipeline back as JSON, in the canonical field order.
pub fn encode_pipeline(c: &Pipeline) -> (r: JsonValue)
    ensures
        pipeline_encoding(*c, r),
{
    let mut fields: Vec<(String, JsonValue)> = Vec::new();
    fields.push(("key".to_owned(), JsonValue::Str(c.key.clone())));
    fields.push(("pipelineKey".to_owned(), JsonValue::Str(c.pipeline_key.clone())));
    fields.push(("creatorKey".to_owned(), JsonValue::Str(c.creator_key.clone())));
    fields.push(("name".to_owned(), JsonValue::Str(c.name.clone())));
    fields.push((
        "description".to_owned(),
        match &c.description {
            Some(s) => JsonValue::Str(s.clone()),
            None => JsonValue::Null,
        },
    ));
    fields.push(("orgWide".to_owned(), JsonValue::Bool(c.org_wide)));
    fields.push(("fields".to_owned(), JsonValue::Arr(encode_fields(&c.fields))));
    fields.push(("stages".to_owned(), JsonValue::Obj(encode_stages(&c.stages))));
    fields.push(("stageOrder".to_owned(), JsonValue::Arr(encode_str_items(&c.stage_order))));
    fields.push(("aclEntries".to_owned(), JsonValue::Arr(encode_acls(&c.acl_entries))));
    fields.push((
        "owner".to_owned(),
        match &c.owner {
            Some(a) => encode_acl_entry(a),
            None => JsonValue::Null,
        },
    ));
    fields.push(("teamKey".to_owned(), JsonValue::Str(c.team_key.clone())));
    fields.push(("teamWide".to_owned(), JsonValue::Bool(c.team_wide)));
    fields.push(("creationTimestamp".to_owned(), JsonValue::Int(c.creation_timestamp)));
    fields.push(("lastUpdatedTimestamp".to_owned(), JsonValue::Int(c.last_updated_timestamp)));
    fields.push(("lastSavedTimestamp".to_owned(), JsonValue::Int(c.last_saved_timestamp)));
    fields.push(("boxCountHint".to_owned(), JsonValue::Int(c.box_count_hint as i64)));
    fields.push(("boxCount".to_owned(), JsonValue::Int(c.box_count as i64)));
    fields.push((
        "sharingRestrictedToOrg".to_owned(),
        JsonValue::Bool(c.sharing_restricted_to_org),
    ));
    fields.push((
        "sharingRestrictedToTeam".to_owned(),
        JsonValue::Bool(c.sharing_restricted_to_team),
    ));
    JsonValue::Obj(fields)
}

/// Round trip: any encoding of a pipeline is well formed and decodes back
/// to it, sub-records included.
#[verifier::rlimit(100)]
pub proof fn lemma_pipeline_round_trip(c: Pipeline, j: JsonValue)
    requires
        pipeline_encoding(c, j),
    ensures
        pipeline_wf(j),
        pipeline_decodes_to(j, c),
{
    reveal_strlit("key");
    reveal_strlit("pipelineKey");
    reveal_strlit("creatorKey");
    reveal_strlit("name");
    reveal_strlit("description");
    reveal_strlit("orgWide");
    reveal_strlit("fields");
    reveal_strlit("stages");
    reveal_strlit("stageOrder");
    reveal_strlit("aclEntries");
    reveal_strlit("owner");
    reveal_strlit("teamKey");
    reveal_strlit("teamWide");
    reveal_strlit("creationTimestamp");
    reveal_strlit("lastUpdatedTimestamp");
    reveal_strlit("lastSavedTimestamp");
    reveal_strlit("boxCountHint");
    reveal_strlit("boxCount");
    reveal_strlit("sharingRestrictedToOrg");
    reveal_strlit("sharingRestrictedToTeam");
    assert("key"@.len() == 3);
    assert("pipelineKey"@.len() == 11);
    assert("creatorKey"@.len() == 10);
    assert("name"@.len() == 4);
    assert("description"@.len() == 11);
    assert("orgWide"@.len() == 7);
    assert("fields"@.len() == 6);
    assert("stages"@.len() == 6);
    assert("stageOrder"@.len() == 10);
    assert("aclEntries"@.len() == 10);
    assert("owner"@.len() == 5);
    assert("teamKey"@.len() == 7);
    assert("teamWide"@.len() == 8);
    assert("creationTimestamp"@.len() == 17);
    assert("lastUpdatedTimestamp"@.len() == 20);
    assert("lastSavedTimestamp"@.len() == 18);
    assert("boxCountHint"@.len() == 12);
    assert("boxCount"@.len() == 8);
    assert("sharingRestrictedToOrg"@.len() == 22);
    assert("sharingRestrictedToTeam"@.len() == 23);
    assert("pipelineKey"@[0] == 'p');
    assert("description"@[0] == 'd');
    assert("creatorKey"@[0] == 'c');
    assert("stageOrder"@[0] == 's');
    assert("aclEntries"@[0] == 'a');
    assert("orgWide"@[0] == 'o');
    assert("teamKey"@[0] == 't');
    assert("fields"@[0] == 'f');
    assert("stages"@[0] == 's');
    assert("teamWide"@[0] == 't');
    assert("boxCount"@[0] == 'b');
    let fields = j->Obj_0;
    lemma_obj_get_at(fields@, "key"@, 0);
    lemma_obj_get_at(fields@, "pipelineKey"@, 1);
    lemma_obj_get_at(fields@, "creatorKey"@, 2);
    lemma_obj_get_at(fields@, "name"@, 3);
    lemma_obj_get_at(fields@, "description"@, 4);
    lemma_obj_get_at(fields@, "orgWide"@, 5);
    lemma_obj_get_at(fields@, "fields"@, 6);
    lemma_obj_get_at(fields@, "stages"@, 7);
    lemma_obj_get_at(fields@, "stageOrder"@, 8);
    lemma_obj_get_at(fields@, "aclEntries"@, 9);
    lemma_obj_get_at(fields@, "owner"@, 10);
    lemma_obj_get_at(fields@, "teamKey"@, 11);
    lemma_obj_get_at(fields@, "teamWide"@, 12);
    lemma_obj_get_at(fields@, "creationTimestamp"@, 13);
    lemma_obj_get_at(fields@, "lastUpdatedTimestamp"@, 14);
    lemma_obj_get_at(fields@, "lastSavedTimestamp"@, 15);
    lemma_obj_get_at(fields@, "boxCountHint"@, 16);
    lemma_obj_get_at(fields@, "boxCount"@, 17);
    lemma_obj_get_at(fields@, "sharingRestrictedToOrg"@, 18);
    lemma_obj_get_at(fields@, "sharingRestrictedToTeam"@, 19);
    let items = fields@[6].1->Arr_0;
    assert forall|i: int| 0 <= i < items@.len() implies field_wf(#[trigger] items@[i])
        && field_decodes_to(items@[i], c.fields@[i]) by {
        lemma_field_round_trip(c.fields@[i], items@[i]);
    }
    let fs = fields@[7].1->Obj_0;
    assert forall|i: int| 0 <= i < fs@.len() implies stage_wf((#[trigger] fs@[i]).1)
        && stage_decodes_to(fs@[i].1, c.stages@[i].1) by {
        lemma_stage_round_trip(c.stages@[i].1, fs@[i].1);
    }
    let acls = fields@[9].1->Arr_0;
    assert forall|i: int| 0 <= i < acls@.len() implies acl_wf(#[trigger] acls@[i])
        && acl_decodes_to(acls@[i], c.acl_entries@[i]) by {
        lemma_acl_round_trip(c.acl_entries@[i], acls@[i]);
    }
    match c.owner {
        Some(a) => lemma_acl_round_trip(a, fields@[10].1),
        None => (),
    }
}

// ------------------------------------------------------------- endpoints

/// The resource path of the pipeline-list endpoint.
pub fn list_path() -> (r: &'static str)
    ensures
        r@ == "pipelines"@,
{
    "pipelines"
}

/// The resource path of a single-pipeline fetch.
pub fn get_path(pipeline_key: &str) -> (r: String)
    ensures
        r@ == "pipelines/"@ + pipeline_key@,
{
    let mut r = "pipelines/".to_owned();
    r.append(pipeline_key);
    r
}

/// Decodes the body of a single-pipeline fetch into a pipeline record.
pub fn get(v: &JsonValue) -> (r: Result<Pipeline, StreakError>)
    ensures
        r is Ok <==> pipeline_wf(*v),
        (r matches Ok(c) ==> pipeline_decodes_to(*v, c)),
        (r matches Err(e) ==> e@ == ErrV::JsonParseError("malformed pipeline record"@)),
{
    decode_pipeline(v)
}

/// Every element of a list body reads as a pipeline.
pub open spec fn pipelines_arr_wf(items: Seq<JsonValue>) -> bool {
    forall|i: int| 0 <= i < items.len() ==> pipeline_wf(#[trigger] items[i])
}

/// How a decoded pipeline list reads against its array body.
pub open spec fn pipelines_arr_decodes_to(items: Seq<JsonValue>, out: Seq<Pipeline>) -> bool {
    &&& out.len() == items.len()
    &&& forall|i: int| 0 <= i < items.len() ==> pipeline_decodes_to(#[trigger] items[i], out[i])
}

/// Decodes the body of the pipeline-list endpoint: a JSON array of
/// pipeline records.
pub fn list(v: &JsonValue) -> (r: Result<Vec<Pipeline>, StreakError>)
    ensures
        r is Ok <==> (v matches JsonValue::Arr(items) && pipelines_arr_wf(items@)),
        (r matches Ok(out) ==> v matches JsonValue::Arr(items) && pipelines_arr_decodes_to(
            items@,
            out@,
        )),
        (r matches Err(e) ==> e@ == ErrV::JsonParseError("malformed pipeline record"@)),
{
    let arr = match v {
        JsonValue::Arr(items) => items,
        _ => {
            return Err(parse_error());
        },
    };
    let mut out: Vec<Pipeline> = Vec::new();
    let mut i: usize = 0;
    while i < arr.len()
        invariant
            i <= arr.len(),
            out@.len() == i,
            *v == JsonValue::Arr(*arr),
            forall|k: int| 0 <= k < i ==> pipeline_decodes_to(#[trigger] arr@[k], out@[k]),
            forall|k: int| 0 <= k < i ==> pipeline_wf(#[trigger] arr@[k]),
        decreases arr.len() - i,
    {
        match decode_pipeline(&arr[i]) {
            Ok(c) => out.push(c),
            Err(e) => {
                proof {
                    assert(*v == JsonValue::Arr(*arr));
                    assert(!pipeline_wf(arr@[i as int]));
                    assert(!pipelines_arr_wf(arr@));
                }
                return Err(e);
            },
        }
        i = i + 1;
    }
    proof {
        assert(*v == JsonValue::Arr(*arr));
        assert(pipelines_arr_wf(arr@));
    }
    Ok(out)
}

/// The error value every malformed pipeline body maps to.
fn parse_error() -> (e: StreakError)
    ensures
        e@ == ErrV::JsonParseError("malformed pipeline record"@),
{
    StreakError::JsonParseError("malformed pipeline record".to_owned())
}

} // verus!
