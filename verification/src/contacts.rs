//! Contact records and their JSON codec.

use vstd::prelude::*;
use vstd::string::StringExecFns;
use crate::error::{ErrV, StreakError};
use crate::json::{
    JsonValue, lemma_obj_get_at, spec_get_arr, spec_get_opt_str, spec_get_str, spec_get_u64,
    str_arr_decodes_to, str_arr_encoding, str_arr_wf, decode_str_items, encode_str_items,
};
use crate::pipelines::{pair_is_str, pair_is_opt_str};

verus! {

broadcast use vstd::string::group_string_axioms;

/// A person attached to boxes, as the newer API version returns one.
#[derive(Debug, Clone, PartialEq, Eq)]
pub struct Contact {
    pub team_key: String,
    pub given_name: String,
    pub family_name: String,
    pub title: Option<String>,
    pub email_addresses: Vec<String>,
    pub phone_numbers: Vec<String>,
    pub last_saved_user_key: String,
    pub creator_key: String,
    pub creation_date: u64,
    pub key: String,
    pub version_timestamp: u64,
    pub last_saved_timestamp: u64,
}

/// One `key: non-negative-integer` pair of an encoded object.
pub open spec fn pair_is_uint(p: (String, JsonValue), key: Seq<char>, val: u64) -> bool {
    p.0@ == key && p.1 == JsonValue::UInt(val)
}

/// A body that reads as a contact record.
pub open spec fn contact_wf(j: JsonValue) -> bool {
    &&& spec_get_str(j, "teamKey"@) is Some
    &&& spec_get_str(j, "givenName"@) is Some
    &&& spec_get_str(j, "familyName"@) is Some
    &&& spec_get_opt_str(j, "title"@) is Some
    &&& (match spec_get_arr(j, "emailAddresses"@) {
        Some(items) => str_arr_wf(items),
        None => false,
    })
    &&& (match spec_get_arr(j, "phoneNumbers"@) {
        Some(items) => str_arr_wf(items),
        None => false,
    })
    &&& spec_get_str(j, "lastSavedUserKey"@) is Some
    &&& spec_get_str(j, "creatorKey"@) is Some
    &&& spec_get_u64(j, "creationDate"@) is Some
    &&& spec_get_str(j, "key"@) is Some
    &&& spec_get_u64(j, "versionTimestamp"@) is Some
    &&& spec_get_u64(j, "lastSavedTimestamp"@) is Some
}

/// How a decoded contact reads against its body.
pub open spec fn contact_decodes_to(j: JsonValue, c: Contact) -> bool {
    &&& spec_get_str(j, "teamKey"@) == Some(c.team_key@)
    &&& spec_get_str(j, "givenName"@) == Some(c.given_name@)
    &&& spec_get_str(j, "familyName"@) == Some(c.family_name@)
    &&& spec_get_opt_str(j, "title"@) == Some(c.title.deep_view())
    &&& (match spec_get_arr(j, "emailAddresses"@) {
        Some(items) => str_arr_decodes_to(items, c.email_addresses@),
        None => false,
    })
    &&& (match spec_get_arr(j, "phoneNumbers"@) {
        Some(items) => str_arr_decodes_to(items, c.phone_numbers@),
        None => false,
    })
    &&& spec_get_str(j, "lastSavedUserKey"@) == Some(c.last_saved_user_key@)
    &&& spec_get_str(j, "creatorKey"@) == Some(c.creator_key@)
    &&& spec_get_u64(j, "creationDate"@) == Some(c.creation_date)
    &&& spec_get_str(j, "key"@) == Some(c.key@)
    &&& spec_get_u64(j, "versionTimestamp"@) == Some(c.version_timestamp)
    &&& spec_get_u64(j, "lastSavedTimestamp"@) == Some(c.last_saved_timestamp)
}

/// The canonical encoding of a contact.
pub open spec fn contact_encoding(c: Contact, j: JsonValue) -> bool {
    match j {
        JsonValue::Obj(fields) => {
            &&& fields@.len() == 12
            &&& pair_is_str(fields@[0], "teamKey"@, c.team_key@)
            &&& pair_is_str(fields@[1], "givenName"@, c.given_name@)
            &&& pair_is_str(fields@[2], "familyName"@, c.family_name@)
            &&& pair_is_opt_str(fields@[3], "title"@, c.title)
            &&& fields@[4].0@ == "emailAddresses"@
            &&& (fields@[4].1 matches JsonValue::Arr(items) && str_arr_encoding(
                c.email_addresses@,
                items@,
            ))
            &&& fields@[5].0@ == "phoneNumbers"@
            &&& (fields@[5].1 matches JsonValue::Arr(items) && str_arr_encoding(
                c.phone_numbers@,
                items@,
            ))
            &&& pair_is_str(fields@[6], "lastSavedUserKey"@, c.last_saved_user_key@)
            &&& pair_is_str(fields@[7], "creatorKey"@, c.creator_key@)
            &&& pair_is_uint(fields@[8], "creationDate"@, c.creation_date)
            &&& pair_is_str(fields@[9], "key"@, c.key@)
            &&& pair_is_uint(fields@[10], "versionTimestamp"@, c.version_timestamp)
            &&& pair_is_uint(fields@[11], "lastSavedTimestamp"@, c.last_saved_timestamp)
        },
        _ => false,
    }
}

/// Reads a contact out of a parsed body.
pub fn decode_contact(v: &JsonValue) -> (r: Result<Contact, StreakError>)
    ensures
        r is Ok <==> contact_wf(*v),
        (r matches Ok(c) ==> contact_decodes_to(*v, c)),
        (r matches Err(e) ==> e@ == ErrV::JsonParseError("malformed contact record"@)),
{
    let team_key = match v.get_str("teamKey") {
        Some(s) => s,
        None => {
            return Err(parse_error());
        },
    };
    let given_name = match v.get_str("givenName") {
        Some(s) => s,
        None => {
            return Err(parse_error());
        },
    };
    let family_name = match v.get_str("familyName") {
        Some(s) => s,
        None => {
            return Err(parse_error());
        },
    };
    let title = match v.get_opt_str("title") {
        Some(o) => o,
        None => {
            return Err(parse_error());
        },
    };
    let email_addresses = match v.get_arr("emailAddresses") {
        Some(items) => match decode_str_items(items) {
            Some(out) => out,
            None => {
                return Err(parse_error());
            },
        },
        None => {
            return Err(parse_error());
        },
    };
    let phone_numbers = match v.get_arr("phoneNumbers") {
        Some(items) => match decode_str_items(items) {
            Some(out) => out,
            None => {
                return Err(parse_error());
            },
        },
        None => {
            return Err(parse_error());
        },
    };
    let last_saved_user_key = match v.get_str("lastSavedUserKey") {
        Some(s) => s,
        None => {
            return Err(parse_error());
        },
    };
    let creator_key = match v.get_str("creatorKey") {
        Some(s) => s,
        None => {
            return Err(parse_error());
        },
    };
    let creation_date = match v.get_u64("creationDate") {
        Some(u) => u,
        None => {
            return Err(parse_error());
        },
    };
    let key = match v.get_str("key") {
        Some(s) => s,
        None => {
            return Err(parse_error());
        },
    };
    let version_timestamp = match v.get_u64("versionTimestamp") {
        Some(u) => u,
        None => {
            return Err(parse_error());
        },
    };
    let last_saved_timestamp = match v.get_u64("lastSavedTimestamp") {
        Some(u) => u,
        None => {
            return Err(parse_error());
        },
    };
    Ok(Contact {
        team_key,
        given_name,
        family_name,
        title,
        email_addresses,
        phone_numbers,
        last_saved_user_key,
        creator_key,
        creation_date,
        key,
        version_timestamp,
        last_saved_timestamp,
    })
}

/// Writes a contact back as JSON, in the canonical field order.
pub fn encode_contact(c: &Contact) -> (r: JsonValue)
    ensures
        contact_encoding(*c, r),
{
    let mut fields: Vec<(String, JsonValue)> = Vec::new();
    fields.push(("teamKey".to_owned(), JsonValue::Str(c.team_key.clone())));
    fields.push(("givenName".to_owned(), JsonValue::Str(c.given_name.clone())));
    fields.push(("familyName".to_owned(), JsonValue::Str(c.family_name.clone())));
    fields.push((
        "title".to_owned(),
        match &c.title {
            Some(s) => JsonValue::Str(s.clone()),
            None => JsonValue::Null,
        },
    ));
    fields.push(("emailAddresses".to_owned(), JsonValue::Arr(encode_str_items(&c.email_addresses))));
    fields.push(("phoneNumbers".to_owned(), JsonValue::Arr(encode_str_items(&c.phone_numbers))));
    fields.push(("lastSavedUserKey".to_owned(), JsonValue::Str(c.last_saved_user_key.clone())));
    fields.push(("creatorKey".to_owned(), JsonValue::Str(c.creator_key.clone())));
    fields.push(("creationDate".to_owned(), JsonValue::UInt(c.creation_date)));
    fields.push(("key".to_owned(), JsonValue::Str(c.key.clone())));
    fields.push(("versionTimestamp".to_owned(), JsonValue::UInt(c.version_timestamp)));
    fields.push(("lastSavedTimestamp".to_owned(), JsonValue::UInt(c.last_saved_timestamp)));
    JsonValue::Obj(fields)
}

/// Round trip: any encoding of a contact is well formed and decodes back
/// to it.
#[verifier::rlimit(50)]
pub proof fn lemma_contact_round_trip(c: Contact, j: JsonValue)
    requires
        contact_encoding(c, j),
    ensures
        contact_wf(j),
        contact_decodes_to(j, c),
{
    reveal_strlit("teamKey");
    reveal_strlit("givenName");
    reveal_strlit("familyName");
    reveal_strlit("title");
    reveal_strlit("emailAddresses");
    reveal_strlit("phoneNumbers");
    reveal_strlit("lastSavedUserKey");
    reveal_strlit("creatorKey");
    reveal_strlit("creationDate");
    reveal_strlit("key");
    reveal_strlit("versionTimestamp");
    reveal_strlit("lastSavedTimestamp");
    assert("teamKey"@.len() == 7);
    assert("givenName"@.len() == 9);
    assert("familyName"@.len() == 10);
    assert("title"@.len() == 5);
    assert("emailAddresses"@.len() == 14);
    assert("phoneNumbers"@.len() == 12);
    assert("lastSavedUserKey"@.len() == 16);
    assert("creatorKey"@.len() == 10);
    assert("creationDate"@.len() == 12);
    assert("key"@.len() == 3);
    assert("versionTimestamp"@.len() == 16);
    assert("lastSavedTimestamp"@.len() == 18);
    assert("familyName"@[0] == 'f');
    assert("creatorKey"@[0] == 'c');
    assert("phoneNumbers"@[0] == 'p');
    assert("creationDate"@[0] == 'c');
    assert("lastSavedUserKey"@[0] == 'l');
    assert("versionTimestamp"@[0] == 'v');
    let fields = j->Obj_0;
    lemma_obj_get_at(fields@, "teamKey"@, 0);
    lemma_obj_get_at(fields@, "givenName"@, 1);
    lemma_obj_get_at(fields@, "familyName"@, 2);
    lemma_obj_get_at(fields@, "title"@, 3);
    lemma_obj_get_at(fields@, "emailAddresses"@, 4);
    lemma_obj_get_at(fields@, "phoneNumbers"@, 5);
    lemma_obj_get_at(fields@, "lastSavedUserKey"@, 6);
    lemma_obj_get_at(fields@, "creatorKey"@, 7);
    lemma_obj_get_at(fields@, "creationDate"@, 8);
    lemma_obj_get_at(fields@, "key"@, 9);
    lemma_obj_get_at(fields@, "versionTimestamp"@, 10);
    lemma_obj_get_at(fields@, "lastSavedTimestamp"@, 11);
}

/// The resource path of a single-contact fetch (newer API version).
pub fn get_path(key: &str) -> (r: String)
    ensures
        r@ == "contacts/"@ + key@,
{
    let mut r = "contacts/".to_owned();
    r.append(key);
    r
}

/// Decodes the body of a single-contact fetch into a contact record.
pub fn get(v: &JsonValue) -> (r: Result<Contact, StreakError>)
    ensures
        r is Ok <==> contact_wf(*v),
        (r matches Ok(c) ==> contact_decodes_to(*v, c)),
        (r matches Err(e) ==> e@ == ErrV::JsonParseError("malformed contact record"@)),
{
    decode_contact(v)
}

/// The error value every malformed contact body maps to.
fn parse_error() -> (e: StreakError)
    ensures
        e@ == ErrV::JsonParseError("malformed contact record"@),
{
    StreakError::JsonParseError("malformed contact record".to_owned())
}

} // verus!
