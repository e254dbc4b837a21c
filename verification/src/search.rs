//! The search endpoint: typed query parameters and the response records.
//!
//! The search functionality returns a relevance-sorted collection of boxes,
//! beside any organizations and contacts that matched. Parameters are built
//! up field by field; a field left unset is omitted from the encoded query
//! string entirely.

use vstd::prelude::*;
use vstd::string::StringExecFns;
use crate::error::{ErrV, StreakError};
use crate::json::{
    JsonValue, spec_get, spec_get_arr, spec_get_i32, spec_get_i64, spec_get_opt_str,
    spec_get_str, str_arr_decodes_to, str_arr_wf, decode_str_items,
};
use crate::query::{i32_dec_chars, i32_to_dec_string, pairs_view};

verus! {

broadcast use vstd::string::group_string_axioms;

/// The query parameters of a search, each independently settable; an unset
/// field is left out of the encoded query string.
#[derive(Debug, Default, PartialEq, Eq)]
pub struct SearchParamsBuilder {
    pub query: Option<String>,
    pub name: Option<String>,
    pub page: Option<i32>,
    pub pipeline_key: Option<Vec<String>>,
    pub stage_key: Option<Vec<String>>,
}

/// The key/value pairs a parameter set encodes to, in wire order: each set
/// field under its camel-case key, each key list repeated element by
/// element, and nothing for an unset field.
pub open spec fn spec_pairs(b: SearchParamsBuilder) -> Seq<(Seq<char>, Seq<char>)> {
    (match b.query {
        Some(q) => seq![("query"@, q@)],
        None => Seq::empty(),
    }) + (match b.name {
        Some(n) => seq![("name"@, n@)],
        None => Seq::empty(),
    }) + (match b.page {
        Some(p) => seq![("page"@, i32_dec_chars(p as int))],
        None => Seq::empty(),
    }) + (match b.pipeline_key {
        Some(ks) => Seq::new(ks@.len(), |i: int| ("pipelineKey"@, ks@[i]@)),
        None => Seq::empty(),
    }) + (match b.stage_key {
        Some(ks) => Seq::new(ks@.len(), |i: int| ("stageKey"@, ks@[i]@)),
        None => Seq::empty(),
    })
}

impl SearchParamsBuilder {
    /// Sets the page to fetch.
    pub fn page(self, page: i32) -> (r: SearchParamsBuilder)
        ensures
            r == (SearchParamsBuilder { page: Some(page), ..self }),
    {
        SearchParamsBuilder { page: Some(page), ..self }
    }

    /// Restricts the search to the given pipelines.
    pub fn pipeline_key(self, pipeline_key: Vec<String>) -> (r: SearchParamsBuilder)
        ensures
            r == (SearchParamsBuilder { pipeline_key: Some(pipeline_key), ..self }),
    {
        SearchParamsBuilder { pipeline_key: Some(pipeline_key), ..self }
    }

    /// Restricts the search to the given stages.
    pub fn stage_key(self, stage_key: Vec<String>) -> (r: SearchParamsBuilder)
        ensures
            r == (SearchParamsBuilder { stage_key: Some(stage_key), ..self }),
    {
        SearchParamsBuilder { stage_key: Some(stage_key), ..self }
    }

    /// The key/value pairs this parameter set encodes to.
    pub fn to_pairs(&self) -> (r: Vec<(String, String)>)
        ensures
            pairs_view(r@) == spec_pairs(*self),
    {
        let mut r: Vec<(String, String)> = Vec::new();
        match &self.query {
            Some(q) => r.push(("query".to_owned(), q.clone())),
            None => (),
        }
        let ghost seg1 = (match &self.query {
            Some(q) => seq![("query"@, q@)],
            None => Seq::<(Seq<char>, Seq<char>)>::empty(),
        });
        proof {
            assert(pairs_view(r@) =~= seg1);
        }
        match &self.name {
            Some(n) => r.push(("name".to_owned(), n.clone())),
            None => (),
        }
        let ghost seg2 = seg1 + (match &self.name {
            Some(n) => seq![("name"@, n@)],
            None => Seq::<(Seq<char>, Seq<char>)>::empty(),
        });
        proof {
            assert(pairs_view(r@) =~= seg2);
        }
        match &self.page {
            Some(p) => r.push(("page".to_owned(), i32_to_dec_string(*p))),
            None => (),
        }
        let ghost seg3 = seg2 + (match &self.page {
            Some(p) => seq![("page"@, i32_dec_chars(*p as int))],
            None => Seq::<(Seq<char>, Seq<char>)>::empty(),
        });
        proof {
            assert(pairs_view(r@) =~= seg3);
        }
        match &self.pipeline_key {
            Some(ks) => {
                let mut i: usize = 0;
                while i < ks.len()
                    invariant
                        i <= ks.len(),
                        self.pipeline_key matches Some(ksv) && ksv == *ks,
                        r@.len() == seg3.len() + i,
                        forall|k: int| 0 <= k < seg3.len() ==> #[trigger] pairs_view(r@)[k]
                            == seg3[k],
                        forall|t: int| 0 <= t < i ==> #[trigger] pairs_view(r@)[seg3.len() + t]
                            == ("pipelineKey"@, ks@[t]@),
                    decreases ks.len() - i,
                {
                    let ghost prev = r@;
                    let kx = "pipelineKey".to_owned();
                    let vx = ks[i].clone();
                    proof {
                        assert(kx@ == "pipelineKey"@);
                        assert(vx@ == ks@[i as int]@);
                    }
                    r.push((kx, vx));
                    proof {
                        assert forall|k: int| 0 <= k < seg3.len() implies #[trigger] pairs_view(
                            r@,
                        )[k] == seg3[k] by {
                            assert(pairs_view(prev)[k] == seg3[k]);
                            assert(r@[k] == prev[k]);
                        }
                        assert forall|t: int|
                            0 <= t < i + 1 implies #[trigger] pairs_view(r@)[seg3.len() + t] == (
                            "pipelineKey"@,
                            ks@[t]@,
                        ) by {
                            if t < i {
                                assert(pairs_view(prev)[seg3.len() + t] == (
                                    "pipelineKey"@,
                                    ks@[t]@,
                                ));
                                assert(r@[seg3.len() + t] == prev[seg3.len() + t]);
                            } else {
                                assert(r@[seg3.len() + t].0@ == "pipelineKey"@);
                                assert(r@[seg3.len() + t].1@ == ks@[t]@);
                            }
                        }
                    }
                    i = i + 1;
                }
                proof {
                    let target = seg3 + Seq::new(
                        ks@.len(),
                        |t: int| ("pipelineKey"@, ks@[t]@),
                    );
                    assert forall|k: int|
                        0 <= k < pairs_view(r@).len() implies pairs_view(r@)[k] == target[k] by {
                        if k >= seg3.len() {
                            assert(pairs_view(r@)[seg3.len() + (k - seg3.len())] == (
                                "pipelineKey"@,
                                ks@[k - seg3.len()]@,
                            ));
                        }
                    }
                    assert(pairs_view(r@) =~= target);
                }
            },
            None => (),
        }
        let ghost seg4 = seg3 + (match &self.pipeline_key {
            Some(ks) => Seq::new(ks@.len(), |i: int| ("pipelineKey"@, ks@[i]@)),
            None => Seq::<(Seq<char>, Seq<char>)>::empty(),
        });
        proof {
            assert(pairs_view(r@) =~= seg4);
        }
        match &self.stage_key {
            Some(ks) => {
                let mut i: usize = 0;
                while i < ks.len()
                    invariant
                        i <= ks.len(),
                        self.stage_key matches Some(ksv) && ksv == *ks,
                        r@.len() == seg4.len() + i,
                        forall|k: int| 0 <= k < seg4.len() ==> #[trigger] pairs_view(r@)[k]
                            == seg4[k],
                        forall|t: int| 0 <= t < i ==> #[trigger] pairs_view(r@)[seg4.len() + t]
                            == ("stageKey"@, ks@[t]@),
                    decreases ks.len() - i,
                {
                    let ghost prev = r@;
                    let kx = "stageKey".to_owned();
                    let vx = ks[i].clone();
                    proof {
                        assert(kx@ == "stageKey"@);
                        assert(vx@ == ks@[i as int]@);
                    }
                    r.push((kx, vx));
                    proof {
                        assert forall|k: int| 0 <= k < seg4.len() implies #[trigger] pairs_view(
                            r@,
                        )[k] == seg4[k] by {
                            assert(pairs_view(prev)[k] == seg4[k]);
                            assert(r@[k] == prev[k]);
                        }
                        assert forall|t: int|
                            0 <= t < i + 1 implies #[trigger] pairs_view(r@)[seg4.len() + t] == (
                            "stageKey"@,
                            ks@[t]@,
                        ) by {
                            if t < i {
                                assert(pairs_view(prev)[seg4.len() + t] == (
                                    "stageKey"@,
                                    ks@[t]@,
                                ));
                                assert(r@[seg4.len() + t] == prev[seg4.len() + t]);
                            } else {
                                assert(r@[seg4.len() + t].0@ == "stageKey"@);
                                assert(r@[seg4.len() + t].1@ == ks@[t]@);
                            }
                        }
                    }
                    i = i + 1;
                }
                proof {
                    let target = seg4 + Seq::new(
                        ks@.len(),
                        |t: int| ("stageKey"@, ks@[t]@),
                    );
                    assert forall|k: int|
                        0 <= k < pairs_view(r@).len() implies pairs_view(r@)[k] == target[k] by {
                        if k >= seg4.len() {
                            assert(pairs_view(r@)[seg4.len() + (k - seg4.len())] == (
                                "stageKey"@,
                                ks@[k - seg4.len()]@,
                            ));
                        }
                    }
                    assert(pairs_view(r@) =~= target);
                }
            },
            None => (),
        }
        proof {
            assert(pairs_view(r@) =~= spec_pairs(*self));
        }
        r
    }
}

/// An unset parameter is omitted entirely: no pair of the encoding carries
/// its key.
pub proof fn lemma_unset_params_omitted(b: SearchParamsBuilder)
    ensures
        b.query is None ==> forall|i: int|
            0 <= i < spec_pairs(b).len() ==> (#[trigger] spec_pairs(b)[i]).0 != "query"@,
        b.name is None ==> forall|i: int|
            0 <= i < spec_pairs(b).len() ==> (#[trigger] spec_pairs(b)[i]).0 != "name"@,
        b.page is None ==> forall|i: int|
            0 <= i < spec_pairs(b).len() ==> (#[trigger] spec_pairs(b)[i]).0 != "page"@,
        b.pipeline_key is None ==> forall|i: int|
            0 <= i < spec_pairs(b).len() ==> (#[trigger] spec_pairs(b)[i]).0 != "pipelineKey"@,
        b.stage_key is None ==> forall|i: int|
            0 <= i < spec_pairs(b).len() ==> (#[trigger] spec_pairs(b)[i]).0 != "stageKey"@,
{
    reveal_strlit("query");
    reveal_strlit("name");
    reveal_strlit("page");
    reveal_strlit("pipelineKey");
    reveal_strlit("stageKey");
    assert("query"@.len() == 5);
    assert("name"@.len() == 4);
    assert("page"@.len() == 4);
    assert("pipelineKey"@.len() == 11);
    assert("stageKey"@.len() == 8);
    assert("name"@[0] == 'n');
    assert("page"@[0] == 'p');
}

/// Searching for boxes, contacts, and organizations by query.
pub fn query(text: &str) -> (r: SearchParamsBuilder)
    ensures
        r.query matches Some(q) && q@ == text@,
        r.name is None,
        r.page is None,
        r.pipeline_key is None,
        r.stage_key is None,
{
    SearchParamsBuilder {
        query: Some(text.to_owned()),
        name: None,
        page: None,
        pipeline_key: None,
        stage_key: None,
    }
}

/// Searching for a box by name; the match is exact.
pub fn name(text: &str) -> (r: SearchParamsBuilder)
    ensures
        r.name matches Some(n) && n@ == text@,
        r.query is None,
        r.page is None,
        r.pipeline_key is None,
        r.stage_key is None,
{
    SearchParamsBuilder {
        query: None,
        name: Some(text.to_owned()),
        page: None,
        pipeline_key: None,
        stage_key: None,
    }
}

/// The resource path of the search endpoint.
pub fn search_path() -> (r: &'static str)
    ensures
        r@ == "search"@,
{
    "search"
}

/// What a search returns.
#[derive(Debug, PartialEq, Eq)]
pub struct SearchResponse {
    pub results: SearchResults,
    pub page: i32,
    pub query: Option<String>,
}

/// The matches of a search, grouped by record type.
#[derive(Debug, PartialEq, Eq)]
pub struct SearchResults {
    pub orgs: Option<Vec<Organization>>,
    pub boxes: Vec<Box>,
    pub contacts: Option<Vec<Contact>>,
}

/// An organization a search matched.
#[derive(Debug, Clone, PartialEq, Eq)]
pub struct Organization {
    pub name: String,
    pub key: String,
    pub industry: String,
    pub domains: Vec<String>,
}

/// A box a search matched.
#[derive(Debug, Clone, PartialEq, Eq)]
pub struct Box {
    pub box_key: String,
    pub name: String,
    pub last_updated_timestamp: i64,
    pub stage_key: String,
    pub pipeline_key: String,
}

/// A contact a search matched.
#[derive(Debug, Clone, PartialEq, Eq)]
pub struct Contact {
    pub key: String,
    pub email_addresses: Option<Vec<String>>,
    pub title: Option<String>,
}

/// A body that reads as a matched organization.
pub open spec fn org_wf(j: JsonValue) -> bool {
    &&& spec_get_str(j, "name"@) is Some
    &&& spec_get_str(j, "key"@) is Some
    &&& spec_get_str(j, "industry"@) is Some
    &&& (match spec_get_arr(j, "domains"@) {
        Some(items) => str_arr_wf(items),
        None => false,
    })
}

/// How a decoded organization reads against its body.
pub open spec fn org_decodes_to(j: JsonValue, c: Organization) -> bool {
    &&& spec_get_str(j, "name"@) == Some(c.name@)
    &&& spec_get_str(j, "key"@) == Some(c.key@)
    &&& spec_get_str(j, "industry"@) == Some(c.industry@)
    &&& (match spec_get_arr(j, "domains"@) {
        Some(items) => str_arr_decodes_to(items, c.domains@),
        None => false,
    })
}

/// Reads a matched organization out of a parsed body.
pub fn decode_org(v: &JsonValue) -> (r: Result<Organization, StreakError>)
    ensures
        r is Ok <==> org_wf(*v),
        (r matches Ok(c) ==> org_decodes_to(*v, c)),
        (r matches Err(e) ==> e@ == ErrV::JsonParseError("malformed search response"@)),
{
    let name = match v.get_str("name") {
        Some(s) => s,
        None => {
            return Err(parse_error());
        },
    };
    let key = match v.get_str("key") {
        Some(s) => s,
        None => {
            return Err(parse_error());
        },
    };
    let industry = match v.get_str("industry") {
        Some(s) => s,
        None => {
            return Err(parse_error());
        },
    };
    let domains = match v.get_arr("domains") {
        Some(items) => match decode_str_items(items) {
            Some(out) => out,
            None => {
                return Err(parse_error());
            },
        },
        None => {
            return Err(parse_error());
        },
    };
    Ok(Organization { name, key, industry, domains })
}

/// A body that reads as a matched box.
pub open spec fn box_wf(j: JsonValue) -> bool {
    &&& spec_get_str(j, "boxKey"@) is Some
    &&& spec_get_str(j, "name"@) is Some
    &&& spec_get_i64(j, "lastUpdatedTimestamp"@) is Some
    &&& spec_get_str(j, "stageKey"@) is Some
    &&& spec_get_str(j, "pipelineKey"@) is Some
}

/// How a decoded box reads against its body.
pub open spec fn box_decodes_to(j: JsonValue, c: Box) -> bool {
    &&& spec_get_str(j, "boxKey"@) == Some(c.box_key@)
    &&& spec_get_str(j, "name"@) == Some(c.name@)
    &&& spec_get_i64(j, "lastUpdatedTimestamp"@) == Some(c.last_updated_timestamp)
    &&& spec_get_str(j, "stageKey"@) == Some(c.stage_key@)
    &&& spec_get_str(j, "pipelineKey"@) == Some(c.pipeline_key@)
}

/// Reads a matched box out of a parsed body.
pub fn decode_box(v: &JsonValue) -> (r: Result<Box, StreakError>)
    ensures
        r is Ok <==> box_wf(*v),
        (r matches Ok(c) ==> box_decodes_to(*v, c)),
        (r matches Err(e) ==> e@ == ErrV::JsonParseError("malformed search response"@)),
{
    let box_key = match v.get_str("boxKey") {
        Some(s) => s,
        None => {
            return Err(parse_error());
        },
    };
    let name = match v.get_str("name") {
        Some(s) => s,
        None => {
            return Err(parse_error());
        },
    };
    let last_updated_timestamp = match v.get_i64("lastUpdatedTimestamp") {
        Some(i) => i,
        None => {
            return Err(parse_error());
        },
    };
    let stage_key = match v.get_str("stageKey") {
        Some(s) => s,
        None => {
            return Err(parse_error());
        },
    };
    let pipeline_key = match v.get_str("pipelineKey") {
        Some(s) => s,
        None => {
            return Err(parse_error());
        },
    };
    Ok(Box { box_key, name, last_updated_timestamp, stage_key, pipeline_key })
}

/// A body that reads as a matched contact.
pub open spec fn contact_wf(j: JsonValue) -> bool {
    &&& spec_get_str(j, "key"@) is Some
    &&& (match spec_get(j, "emailAddresses"@) {
        None => true,
        Some(JsonValue::Null) => true,
        Some(JsonValue::Arr(items)) => str_arr_wf(items@),
        Some(_) => false,
    })
    &&& spec_get_opt_str(j, "title"@) is Some
}

/// How a decoded contact reads against its body.
pub open spec fn contact_decodes_to(j: JsonValue, c: Contact) -> bool {
    &&& spec_get_str(j, "key"@) == Some(c.key@)
    &&& (match spec_get(j, "emailAddresses"@) {
        None => c.email_addresses is None,
        Some(JsonValue::Null) => c.email_addresses is None,
        Some(JsonValue::Arr(items)) => c.email_addresses matches Some(out)
            && str_arr_decodes_to(items@, out@),
        Some(_) => false,
    })
    &&& spec_get_opt_str(j, "title"@) == Some(c.title.deep_view())
}

/// Reads a matched contact out of a parsed body.
pub fn decode_search_contact(v: &JsonValue) -> (r: Result<Contact, StreakError>)
    ensures
        r is Ok <==> contact_wf(*v),
        (r matches Ok(c) ==> contact_decodes_to(*v, c)),
        (r matches Err(e) ==> e@ == ErrV::JsonParseError("malformed search response"@)),
{
    let key = match v.get_str("key") {
        Some(s) => s,
        None => {
            return Err(parse_error());
        },
    };
    let email_addresses = match v.get("emailAddresses") {
        None => None,
        Some(JsonValue::Null) => None,
        Some(JsonValue::Arr(items)) => match decode_str_items(items) {
            Some(out) => Some(out),
            None => {
                return Err(parse_error());
            },
        },
        Some(_) => {
            return Err(parse_error());
        },
    };
    let title = match v.get_opt_str("title") {
        Some(o) => o,
        None => {
            return Err(parse_error());
        },
    };
    Ok(Contact { key, email_addresses, title })
}

/// Every element of an organization array reads as one.
pub open spec fn orgs_arr_wf(items: Seq<JsonValue>) -> bool {
    forall|i: int| 0 <= i < items.len() ==> org_wf(#[trigger] items[i])
}

/// How a decoded organization list reads against its array body.
pub open spec fn orgs_arr_decodes_to(items: Seq<JsonValue>, out: Seq<Organization>) -> bool {
    &&& out.len() == items.len()
    &&& forall|i: int| 0 <= i < items.len() ==> org_decodes_to(#[trigger] items[i], out[i])
}

/// Every element of a box array reads as one.
pub open spec fn boxes_arr_wf(items: Seq<JsonValue>) -> bool {
    forall|i: int| 0 <= i < items.len() ==> box_wf(#[trigger] items[i])
}

/// How a decoded box list reads against its array body.
pub open spec fn boxes_arr_decodes_to(items: Seq<JsonValue>, out: Seq<Box>) -> bool {
    &&& out.len() == items.len()
    &&& forall|i: int| 0 <= i < items.len() ==> box_decodes_to(#[trigger] items[i], out[i])
}

/// Every element of a contact array reads as one.
pub open spec fn contacts_arr_wf(items: Seq<JsonValue>) -> bool {
    forall|i: int| 0 <= i < items.len() ==> contact_wf(#[trigger] items[i])
}

/// How a decoded contact list reads against its array body.
pub open spec fn contacts_arr_decodes_to(items: Seq<JsonValue>, out: Seq<Contact>) -> bool {
    &&& out.len() == items.len()
    &&& forall|i: int| 0 <= i < items.len() ==> contact_decodes_to(#[trigger] items[i], out[i])
}

/// Reads a list of matched organizations out of an array body.
pub fn decode_orgs(arr: &Vec<JsonValue>) -> (r: Result<Vec<Organization>, StreakError>)
    ensures
        r is Ok <==> orgs_arr_wf(arr@),
        (r matches Ok(out) ==> orgs_arr_decodes_to(arr@, out@)),
        (r matches Err(e) ==> e@ == ErrV::JsonParseError("malformed search response"@)),
{
    let mut out: Vec<Organization> = Vec::new();
    let mut i: usize = 0;
    while i < arr.len()
        invariant
            i <= arr.len(),
            out@.len() == i,
            forall|k: int| 0 <= k < i ==> org_decodes_to(#[trigger] arr@[k], out@[k]),
            forall|k: int| 0 <= k < i ==> org_wf(#[trigger] arr@[k]),
        decreases arr.len() - i,
    {
        match decode_org(&arr[i]) {
            Ok(c) => out.push(c),
            Err(e) => {
                return Err(e);
            },
        }
        i = i + 1;
    }
    Ok(out)
}

/// Reads a list of matched boxes out of an array body.
pub fn decode_boxes(arr: &Vec<JsonValue>) -> (r: Result<Vec<Box>, StreakError>)
    ensures
        r is Ok <==> boxes_arr_wf(arr@),
        (r matches Ok(out) ==> boxes_arr_decodes_to(arr@, out@)),
        (r matches Err(e) ==> e@ == ErrV::JsonParseError("malformed search response"@)),
{
    let mut out: Vec<Box> = Vec::new();
    let mut i: usize = 0;
    while i < arr.len()
        invariant
            i <= arr.len(),
            out@.len() == i,
            forall|k: int| 0 <= k < i ==> box_decodes_to(#[trigger] arr@[k], out@[k]),
            forall|k: int| 0 <= k < i ==> box_wf(#[trigger] arr@[k]),
        decreases arr.len() - i,
    {
        match decode_box(&arr[i]) {
            Ok(c) => out.push(c),
            Err(e) => {
                return Err(e);
            },
        }
        i = i + 1;
    }
    Ok(out)
}

/// Reads a list of matched contacts out of an array body.
pub fn decode_search_contacts(arr: &Vec<JsonValue>) -> (r: Result<Vec<Contact>, StreakError>)
    ensures
        r is Ok <==> contacts_arr_wf(arr@),
        (r matches Ok(out) ==> contacts_arr_decodes_to(arr@, out@)),
        (r matches Err(e) ==> e@ == ErrV::JsonParseError("malformed search response"@)),
{
    let mut out: Vec<Contact> = Vec::new();
    let mut i: usize = 0;
    while i < arr.len()
        invariant
            i <= arr.len(),
            out@.len() == i,
            forall|k: int| 0 <= k < i ==> contact_decodes_to(#[trigger] arr@[k], out@[k]),
            forall|k: int| 0 <= k < i ==> contact_wf(#[trigger] arr@[k]),
        decreases arr.len() - i,
    {
        match decode_search_contact(&arr[i]) {
            Ok(c) => out.push(c),
            Err(e) => {
                return Err(e);
            },
        }
        i = i + 1;
    }
    Ok(out)
}

/// A body that reads as the grouped results of a search.
pub open spec fn results_wf(j: JsonValue) -> bool {
    &&& (match spec_get(j, "orgs"@) {
        None => true,
        Some(JsonValue::Null) => true,
        Some(JsonValue::Arr(items)) => orgs_arr_wf(items@),
        Some(_) => false,
    })
    &&& (match spec_get_arr(j, "boxes"@) {
        Some(items) => boxes_arr_wf(items),
        None => false,
    })
    &&& (match spec_get(j, "contacts"@) {
        None => true,
        Some(JsonValue::Null) => true,
        Some(JsonValue::Arr(items)) => contacts_arr_wf(items@),
        Some(_) => false,
    })
}

/// How decoded results read against their body.
pub open spec fn results_decode_to(j: JsonValue, c: SearchResults) -> bool {
    &&& (match spec_get(j, "orgs"@) {
        None => c.orgs is None,
        Some(JsonValue::Null) => c.orgs is None,
        Some(JsonValue::Arr(items)) => c.orgs matches Some(out) && orgs_arr_decodes_to(
            items@,
            out@,
        ),
        Some(_) => false,
    })
    &&& (match spec_get_arr(j, "boxes"@) {
        Some(items) => boxes_arr_decodes_to(items, c.boxes@),
        None => false,
    })
    &&& (match spec_get(j, "contacts"@) {
        None => c.contacts is None,
        Some(JsonValue::Null) => c.contacts is None,
        Some(JsonValue::Arr(items)) => c.contacts matches Some(out) && contacts_arr_decodes_to(
            items@,
            out@,
        ),
        Some(_) => false,
    })
}

/// Reads the grouped results out of a parsed body.
pub fn decode_results(v: &JsonValue) -> (r: Result<SearchResults, StreakError>)
    ensures
        r is Ok <==> results_wf(*v),
        (r matches Ok(c) ==> results_decode_to(*v, c)),
        (r matches Err(e) ==> e@ == ErrV::JsonParseError("malformed search response"@)),
{
    let orgs = match v.get("orgs") {
        None => None,
        Some(JsonValue::Null) => None,
        Some(JsonValue::Arr(items)) => match decode_orgs(items) {
            Ok(out) => Some(out),
            Err(e) => {
                return Err(e);
            },
        },
        Some(_) => {
            return Err(parse_error());
        },
    };
    let boxes = match v.get_arr("boxes") {
        Some(items) => match decode_boxes(items) {
            Ok(out) => out,
            Err(e) => {
                return Err(e);
            },
        },
        None => {
            return Err(parse_error());
        },
    };
    let contacts = match v.get("contacts") {
        None => None,
        Some(JsonValue::Null) => None,
        Some(JsonValue::Arr(items)) => match decode_search_contacts(items) {
            Ok(out) => Some(out),
            Err(e) => {
                return Err(e);
            },
        },
        Some(_) => {
            return Err(parse_error());
        },
    };
    Ok(SearchResults { orgs, boxes, contacts })
}

/// A body that reads as a whole search response.
pub open spec fn response_wf(j: JsonValue) -> bool {
    &&& (match spec_get(j, "results"@) {
        Some(rv) => results_wf(rv),
        None => false,
    })
    &&& spec_get_i32(j, "page"@) is Some
    &&& spec_get_opt_str(j, "query"@) is Some
}

/// How a decoded response reads against its body.
pub open spec fn response_decodes_to(j: JsonValue, c: SearchResponse) -> bool {
    &&& (match spec_get(j, "results"@) {
        Some(rv) => results_decode_to(rv, c.results),
        None => false,
    })
    &&& spec_get_i32(j, "page"@) == Some(c.page)
    &&& spec_get_opt_str(j, "query"@) == Some(c.query.deep_view())
}

/// Decodes the body of the search endpoint into a typed response.
pub fn decode_response(v: &JsonValue) -> (r: Result<SearchResponse, StreakError>)
    ensures
        r is Ok <==> response_wf(*v),
        (r matches Ok(c) ==> response_decodes_to(*v, c)),
        (r matches Err(e) ==> e@ == ErrV::JsonParseError("malformed search response"@)),
{
    let results = match v.get("results") {
        Some(rv) => match decode_results(rv) {
            Ok(c) => c,
            Err(e) => {
                return Err(e);
            },
        },
        None => {
            return Err(parse_error());
        },
    };
    let page = match v.get_i32("page") {
        Some(i) => i,
        None => {
            return Err(parse_error());
        },
    };
    let query_text = match v.get_opt_str("query") {
        Some(o) => o,
        None => {
            return Err(parse_error());
        },
    };
    Ok(SearchResponse { results, page, query: query_text })
}

/// The error value every malformed search body maps to.
fn parse_error() -> (e: StreakError)
    ensures
        e@ == ErrV::JsonParseError("malformed search response"@),
{
    StreakError::JsonParseError("malformed search response".to_owned())
}

} // verus!
