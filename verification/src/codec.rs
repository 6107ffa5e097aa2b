//! Decoding the remote status document.
//!
//! The remote schema is externally controlled and may evolve, so decoding
//! is lenient: only the boolean under `state.open` is required. Every
//! other field is best-effort — a missing field, or one of an unexpected
//! shape, falls back to a neutral default and never fails the decode.

use vstd::prelude::*;

use crate::json::{
    as_array, as_bool, as_i64, as_string, get_field, json_model_of, parse_json, value_model,
    JsonVal,
};
use crate::status::RoomStatus;

verus! {

/// The icon URLs the space publishes for its two states.
#[derive(Debug, Clone, PartialEq)]
pub struct Icon {
    pub open: String,
    pub closed: String,
}

/// The state section of the document; `open` is the one field the core
/// logic consumes.
#[derive(Debug, Clone, PartialEq)]
pub struct State {
    pub open: bool,
    pub lastchange: i64,
    pub icon: Icon,
}

/// Contact channels the space publishes; descriptive metadata only.
#[derive(Debug, Clone, PartialEq)]
pub struct Contact {
    pub phone: String,
    pub twitter: String,
    pub email: String,
    pub matrix: String,
    pub ml: String,
}

/// The wiki feed entry.
#[derive(Debug, Clone, PartialEq)]
pub struct Wiki {
    pub url: String,
}

/// The feeds section.
#[derive(Debug, Clone, PartialEq)]
pub struct Feeds {
    pub wiki: Wiki,
}

/// The decoded status document. Only `state.open` is essential; the other
/// fields carry descriptive metadata that the core never interprets and
/// that defaults to empty or zero when the remote document omits it.
#[derive(Debug, Clone, PartialEq)]
pub struct SpaceApiResponse {
    pub api: String,
    pub api_compatibility: Vec<String>,
    pub space: String,
    pub logo: String,
    pub url: String,
    pub ext_ccc: String,
    pub state: State,
    pub contact: Contact,
    pub issue_report_channels: Vec<String>,
    pub feeds: Feeds,
}

/// Why a response body failed to decode.
#[derive(Debug, Clone, Copy, PartialEq, Eq, Structural)]
pub enum DecodeError {
    /// The body is not a well-formed JSON document.
    InvalidJson,
    /// The document has no boolean at `state.open`.
    MissingOpenFlag,
}

/// The field of `j` named `k`, when `j` is an object that has it.
pub open spec fn field_of(j: JsonVal, k: Seq<char>) -> Option<JsonVal> {
    if j matches JsonVal::Obj(m) && m.contains_key(k) {
        Some(j->Obj_0[k])
    } else {
        None
    }
}

/// The text of an optional field, or empty when it is absent or not a
/// string.
pub open spec fn str_or_empty(f: Option<JsonVal>) -> Seq<char> {
    match f {
        Some(JsonVal::Str(s)) => s,
        _ => Seq::<char>::empty(),
    }
}

/// The texts among the elements of an array, in order; elements of any
/// other shape are passed over.
pub open spec fn str_elements(s: Seq<JsonVal>) -> Seq<Seq<char>>
    decreases s.len(),
{
    if s.len() == 0 {
        Seq::<Seq<char>>::empty()
    } else {
        match s[0] {
            JsonVal::Str(t) => seq![t] + str_elements(s.drop_first()),
            _ => str_elements(s.drop_first()),
        }
    }
}

/// The texts of an optional array field, or empty when it is absent or
/// not an array.
pub open spec fn str_list_or_empty(f: Option<JsonVal>) -> Seq<Seq<char>> {
    match f {
        Some(JsonVal::Arr(a)) => str_elements(a),
        _ => Seq::<Seq<char>>::empty(),
    }
}

/// The integer of an optional field, or zero when it is absent or not a
/// number representable as an `i64`.
pub open spec fn int_or_zero(f: Option<JsonVal>) -> i64 {
    match f {
        Some(JsonVal::Int(n)) => n,
        _ => 0,
    }
}

/// The essential flag: the boolean at `state.open`, when the document has
/// one there.
pub open spec fn open_flag_of(doc: JsonVal) -> Option<bool> {
    match field_of(doc, "state"@) {
        Some(st) => match field_of(st, "open"@) {
            Some(JsonVal::Bool(b)) => Some(b),
            _ => None,
        },
        None => None,
    }
}

/// How a decoded document relates to the model of the body it came from:
/// the essential flag is carried over exactly, and every other field holds
/// the corresponding text or integer of the document, or its default.
pub open spec fn document_decodes_to(doc: JsonVal, d: SpaceApiResponse) -> bool {
    &&& Some(d.state.open) == open_flag_of(doc)
    &&& d.state.lastchange == int_or_zero(
        match field_of(doc, "state"@) {
            Some(st) => field_of(st, "lastchange"@),
            None => None,
        },
    )
    &&& d.state.icon.open@ == str_or_empty(
        match field_of(doc, "state"@) {
            Some(st) => match field_of(st, "icon"@) {
                Some(ic) => field_of(ic, "open"@),
                None => None,
            },
            None => None,
        },
    )
    &&& d.state.icon.closed@ == str_or_empty(
        match field_of(doc, "state"@) {
            Some(st) => match field_of(st, "icon"@) {
                Some(ic) => field_of(ic, "closed"@),
                None => None,
            },
            None => None,
        },
    )
    &&& d.api@ == str_or_empty(field_of(doc, "api"@))
    &&& d.api_compatibility@.map_values(|s: String| s@) == str_list_or_empty(
        field_of(doc, "api_compatibility"@),
    )
    &&& d.issue_report_channels@.map_values(|s: String| s@) == str_list_or_empty(
        field_of(doc, "issue_report_channels"@),
    )
    &&& d.space@ == str_or_empty(field_of(doc, "space"@))
    &&& d.logo@ == str_or_empty(field_of(doc, "logo"@))
    &&& d.url@ == str_or_empty(field_of(doc, "url"@))
    &&& d.ext_ccc@ == str_or_empty(field_of(doc, "ext_ccc"@))
    &&& d.contact.phone@ == str_or_empty(
        match field_of(doc, "contact"@) {
            Some(c) => field_of(c, "phone"@),
            None => None,
        },
    )
    &&& d.contact.twitter@ == str_or_empty(
        match field_of(doc, "contact"@) {
            Some(c) => field_of(c, "twitter"@),
            None => None,
        },
    )
    &&& d.contact.email@ == str_or_empty(
        match field_of(doc, "contact"@) {
            Some(c) => field_of(c, "email"@),
            None => None,
        },
    )
    &&& d.contact.matrix@ == str_or_empty(
        match field_of(doc, "contact"@) {
            Some(c) => field_of(c, "matrix"@),
            None => None,
        },
    )
    &&& d.contact.ml@ == str_or_empty(
        match field_of(doc, "contact"@) {
            Some(c) => field_of(c, "ml"@),
            None => None,
        },
    )
    &&& d.feeds.wiki.url@ == str_or_empty(
        match field_of(doc, "feeds"@) {
            Some(f) => match field_of(f, "wiki"@) {
                Some(w) => field_of(w, "url"@),
                None => None,
            },
            None => None,
        },
    )
}

/// What `decode_status_document` returns for a given body: an error
/// exactly on malformed JSON or a missing essential flag, and otherwise a
/// document that `document_decodes_to` ties to the body's model.
pub open spec fn decode_result_ok(body: Seq<char>, r: Result<SpaceApiResponse, DecodeError>) -> bool {
    match json_model_of(body) {
        None => r == Err::<SpaceApiResponse, DecodeError>(DecodeError::InvalidJson),
        Some(doc) => match open_flag_of(doc) {
            None => r == Err::<SpaceApiResponse, DecodeError>(DecodeError::MissingOpenFlag),
            Some(_) => r matches Ok(d) && document_decodes_to(doc, d),
        },
    }
}

/// The text of the field named `key` of `v`, or empty when `v` has no such
/// field or it is not a string.
fn string_field_or_empty(v: &serde_json::Value, key: &str) -> (r: String)
    ensures
        r@ == str_or_empty(field_of(value_model(*v), key@)),
{
    match get_field(v, key) {
        Some(f) => match as_string(f) {
            Some(s) => s,
            None => String::new(),
        },
        None => String::new(),
    }
}

/// The texts among the elements of the array field named `key` of `v`, or
/// an empty list when `v` has no such field or it is not an array;
/// elements that are not strings are passed over.
fn string_list_field(v: &serde_json::Value, key: &str) -> (r: Vec<String>)
    ensures
        r@.map_values(|s: String| s@) == str_list_or_empty(field_of(value_model(*v), key@)),
{
    let mut out: Vec<String> = Vec::new();
    let items = match get_field(v, key) {
        Some(f) => match as_array(f) {
            Some(items) => items,
            None => {
                proof {
                    assert(out@.map_values(|s: String| s@) =~= Seq::<Seq<char>>::empty());
                }
                return out;
            },
        },
        None => {
            proof {
                assert(out@.map_values(|s: String| s@) =~= Seq::<Seq<char>>::empty());
            }
            return out;
        },
    };
    let ghost arr = str_list_or_empty(field_of(value_model(*v), key@));
    let ghost elems = match field_of(value_model(*v), key@) {
        Some(JsonVal::Arr(a)) => a,
        _ => Seq::<JsonVal>::empty(),
    };
    let mut i: usize = 0;
    proof {
        assert(elems.skip(0) =~= elems);
        assert(out@.map_values(|s: String| s@) + str_elements(elems) =~= str_elements(elems));
    }
    while i < items.len()
        invariant
            i <= items.len(),
            items@.len() == elems.len(),
            forall|j: int|
                0 <= j < elems.len() ==> #[trigger] value_model(items@[j]) == elems[j],
            out@.map_values(|s: String| s@) + str_elements(elems.skip(i as int)) == str_elements(
                elems,
            ),
        decreases items.len() - i,
    {
        let ghost tail = elems.skip(i as int);
        proof {
            assert(tail[0] == elems[i as int]);
            assert(tail.drop_first() =~= elems.skip(i as int + 1));
        }
        match as_string(&items[i]) {
            Some(s) => {
                let ghost pre = out@;
                out.push(s);
                proof {
                    assert(out@.map_values(|s: String| s@) =~= pre.map_values(|s: String| s@)
                        + seq![s@]);
                    assert(pre.map_values(|s: String| s@) + (seq![s@] + str_elements(
                        tail.drop_first(),
                    )) =~= out@.map_values(|s: String| s@) + str_elements(tail.drop_first()));
                }
            },
            None => {},
        }
        i = i + 1;
    }
    proof {
        assert(elems.skip(elems.len() as int) =~= Seq::<JsonVal>::empty());
        assert(out@.map_values(|s: String| s@) + Seq::<Seq<char>>::empty() =~= out@.map_values(
            |s: String| s@,
        ));
    }
    out
}

/// The integer of the field named `key` of `v`, or zero when `v` has no
/// such field or it is not an integer.
fn int_field_or_zero(v: &serde_json::Value, key: &str) -> (r: i64)
    ensures
        r == int_or_zero(field_of(value_model(*v), key@)),
{
    match get_field(v, key) {
        Some(f) => match as_i64(f) {
            Some(n) => n,
            None => 0,
        },
        None => 0,
    }
}

/// Decodes a response body into a status document.
///
/// Fails with `InvalidJson` exactly when the body is not a JSON document,
/// and with `MissingOpenFlag` exactly when the document carries no boolean
/// at `state.open`; on every other body it succeeds, whatever other fields
/// are present, absent, or of unexpected shape.
pub fn decode_status_document(body: &str) -> (r: Result<SpaceApiResponse, DecodeError>)
    ensures
        decode_result_ok(body@, r),
{
    let v = match parse_json(body) {
        Some(v) => v,
        None => {
            return Err(DecodeError::InvalidJson);
        },
    };

    let (open, lastchange, icon) = match get_field(&v, "state") {
        Some(st) => {
            let open = match get_field(st, "open") {
                Some(o) => match as_bool(o) {
                    Some(b) => b,
                    None => {
                        return Err(DecodeError::MissingOpenFlag);
                    },
                },
                None => {
                    return Err(DecodeError::MissingOpenFlag);
                },
            };
            let lastchange = int_field_or_zero(st, "lastchange");
            let icon = match get_field(st, "icon") {
                Some(ic) => Icon {
                    open: string_field_or_empty(ic, "open"),
                    closed: string_field_or_empty(ic, "closed"),
                },
                None => Icon { open: String::new(), closed: String::new() },
            };
            (open, lastchange, icon)
        },
        None => {
            return Err(DecodeError::MissingOpenFlag);
        },
    };

    let contact = match get_field(&v, "contact") {
        Some(c) => Contact {
            phone: string_field_or_empty(c, "phone"),
            twitter: string_field_or_empty(c, "twitter"),
            email: string_field_or_empty(c, "email"),
            matrix: string_field_or_empty(c, "matrix"),
            ml: string_field_or_empty(c, "ml"),
        },
        None => Contact {
            phone: String::new(),
            twitter: String::new(),
            email: String::new(),
            matrix: String::new(),
            ml: String::new(),
        },
    };

    let wiki_url = match get_field(&v, "feeds") {
        Some(f) => match get_field(f, "wiki") {
            Some(w) => string_field_or_empty(w, "url"),
            None => String::new(),
        },
        None => String::new(),
    };

    Ok(SpaceApiResponse {
        api: string_field_or_empty(&v, "api"),
        api_compatibility: string_list_field(&v, "api_compatibility"),
        issue_report_channels: string_list_field(&v, "issue_report_channels"),
        space: string_field_or_empty(&v, "space"),
        logo: string_field_or_empty(&v, "logo"),
        url: string_field_or_empty(&v, "url"),
        ext_ccc: string_field_or_empty(&v, "ext_ccc"),
        state: State { open, lastchange, icon },
        contact,
        feeds: Feeds { wiki: Wiki { url: wiki_url } },
    })
}

/// The binary status a decoded document reports: `Open` exactly when
/// `state.open` is true.
pub fn status_of_document(doc: &SpaceApiResponse) -> (r: RoomStatus)
    ensures
        r == (if doc.state.open {
            RoomStatus::Open
        } else {
            RoomStatus::Closed
        }),
{
    if doc.state.open {
        RoomStatus::Open
    } else {
        RoomStatus::Closed
    }
}

/// Decodes a response body straight to the binary status: `Open` exactly
/// when the document's `state.open` is true, `Closed` exactly when it is
/// false, and the decoding error otherwise.
pub fn decode_room_status(body: &str) -> (r: Result<RoomStatus, DecodeError>)
    ensures
        match json_model_of(body@) {
            None => r == Err::<RoomStatus, DecodeError>(DecodeError::InvalidJson),
            Some(doc) => match open_flag_of(doc) {
                None => r == Err::<RoomStatus, DecodeError>(DecodeError::MissingOpenFlag),
                Some(true) => r == Ok::<RoomStatus, DecodeError>(RoomStatus::Open),
                Some(false) => r == Ok::<RoomStatus, DecodeError>(RoomStatus::Closed),
            },
        },
{
    match decode_status_document(body) {
        Ok(doc) => Ok(status_of_document(&doc)),
        Err(e) => Err(e),
    }
}

} // verus!
