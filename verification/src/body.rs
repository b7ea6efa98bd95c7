//! Request bodies: the tagged choice of no body, a JSON document, or a
//! multipart form, and the builders for the documents the client sends.

use vstd::prelude::*;
use vstd::string::StringExecFns;

verus! {

/// A structured JSON document built by the client for an outgoing request
/// body. The transport serializes it; building one performs no I/O.
#[derive(Debug, PartialEq, Eq)]
pub enum JsonValue {
    Null,
    Bool(bool),
    UInt(u64),
    Str(String),
    Array(Vec<JsonValue>),
    Object(Vec<(String, JsonValue)>),
}

/// One part of a multipart form: the form field name and the path of the
/// file to upload under it.
#[derive(Clone, Debug, PartialEq, Eq)]
pub struct FormPart {
    pub field_name: String,
    pub path: String,
}

/// A multipart form, used exclusively for file upload; parts stay in input
/// order.
#[derive(Clone, Debug, PartialEq, Eq)]
pub struct MultipartForm {
    pub parts: Vec<FormPart>,
}

/// Collection of body shapes the client knows how to attach to a request.
/// Exactly one shape is chosen per request.
#[derive(Debug, PartialEq, Eq)]
pub enum ReqBody {
    /// A multipart form, typically for file uploads.
    Form(MultipartForm),
    /// A JSON document as the body.
    Json(JsonValue),
    /// No body attached.
    Empty,
}

impl ReqBody {
    /// Wrap a JSON document as a request body.
    pub fn as_json(body: JsonValue) -> (r: ReqBody)
        ensures
            r == ReqBody::Json(body),
    {
        ReqBody::Json(body)
    }
}

/// Caller-constructed project query description; it exists only for the
/// duration of one `query_projects` call. Fields left `None` are omitted
/// from the query envelope entirely.
#[derive(Clone, Debug, PartialEq, Eq)]
pub struct ApiProjectFilter {
    pub name: Option<String>,
    /// A mapping of string key to string value; keys are unique.
    pub metadata: Option<Vec<(String, String)>>,
}

impl ApiProjectFilter {
    /// The metadata holds each key at most once.
    pub open spec fn wf(&self) -> bool {
        match self.metadata {
            Some(md) => forall|i: int, j: int|
                0 <= i < j < md@.len() ==> (#[trigger] md@[i]).0@ != (#[trigger] md@[j]).0@,
            None => true,
        }
    }
}

/// The decimal digit character for `d`.
pub open spec fn spec_digit_char(d: nat) -> char {
    if d == 0 {
        '0'
    } else if d == 1 {
        '1'
    } else if d == 2 {
        '2'
    } else if d == 3 {
        '3'
    } else if d == 4 {
        '4'
    } else if d == 5 {
        '5'
    } else if d == 6 {
        '6'
    } else if d == 7 {
        '7'
    } else if d == 8 {
        '8'
    } else {
        '9'
    }
}

/// The decimal digits of `n`, most significant first, with no leading zeros
/// except for zero itself.
pub open spec fn spec_decimal(n: nat) -> Seq<char>
    decreases n,
{
    if n < 10 {
        seq![spec_digit_char(n)]
    } else {
        spec_decimal(n / 10) + seq![spec_digit_char(n % 10)]
    }
}

/// The one-character string for the digit `d`.
fn digit_str(d: u64) -> (r: &'static str)
    requires
        d < 10,
    ensures
        r@ == seq![spec_digit_char(d as nat)],
{
    let r: &'static str = if d == 0 {
        "0"
    } else if d == 1 {
        "1"
    } else if d == 2 {
        "2"
    } else if d == 3 {
        "3"
    } else if d == 4 {
        "4"
    } else if d == 5 {
        "5"
    } else if d == 6 {
        "6"
    } else if d == 7 {
        "7"
    } else if d == 8 {
        "8"
    } else {
        "9"
    };
    proof {
        reveal_strlit("0");
        reveal_strlit("1");
        reveal_strlit("2");
        reveal_strlit("3");
        reveal_strlit("4");
        reveal_strlit("5");
        reveal_strlit("6");
        reveal_strlit("7");
        reveal_strlit("8");
        reveal_strlit("9");
        assert(r@ =~= seq![spec_digit_char(d as nat)]);
    }
    r
}

/// Render `n` in decimal.
pub fn u64_to_decimal(n: u64) -> (r: String)
    ensures
        r@ == spec_decimal(n as nat),
    decreases n,
{
    if n < 10 {
        digit_str(n).to_owned()
    } else {
        proof {
            assert(n as nat / 10 < n as nat) by (nonlinear_arith)
                requires
                    n >= 10,
            ;
        }
        let mut s = u64_to_decimal(n / 10);
        s.append(digit_str(n % 10));
        s
    }
}

/// The field name of the part that uploads the file at position `i`.
pub fn upload_field_name(i: usize) -> (r: String)
    ensures
        r@ == "file"@ + spec_decimal(i as nat),
{
    let mut s = "file".to_owned();
    s.append(u64_to_decimal(i as u64).as_str());
    s
}

/// The form that uploads `files`: one part per file in input order, with
/// field names `file0`, `file1`, and so on.
pub open spec fn spec_is_upload_form(form: MultipartForm, files: Seq<Seq<char>>) -> bool {
    form.parts@.len() == files.len() && forall|i: int|
        0 <= i < files.len() ==> (#[trigger] form.parts@[i]).field_name@ == "file"@
            + spec_decimal(i as nat) && form.parts@[i].path@ == files[i]
}

/// Whether `e` is the `"name"` member carrying `n`.
pub open spec fn spec_is_name_entry(e: (String, JsonValue), n: String) -> bool {
    e.0@ == "name"@ && (e.1 matches JsonValue::Str(s) && s@ == n@)
}

/// Whether `e` is the member for the key-value pair `kv`.
pub open spec fn spec_is_string_entry(e: (String, JsonValue), kv: (String, String)) -> bool {
    e.0@ == kv.0@ && (e.1 matches JsonValue::Str(s) && s@ == kv.1@)
}

/// Whether `entries` carries `md` in order, one string member per pair.
pub open spec fn spec_is_metadata_object(
    entries: Seq<(String, JsonValue)>,
    md: Seq<(String, String)>,
) -> bool {
    entries.len() == md.len() && forall|i: int|
        0 <= i < md.len() ==> spec_is_string_entry(#[trigger] entries[i], md[i])
}

/// Whether `e` is the `"metadata"` member carrying `md`.
pub open spec fn spec_is_metadata_entry(
    e: (String, JsonValue),
    md: Seq<(String, String)>,
) -> bool {
    e.0@ == "metadata"@ && (e.1 matches JsonValue::Object(entries) && spec_is_metadata_object(
        entries@,
        md,
    ))
}

/// The rename payload `{"name": <n>}`: an object with exactly that one
/// member.
pub open spec fn spec_is_rename_payload(v: JsonValue, n: Seq<char>) -> bool {
    v matches JsonValue::Object(entries) && entries@.len() == 1 && entries@[0].0@ == "name"@ && (
    entries@[0].1 matches JsonValue::Str(s) && s@ == n)
}

/// Build the rename payload for `name`.
pub fn rename_payload(name: &str) -> (r: JsonValue)
    ensures
        spec_is_rename_payload(r, name@),
{
    let mut entries: Vec<(String, JsonValue)> = Vec::new();
    entries.push(("name".to_owned(), JsonValue::Str(name.to_owned())));
    JsonValue::Object(entries)
}

/// The members of the inner filter object: `name` first when present, then
/// `metadata` when present; absent fields are omitted entirely.
pub open spec fn spec_filter_inner(inner: Seq<(String, JsonValue)>, f: ApiProjectFilter) -> bool {
    match f.name {
        Some(n) => match f.metadata {
            Some(md) => inner.len() == 2 && spec_is_name_entry(inner[0], n)
                && spec_is_metadata_entry(inner[1], md@),
            None => inner.len() == 1 && spec_is_name_entry(inner[0], n),
        },
        None => match f.metadata {
            Some(md) => inner.len() == 1 && spec_is_metadata_entry(inner[0], md@),
            None => inner.len() == 0,
        },
    }
}

/// The document `{"filter": { ... }}` that a project query posts.
pub open spec fn spec_is_filter_envelope(v: JsonValue, f: ApiProjectFilter) -> bool {
    v matches JsonValue::Object(top) && top@.len() == 1 && top@[0].0@ == "filter"@ && (top@[0].1
        matches JsonValue::Object(inner) && spec_filter_inner(inner@, f))
}

/// Build the query envelope for `filter`.
pub fn filter_envelope(filter: &ApiProjectFilter) -> (r: JsonValue)
    ensures
        spec_is_filter_envelope(r, *filter),
{
    let mut inner: Vec<(String, JsonValue)> = Vec::new();
    match &filter.name {
        Some(n) => inner.push(("name".to_owned(), JsonValue::Str(n.clone()))),
        None => (),
    }
    match &filter.metadata {
        Some(md) => {
            let mut entries: Vec<(String, JsonValue)> = Vec::new();
            let mut i: usize = 0;
            while i < md.len()
                invariant
                    i <= md.len(),
                    entries@.len() == i,
                    forall|j: int| 0 <= j < i ==> spec_is_string_entry(#[trigger] entries@[j], md@[j]),
                decreases md.len() - i,
            {
                entries.push((md[i].0.clone(), JsonValue::Str(md[i].1.clone())));
                i += 1;
            }
            inner.push(("metadata".to_owned(), JsonValue::Object(entries)));
        },
        None => (),
    }
    let mut top: Vec<(String, JsonValue)> = Vec::new();
    top.push(("filter".to_owned(), JsonValue::Object(inner)));
    JsonValue::Object(top)
}

} // verus!
