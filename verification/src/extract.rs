//! Scraping the recognized text out of the service's HTML reply: locating
//! the embedded script payload, parsing it as relaxed JSON, walking the
//! fixed index path, and joining the string fragments into lines.
use vstd::prelude::*;

verus! {

use vstd::string::StrSliceExecFns;
use vstd::string::StringExecFns;
use crate::errors::OcrError;

/// A parsed relaxed-JSON document. Numbers carry no value: the pipeline
/// never reads one, it only skips them.
pub enum Json {
    Null,
    Bool(bool),
    Num,
    Str(String),
    Arr(Vec<Json>),
    Obj(Vec<(String, Json)>),
}

/// The characters trimmed from the end of the joined text: the Unicode
/// white-space set, as documented for `char::is_whitespace`.
pub open spec fn is_ws_char(c: char) -> bool {
    let u = c as u32;
    (0x9 <= u && u <= 0xd) || u == 0x20 || u == 0x85 || u == 0xa0 || u == 0x1680 || (0x2000 <= u
        && u <= 0x200a) || u == 0x2028 || u == 0x2029 || u == 0x202f || u == 0x205f || u == 0x3000
}

fn is_ws(c: char) -> (r: bool)
    ensures
        r == is_ws_char(c),
{
    let u: u32 = c as u32;
    (0x9 <= u && u <= 0xd) || u == 0x20 || u == 0x85 || u == 0xa0 || u == 0x1680 || (0x2000 <= u
        && u <= 0x200a) || u == 0x2028 || u == 0x2029 || u == 0x202f || u == 0x205f || u == 0x3000
}

/// The first binding of `key` among the entries of an object.
pub open spec fn obj_lookup(entries: Seq<(String, Json)>, key: Seq<char>) -> Option<Json>
    decreases entries.len(),
{
    if entries.len() == 0 {
        None
    } else if entries[0].0@ == key {
        Some(entries[0].1)
    } else {
        obj_lookup(entries.drop_first(), key)
    }
}

/// The element of `j` at index `i`, provided `j` is an array that long.
pub open spec fn arr_at(j: Json, i: int) -> Option<Json> {
    match j {
        Json::Arr(v) => if 0 <= i && i < v@.len() {
            Some(v@[i])
        } else {
            None
        },
        _ => None,
    }
}

/// The value at the fixed path `data[3][4][0]` of the document.
pub open spec fn target_value(doc: Json) -> Option<Json> {
    match doc {
        Json::Obj(entries) => match obj_lookup(entries@, "data"@) {
            Some(d) => match arr_at(d, 3) {
                Some(x) => match arr_at(x, 4) {
                    Some(y) => arr_at(y, 0),
                    None => None,
                },
                None => None,
            },
            None => None,
        },
        _ => None,
    }
}

/// What one fragment entry contributes to the joined text: its characters
/// and a line break for a string, nothing for anything else.
pub open spec fn fragment_piece(j: Json) -> Seq<char> {
    match j {
        Json::Str(s) => s@ + seq!['\n'],
        _ => Seq::empty(),
    }
}

/// The fragment entries joined in order, each string followed by a line
/// break, every non-string skipped.
pub open spec fn joined_fragments(frags: Seq<Json>) -> Seq<char>
    decreases frags.len(),
{
    if frags.len() == 0 {
        Seq::empty()
    } else {
        joined_fragments(frags.drop_last()) + fragment_piece(frags.last())
    }
}

/// The joined text with all trailing white space removed.
pub open spec fn trim_end_ws(s: Seq<char>) -> Seq<char>
    decreases s.len(),
{
    if s.len() == 0 {
        s
    } else if is_ws_char(s[s.len() - 1]) {
        trim_end_ws(s.drop_last())
    } else {
        s
    }
}

/// The text recovered from a parsed document, or the error that its shape
/// forces: the fixed path must end in an array; an empty array means "no
/// text recognized"; a non-array first element is a shape error; otherwise
/// the first element's entries are joined and trimmed.
pub open spec fn doc_extraction(doc: Json) -> Result<Seq<char>, OcrError> {
    match target_value(doc) {
        Some(t) => match t {
            Json::Arr(items) => if items@.len() == 0 {
                Ok(Seq::empty())
            } else {
                match items@[0] {
                    Json::Arr(frags) => Ok(trim_end_ws(joined_fragments(frags@))),
                    _ => Err(OcrError::PayloadShape),
                }
            },
            _ => Err(OcrError::PayloadShape),
        },
        None => Err(OcrError::PayloadShape),
    }
}

/// What the payload pattern captures out of the response text, if it
/// matches: the relaxed-JSON blob between `>AF_initDataCallback(` and the
/// first following `);</script>`, provided it opens with `{key: 'ds:1'`.
/// A function of the response text alone.
pub uninterp spec fn payload_blob(s: Seq<char>) -> Option<Seq<char>>;

/// Relies on `regex::Regex::captures` with the fixed payload pattern
/// `>AF_initDataCallback\((\{key: 'ds:1'.*?)\);</script>`: the leftmost
/// capture is a function of the searched text alone, named by
/// `payload_blob`; when the pattern does not match there is no capture.
#[verifier::external_body]
fn find_payload(text: &str) -> (r: Option<String>)
    ensures
        match r {
            Some(c) => payload_blob(text@) == Some(c@),
            None => payload_blob(text@) is None,
        },
{
    let re = regex::Regex::new(r#">AF_initDataCallback\((\{key: 'ds:1'.*?)\);</script>"#).unwrap();
    re.captures(text).and_then(|m| m.get(1)).map(|c| c.as_str().to_owned())
}

#[verifier::external_type_specification]
#[verifier::external_body]
pub struct ExValue(serde_json::Value);

/// Relies on the public variants of `serde_json::Value`: rebuilds the
/// parsed tree variant by variant as the library's own `Json`, keeping
/// only what the extraction reads.
#[verifier::external_body]
fn json_of_value(v: &serde_json::Value) -> Json {
    match v {
        serde_json::Value::Null => Json::Null,
        serde_json::Value::Bool(b) => Json::Bool(*b),
        serde_json::Value::Number(_) => Json::Num,
        serde_json::Value::String(s) => Json::Str(s.clone()),
        serde_json::Value::Array(a) => Json::Arr(a.iter().map(json_of_value).collect()),
        serde_json::Value::Object(o) => Json::Obj(
            o.iter().map(|(k, x)| (k.clone(), json_of_value(x))).collect(),
        ),
    }
}

/// The parse of a relaxed-JSON text, if it is well-formed: a function of
/// the text alone.
pub uninterp spec fn json5_value(s: Seq<char>) -> Option<Json>;

/// Relies on `serde_json5::from_str::<serde_json::Value>`: parsing is
/// deterministic, a function of the input text alone, named by
/// `json5_value`; an ill-formed text parses to nothing.
#[verifier::external_body]
fn parse_relaxed(s: &str) -> (r: Option<Json>)
    ensures
        r == json5_value(s@),
{
    match serde_json5::from_str::<serde_json::Value>(s) {
        Ok(v) => Some(json_of_value(&v)),
        Err(_) => None,
    }
}

/// The outcome of the whole extraction on a response text: the payload is
/// located, parsed, and its fixed path walked; each failure mode surfaces
/// its own error.
pub open spec fn extraction_spec(s: Seq<char>) -> Result<Seq<char>, OcrError> {
    match payload_blob(s) {
        None => Err(OcrError::PayloadNotFound),
        Some(blob) => match json5_value(blob) {
            None => Err(OcrError::PayloadParse),
            Some(doc) => doc_extraction(doc),
        },
    }
}

/// A `Result` of text, viewed at the specification level.
pub open spec fn res_text_view(r: Result<String, OcrError>) -> Result<Seq<char>, OcrError> {
    match r {
        Ok(s) => Ok(s@),
        Err(e) => Err(e),
    }
}

fn lookup_key<'a>(entries: &'a Vec<(String, Json)>, key: &String) -> (r: Option<&'a Json>)
    ensures
        match r {
            Some(j) => obj_lookup(entries@, key@) == Some(*j),
            None => obj_lookup(entries@, key@) is None,
        },
{
    let n = entries.len();
    proof {
        assert(entries@.skip(0) =~= entries@);
    }
    for i in 0..n
        invariant
            n == entries@.len(),
            obj_lookup(entries@, key@) == obj_lookup(entries@.skip(i as int), key@),
    {
        proof {
            assert(entries@.skip(i as int).len() > 0);
            assert(entries@.skip(i as int)[0] == entries@[i as int]);
            assert(entries@.skip(i as int).drop_first() =~= entries@.skip(i as int + 1));
        }
        if entries[i].0.eq(key) {
            proof {
                assert(obj_lookup(entries@.skip(i as int), key@) == Some(entries@[i as int].1));
            }
            return Some(&entries[i].1);
        }
        proof {
            assert(obj_lookup(entries@.skip(i as int), key@) == obj_lookup(
                entries@.skip(i as int + 1),
                key@,
            ));
        }
    }
    proof {
        assert(entries@.skip(n as int).len() == 0);
    }
    None
}

fn index_arr(j: &Json, i: usize) -> (r: Option<&Json>)
    ensures
        match r {
            Some(x) => arr_at(*j, i as int) == Some(*x),
            None => arr_at(*j, i as int) is None,
        },
{
    match j {
        Json::Arr(v) => if i < v.len() {
            Some(&v[i])
        } else {
            None
        },
        _ => None,
    }
}

fn join_fragments(frags: &Vec<Json>) -> (r: String)
    ensures
        r@ == joined_fragments(frags@),
{
    let mut out = String::new();
    let n = frags.len();
    for k in 0..n
        invariant
            n == frags@.len(),
            out@ == joined_fragments(frags@.take(k as int)),
    {
        proof {
            assert(frags@.take(k as int + 1).drop_last() =~= frags@.take(k as int));
            assert(frags@.take(k as int + 1).last() == frags@[k as int]);
        }
        match &frags[k] {
            Json::Str(s) => {
                out.append(s.as_str());
                out.append("\n");
                proof {
                    reveal_strlit("\n");
                    assert("\n"@ =~= seq!['\n']);
                }
            },
            _ => {
                proof {
                    assert(out@ + Seq::<char>::empty() =~= out@);
                }
            },
        }
    }
    proof {
        assert(frags@.take(n as int) =~= frags@);
    }
    out
}

fn trim_end(out: &String) -> (r: String)
    ensures
        r@ == trim_end_ws(out@),
{
    let n = out.as_str().unicode_len();
    let mut keep: usize = n;
    proof {
        assert(out@.take(n as int) =~= out@);
    }
    loop
        invariant
            keep <= n,
            n == out@.len(),
            trim_end_ws(out@) == trim_end_ws(out@.take(keep as int)),
        ensures
            keep <= n,
            trim_end_ws(out@) == trim_end_ws(out@.take(keep as int)),
            keep == 0 || !is_ws_char(out@[keep as int - 1]),
        decreases keep,
    {
        if keep == 0 {
            break ;
        }
        let c = out.as_str().get_char(keep - 1);
        if is_ws(c) {
            proof {
                assert(out@.take(keep as int).len() == keep as int);
                assert(out@.take(keep as int)[keep as int - 1] == out@[keep as int - 1]);
                assert(out@.take(keep as int).drop_last() =~= out@.take(keep as int - 1));
            }
            keep = keep - 1;
        } else {
            break ;
        }
    }
    proof {
        if keep == 0 {
            assert(out@.take(0).len() == 0);
        } else {
            assert(out@.take(keep as int).len() == keep as int);
            assert(out@.take(keep as int)[keep as int - 1] == out@[keep as int - 1]);
        }
        assert(trim_end_ws(out@.take(keep as int)) == out@.take(keep as int));
    }
    let trimmed = out.as_str().substring_char(0, keep);
    proof {
        assert(trimmed@ =~= out@.take(keep as int));
    }
    String::from_str(trimmed)
}

fn doc_extract(doc: &Json) -> (r: Result<String, OcrError>)
    ensures
        res_text_view(r) == doc_extraction(*doc),
{
    let data_key = String::from_str("data");
    proof {
        reveal_strlit("data");
    }
    let data = match doc {
        Json::Obj(entries) => match lookup_key(entries, &data_key) {
            Some(d) => d,
            None => return Err(OcrError::PayloadShape),
        },
        _ => return Err(OcrError::PayloadShape),
    };
    let t3 = match index_arr(data, 3) {
        Some(x) => x,
        None => return Err(OcrError::PayloadShape),
    };
    let t4 = match index_arr(t3, 4) {
        Some(x) => x,
        None => return Err(OcrError::PayloadShape),
    };
    let target = match index_arr(t4, 0) {
        Some(x) => x,
        None => return Err(OcrError::PayloadShape),
    };
    match target {
        Json::Arr(items) => {
            if items.len() == 0 {
                return Ok(String::new());
            }
            match &items[0] {
                Json::Arr(frags) => {
                    let joined = join_fragments(frags);
                    Ok(trim_end(&joined))
                },
                _ => Err(OcrError::PayloadShape),
            }
        },
        _ => Err(OcrError::PayloadShape),
    }
}

/// Runs the whole extraction on a response text. The result is a function
/// of that text alone; in particular, when the payload pattern does not
/// match, the outcome is exactly `PayloadNotFoundError`, never partial
/// text.
pub fn extract_payload_text(text: &str) -> (r: Result<String, OcrError>)
    ensures
        res_text_view(r) == extraction_spec(text@),
{
    let blob = match find_payload(text) {
        Some(b) => b,
        None => return Err(OcrError::PayloadNotFound),
    };
    let doc = match parse_relaxed(blob.as_str()) {
        Some(d) => d,
        None => return Err(OcrError::PayloadParse),
    };
    doc_extract(&doc)
}

/// Extraction is deterministic, hence idempotent on a fixed response text:
/// any two runs on the same text agree on the outcome.
pub proof fn lemma_extraction_deterministic(
    r1: Result<String, OcrError>,
    r2: Result<String, OcrError>,
    s: Seq<char>,
)
    requires
        res_text_view(r1) == extraction_spec(s),
        res_text_view(r2) == extraction_spec(s),
    ensures
        res_text_view(r1) == res_text_view(r2),
{
}

/// When the payload pattern does not match the response text, extraction
/// fails with exactly `PayloadNotFoundError`.
pub proof fn lemma_no_match_is_not_found(s: Seq<char>)
    requires
        payload_blob(s) is None,
    ensures
        extraction_spec(s) == Err::<Seq<char>, OcrError>(OcrError::PayloadNotFound),
{
}

/// When the value at the fixed path is an empty array, the outcome is the
/// empty text, not an error.
pub proof fn lemma_empty_target_is_empty_text(doc: Json)
    requires
        match target_value(doc) {
            Some(t) => t matches Json::Arr(items) && items@.len() == 0,
            None => false,
        },
    ensures
        doc_extraction(doc) == Ok::<Seq<char>, OcrError>(Seq::<char>::empty()),
{
}

/// A non-string entry in the fragment array contributes nothing: removing
/// it leaves the joined text unchanged.
pub proof fn lemma_non_string_skipped(frags: Seq<Json>, i: int)
    requires
        0 <= i < frags.len(),
        !(frags[i] matches Json::Str(_)),
    ensures
        joined_fragments(frags) == joined_fragments(frags.remove(i)),
    decreases frags.len(),
{
    if i == frags.len() - 1 {
        assert(frags.remove(i) =~= frags.drop_last());
        assert(fragment_piece(frags.last()) =~= Seq::<char>::empty());
        assert(joined_fragments(frags.drop_last()) + Seq::<char>::empty() =~= joined_fragments(
            frags.drop_last(),
        ));
    } else {
        lemma_non_string_skipped(frags.drop_last(), i);
        assert(frags.remove(i).drop_last() =~= frags.drop_last().remove(i));
        assert(frags.remove(i).last() == frags.last());
    }
}

} // verus!
