//! Decoding the explorer response: the outer JSON envelope, the first
//! result's `SourceCode` payload, the brace-doubled inner JSON object, and
//! its `sources` map. serde_json does the JSON parsing and navigation behind
//! two trusted wrappers; what each wrapper returns is a function of its text
//! alone and carries a name, so the decode contracts below fix the result —
//! which error, or exactly which entries — for every body shape.

use vstd::prelude::*;
use crate::braces::{spec_unescape, unescape_braces};
use crate::bundle::{spec_bundle_ok, SourceBundle, SourceUnit};
use crate::chars::{chars_of, string_from_chars};
use crate::errors::CloneError;

verus! {

/// Whether serde_json accepts `s` as a JSON document. Parsing is a function
/// of the text alone, so the outcome has a name; nothing more is assumed
/// of it.
pub uninterp spec fn json_valid(s: Seq<char>) -> bool;

/// Whether the document `s` is valid JSON with a `result` array field
/// holding at least one element.
pub uninterp spec fn envelope_result_nonempty(s: Seq<char>) -> bool;

/// The `SourceCode` string of the first `result` entry of the document `s`,
/// when `s` is valid JSON, `result` is a non-empty array, and that entry has
/// a string `SourceCode` field; `None` otherwise.
pub uninterp spec fn envelope_source_code(s: Seq<char>) -> Option<Seq<char>>;

/// The entries of the `sources` object field of the document `s`, in
/// iteration order — each key with its `content` string, or `None` where an
/// entry has no string `content` — when `s` is valid JSON whose `sources`
/// field is an object; `None` otherwise.
pub uninterp spec fn sources_entries(s: Seq<char>) -> Option<Seq<(Seq<char>, Option<Seq<char>>)>>;

/// The view of extracted (key, content lookup) pairs.
pub open spec fn entries_view(es: Seq<(String, Option<String>)>) -> Seq<
    (Seq<char>, Option<Seq<char>>),
> {
    es.map(
        |i: int, e: (String, Option<String>)|
            (
                e.0@,
                match e.1 {
                    Some(c) => Some(c@),
                    None => None::<Seq<char>>,
                },
            ),
    )
}

/// How far navigating the outer envelope gets.
enum EnvelopeOutcome {
    /// The body is not valid JSON.
    NotJson,
    /// Valid JSON, but no `result` field, or not an array, or empty.
    NoResult,
    /// A non-empty `result` array whose first entry has no string
    /// `SourceCode` field.
    NoSourceCode,
    /// The `SourceCode` string of the first `result` entry.
    SourceCode(String),
}

/// Relies on `serde_json::from_str::<Value>` and `Value::{get, as_array,
/// as_str}`: parsing and navigation are functions of the text alone, so the
/// outcome ties the names above; `from_str` returns `Ok` exactly on the
/// documents it accepts as JSON, and the navigation reads the `result`
/// array's first entry's `SourceCode` string.
#[verifier::external_body]
fn read_envelope(raw: &str) -> (r: EnvelopeOutcome)
    ensures
        r is NotJson <==> !json_valid(raw@),
        r is NotJson ==> (!envelope_result_nonempty(raw@) && envelope_source_code(raw@) is None),
        r is NoResult <==> (json_valid(raw@) && !envelope_result_nonempty(raw@)),
        r is NoResult ==> envelope_source_code(raw@) is None,
        r is NoSourceCode <==> (json_valid(raw@) && envelope_result_nonempty(raw@)
            && envelope_source_code(raw@) is None),
        r matches EnvelopeOutcome::SourceCode(sc) ==> (envelope_source_code(raw@) == Some(sc@)
            && envelope_result_nonempty(raw@) && json_valid(raw@)),
        r is SourceCode <==> envelope_source_code(raw@) is Some,
{
    let v: serde_json::Value = match serde_json::from_str(raw) {
        Ok(v) => v,
        Err(_) => return EnvelopeOutcome::NotJson,
    };
    let first = match v.get("result").and_then(|r| r.as_array()).and_then(|a| a.first()) {
        Some(f) => f,
        None => return EnvelopeOutcome::NoResult,
    };
    match first.get("SourceCode").and_then(|s| s.as_str()) {
        Some(s) => EnvelopeOutcome::SourceCode(s.to_owned()),
        None => EnvelopeOutcome::NoSourceCode,
    }
}

/// How far navigating the un-doubled source object gets.
enum SourcesOutcome {
    /// The text is not valid JSON.
    NotJson,
    /// Valid JSON, but no `sources` field, or not an object.
    NoSources,
    /// The `sources` entries, each key with its `content` string when that
    /// entry has one.
    Entries(Vec<(String, Option<String>)>),
}

/// Relies on `serde_json::from_str::<Value>`, `Value::{get, as_object,
/// as_str}` and `Map::iter`: the outcome is a function of the text alone and
/// ties `sources_entries`; the iteration order and each entry's `content`
/// string lookup come verbatim from the parsed `sources` object.
#[verifier::external_body]
fn read_sources(text: &str) -> (r: SourcesOutcome)
    ensures
        r is NotJson <==> !json_valid(text@),
        r is NotJson ==> sources_entries(text@) is None,
        r is NoSources <==> (json_valid(text@) && sources_entries(text@) is None),
        r matches SourcesOutcome::Entries(es) ==> (sources_entries(text@) == Some(
            entries_view(es@),
        ) && json_valid(text@)),
        r is Entries <==> sources_entries(text@) is Some,
{
    let v: serde_json::Value = match serde_json::from_str(text) {
        Ok(v) => v,
        Err(_) => return SourcesOutcome::NotJson,
    };
    let map = match v.get("sources").and_then(|s| s.as_object()) {
        Some(m) => m,
        None => return SourcesOutcome::NoSources,
    };
    let es = map
        .iter()
        .map(|(k, w)| (k.clone(), w.get("content").and_then(|c| c.as_str()).map(str::to_owned)))
        .collect();
    SourcesOutcome::Entries(es)
}

/// The error kinds that decoding can produce.
pub open spec fn is_decode_error(e: CloneError) -> bool {
    ||| e == CloneError::MalformedEnvelope
    ||| e == CloneError::MissingSourceCode
    ||| e == CloneError::UnsupportedSingleFileFormat
    ||| e == CloneError::MalformedSourceObject
    ||| e == CloneError::MissingSources
    ||| e == CloneError::MissingContent
}

/// What the extracted `sources` entries decode to: `MissingContent` when any
/// entry lacks its `content` string; otherwise exactly these entries, if the
/// keys are safe and distinct, and `MalformedSourceObject` if not.
pub open spec fn spec_decode_entries(m: Seq<(Seq<char>, Option<Seq<char>>)>) -> Result<
    Seq<(Seq<char>, Seq<char>)>,
    CloneError,
> {
    if exists|i: int| 0 <= i < m.len() && (#[trigger] m[i]).1 is None {
        Err(CloneError::MissingContent)
    } else {
        let es = m.map(|i: int, e: (Seq<char>, Option<Seq<char>>)| (e.0, e.1->Some_0));
        if spec_bundle_ok(es) {
            Ok(es)
        } else {
            Err(CloneError::MalformedSourceObject)
        }
    }
}

/// Builds the bundle from the `sources` entries once each content lookup is
/// done: exactly `spec_decode_entries` of them.
pub fn bundle_from_entries(entries: Vec<(String, Option<String>)>) -> (r: Result<
    SourceBundle,
    CloneError,
>)
    ensures
        (match spec_decode_entries(entries_view(entries@)) {
            Ok(es) => r matches Ok(b) && b@ == es,
            Err(e) => r == Err::<SourceBundle, CloneError>(e),
        }),
        r matches Ok(b) ==> b.wf(),
{
    let ghost m = entries_view(entries@);
    let ghost target = m.map(|i: int, e: (Seq<char>, Option<Seq<char>>)| (e.0, e.1->Some_0));
    let n = entries.len();
    let mut units: Vec<SourceUnit> = Vec::new();
    let mut i: usize = 0;
    while i < n
        invariant
            i <= n == entries@.len(),
            m == entries_view(entries@),
            target == m.map(|q: int, e: (Seq<char>, Option<Seq<char>>)| (e.0, e.1->Some_0)),
            units@.map(|q: int, u: SourceUnit| u@) =~= target.take(i as int),
            forall|j: int| 0 <= j < i ==> (#[trigger] m[j]).1 is Some,
        decreases n - i,
    {
        let path = entries[i].0.clone();
        match &entries[i].1 {
            None => {
                proof {
                    assert(m[i as int].1 is None);
                }
                return Err(CloneError::MissingContent);
            },
            Some(c) => {
                proof {
                    assert(m[i as int].1 is Some);
                }
                let ghost old_map = units@.map(|q: int, u: SourceUnit| u@);
                let content = c.clone();
                let u = SourceUnit { path, content };
                proof {
                    assert(m[i as int] == (entries@[i as int].0@, Some(
                        entries@[i as int].1->Some_0@,
                    )));
                    assert(u@ == target[i as int]);
                }
                units.push(u);
                i = i + 1;
                proof {
                    assert(units@.map(|q: int, u: SourceUnit| u@) =~= old_map.push(
                        target[i as int - 1],
                    ));
                    assert(target.take(i as int) =~= target.take(i as int - 1).push(
                        target[i as int - 1],
                    ));
                    assert(units@.map(|q: int, u: SourceUnit| u@) =~= target.take(i as int));
                }
            },
        }
    }
    proof {
        assert(target.take(n as int) =~= target);
        assert(forall|j: int| 0 <= j < m.len() ==> (#[trigger] m[j]).1 is Some);
    }
    match SourceBundle::new(units) {
        Ok(b) => Ok(b),
        Err(e) => Err(e),
    }
}

/// Whether `c` is JSON insignificant whitespace.
pub open spec fn is_json_ws(c: char) -> bool {
    c == ' ' || c == '\t' || c == '\n' || c == '\r'
}

/// Whether `s` opens a JSON object: its first character past any
/// insignificant whitespace is `{`.
pub open spec fn opens_json_object(s: Seq<char>) -> bool {
    exists|i: int|
        0 <= i < s.len() && #[trigger] s[i] == '{' && (forall|j: int| 0 <= j < i ==> is_json_ws(s[j]))
}

/// Decides whether `v` opens a JSON object.
fn opens_json_object_exec(v: &Vec<char>) -> (r: bool)
    ensures
        r == opens_json_object(v@),
{
    let n = v.len();
    let mut i: usize = 0;
    while i < n
        invariant
            i <= n == v@.len(),
            forall|j: int| 0 <= j < i ==> is_json_ws(v@[j]),
        decreases n - i,
    {
        let c = v[i];
        if c == '{' {
            return true;
        }
        if !(c == ' ' || c == '\t' || c == '\n' || c == '\r') {
            proof {
                assert(forall|k: int|
                    0 <= k < v@.len() && #[trigger] v@[k] == '{' ==> !(forall|j: int|
                        0 <= j < k ==> is_json_ws(v@[j])));
            }
            return false;
        }
        i = i + 1;
    }
    false
}

/// What decoding a `SourceCode` payload `sc` must yield: single-file text is
/// unsupported; an unparsable un-doubled object is malformed; a parsed object
/// without `sources` lacks them; and extracted entries decode to exactly
/// `spec_decode_entries` of them.
pub open spec fn decode_source_code_post(sc: Seq<char>, r: Result<SourceBundle, CloneError>) -> bool {
    &&& !opens_json_object(sc) ==> r == Err::<SourceBundle, CloneError>(
        CloneError::UnsupportedSingleFileFormat,
    )
    &&& opens_json_object(sc) && !json_valid(spec_unescape(sc)) ==> r == Err::<
        SourceBundle,
        CloneError,
    >(CloneError::MalformedSourceObject)
    &&& opens_json_object(sc) && json_valid(spec_unescape(sc)) && sources_entries(spec_unescape(sc))
        is None ==> r == Err::<SourceBundle, CloneError>(CloneError::MissingSources)
    &&& opens_json_object(sc) ==> (match sources_entries(spec_unescape(sc)) {
        Some(m) => (match spec_decode_entries(m) {
            Ok(es) => r matches Ok(b) && b@ == es,
            Err(e) => r == Err::<SourceBundle, CloneError>(e),
        }),
        None => true,
    })
}

/// Decodes the `SourceCode` payload of the first result entry. A payload
/// that does not open a JSON object is plain single-file source text, which
/// is not a supported envelope; otherwise the explorer's doubled braces are
/// collapsed and the result must parse as a JSON object with a `sources`
/// object of `content` strings, which become exactly the bundle's entries.
pub fn decode_source_code(sc: &str) -> (r: Result<SourceBundle, CloneError>)
    ensures
        decode_source_code_post(sc@, r),
        r matches Ok(b) ==> b.wf(),
        r matches Err(e) ==> is_decode_error(e) && e != CloneError::MalformedEnvelope && e
            != CloneError::MissingSourceCode,
{
    let cs = chars_of(sc);
    if !opens_json_object_exec(&cs) {
        return Err(CloneError::UnsupportedSingleFileFormat);
    }
    let un = unescape_braces(&cs);
    let un_s = string_from_chars(&un);
    match read_sources(un_s.as_str()) {
        SourcesOutcome::NotJson => Err(CloneError::MalformedSourceObject),
        SourcesOutcome::NoSources => Err(CloneError::MissingSources),
        SourcesOutcome::Entries(es) => bundle_from_entries(es),
    }
}

/// Decodes a raw explorer response body into a source bundle.
///
/// A body that is not valid JSON, or lacks a non-empty `result` array, is a
/// malformed envelope; a first result entry without a string `SourceCode` is
/// missing it; and a `SourceCode` payload decodes per
/// `decode_source_code_post`: the bundle holds exactly the `sources` entries
/// of the un-doubled payload, or the error of the first stage that fails.
pub fn decode(raw: &str) -> (r: Result<SourceBundle, CloneError>)
    ensures
        !json_valid(raw@) ==> r == Err::<SourceBundle, CloneError>(CloneError::MalformedEnvelope),
        json_valid(raw@) && !envelope_result_nonempty(raw@) ==> r == Err::<
            SourceBundle,
            CloneError,
        >(CloneError::MalformedEnvelope),
        envelope_result_nonempty(raw@) && envelope_source_code(raw@) is None ==> r == Err::<
            SourceBundle,
            CloneError,
        >(CloneError::MissingSourceCode),
        (match envelope_source_code(raw@) {
            Some(sc) => decode_source_code_post(sc, r),
            None => true,
        }),
        r matches Ok(b) ==> b.wf(),
        r matches Err(e) ==> is_decode_error(e),
{
    match read_envelope(raw) {
        EnvelopeOutcome::NotJson => Err(CloneError::MalformedEnvelope),
        EnvelopeOutcome::NoResult => Err(CloneError::MalformedEnvelope),
        EnvelopeOutcome::NoSourceCode => Err(CloneError::MissingSourceCode),
        EnvelopeOutcome::SourceCode(sc) => decode_source_code(sc.as_str()),
    }
}

} // verus!
