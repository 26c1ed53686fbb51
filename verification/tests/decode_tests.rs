use chainclone::bundle::{SourceBundle, SourceUnit};
use chainclone::decode::{bundle_from_entries, decode, decode_source_code};
use chainclone::errors::CloneError;

fn entries_of(b: &SourceBundle) -> Vec<(String, String)> {
    b.units().iter().map(|u| (u.path.clone(), u.content.clone())).collect()
}

#[test]
fn malformed_envelope_on_invalid_json() {
    assert!(matches!(decode("not json at all"), Err(CloneError::MalformedEnvelope)));
    assert!(matches!(decode(""), Err(CloneError::MalformedEnvelope)));
    assert!(matches!(decode("{\"result\":"), Err(CloneError::MalformedEnvelope)));
}

#[test]
fn malformed_envelope_on_missing_or_empty_result() {
    assert!(matches!(decode("{}"), Err(CloneError::MalformedEnvelope)));
    assert!(matches!(decode("{\"result\":[]}"), Err(CloneError::MalformedEnvelope)));
    assert!(matches!(decode("{\"result\":5}"), Err(CloneError::MalformedEnvelope)));
    assert!(matches!(decode("[1,2]"), Err(CloneError::MalformedEnvelope)));
}

#[test]
fn missing_source_code_field() {
    assert!(matches!(decode("{\"result\":[{}]}"), Err(CloneError::MissingSourceCode)));
    assert!(matches!(
        decode("{\"result\":[{\"SourceCode\":42}]}"),
        Err(CloneError::MissingSourceCode)
    ));
}

#[test]
fn single_file_source_is_unsupported() {
    assert!(matches!(
        decode("{\"result\":[{\"SourceCode\":\"pragma solidity ^0.8.0;\"}]}"),
        Err(CloneError::UnsupportedSingleFileFormat)
    ));
    assert!(matches!(
        decode("{\"result\":[{\"SourceCode\":\"\"}]}"),
        Err(CloneError::UnsupportedSingleFileFormat)
    ));
}

#[test]
fn malformed_source_object_when_unescaped_text_is_not_json() {
    assert!(matches!(
        decode("{\"result\":[{\"SourceCode\":\"{broken\"}]}"),
        Err(CloneError::MalformedSourceObject)
    ));
}

#[test]
fn missing_sources_field() {
    assert!(matches!(
        decode("{\"result\":[{\"SourceCode\":\"{{}}\"}]}"),
        Err(CloneError::MissingSources)
    ));
    assert!(matches!(
        decode("{\"result\":[{\"SourceCode\":\"{{\\\"sources\\\":3}}\"}]}"),
        Err(CloneError::MissingSources)
    ));
}

#[test]
fn missing_content_field() {
    assert!(matches!(
        decode("{\"result\":[{\"SourceCode\":\"{{\\\"sources\\\":{{\\\"A.sol\\\":{{}}}}}}\"}]}"),
        Err(CloneError::MissingContent)
    ));
    assert!(matches!(
        decode(
            "{\"result\":[{\"SourceCode\":\"{{\\\"sources\\\":{{\\\"A.sol\\\":{{\\\"content\\\":7}}}}}}\"}]}"
        ),
        Err(CloneError::MissingContent)
    ));
}

#[test]
fn doubly_encoded_bundle_round_trips() {
    // The explorer doubles every brace of the nested source object; decoding
    // restores exactly the pre-doubling structure.
    let body = r#"{"result":[{"SourceCode":"{{\"sources\":{{\"a/b/C.sol\":{{\"content\":\"content1\"}},\"D.sol\":{{\"content\":\"content2\"}}}}}}"}]}"#;
    let bundle = decode(body).expect("bundle should decode");
    let mut es = entries_of(&bundle);
    es.sort();
    assert_eq!(
        es,
        vec![
            ("D.sol".to_string(), "content2".to_string()),
            ("a/b/C.sol".to_string(), "content1".to_string()),
        ]
    );
}

#[test]
fn nested_braces_inside_content_round_trip() {
    let body = r#"{"result":[{"SourceCode":"{{\"sources\":{{\"A.sol\":{{\"content\":\"contract A {{ uint x; }}\"}}}}}}"}]}"#;
    let bundle = decode(body).expect("bundle should decode");
    let es = entries_of(&bundle);
    assert_eq!(es.len(), 1);
    assert_eq!(es[0].0, "A.sol");
    assert_eq!(es[0].1, "contract A { uint x; }");
}

#[test]
fn traversal_key_is_rejected() {
    let body = r#"{"result":[{"SourceCode":"{{\"sources\":{{\"../evil.sol\":{{\"content\":\"x\"}}}}}}"}]}"#;
    assert!(matches!(decode(body), Err(CloneError::MalformedSourceObject)));
    let body2 = r#"{"result":[{"SourceCode":"{{\"sources\":{{\"a/../evil.sol\":{{\"content\":\"x\"}}}}}}"}]}"#;
    assert!(matches!(decode(body2), Err(CloneError::MalformedSourceObject)));
    let body3 = r#"{"result":[{"SourceCode":"{{\"sources\":{{\"/etc/evil.sol\":{{\"content\":\"x\"}}}}}}"}]}"#;
    assert!(matches!(decode(body3), Err(CloneError::MalformedSourceObject)));
}

#[test]
fn dotted_names_are_not_traversals() {
    let body = r#"{"result":[{"SourceCode":"{{\"sources\":{{\"a..b/x..y.sol\":{{\"content\":\"x\"}}}}}}"}]}"#;
    assert!(decode(body).is_ok());
}

#[test]
fn decode_source_code_directly() {
    let sc = r#"{{"sources":{{"X.sol":{{"content":"c"}}}}}}"#;
    let bundle = decode_source_code(sc).expect("bundle should decode");
    let es = entries_of(&bundle);
    assert_eq!(es, vec![("X.sol".to_string(), "c".to_string())]);
    assert!(matches!(
        decode_source_code("plain text"),
        Err(CloneError::UnsupportedSingleFileFormat)
    ));
}

#[test]
fn leading_whitespace_before_source_object_is_tolerated() {
    let sc = " \t\n{{\"sources\":{{\"X.sol\":{{\"content\":\"c\"}}}}}}";
    assert!(decode_source_code(sc).is_ok());
    assert!(matches!(
        decode_source_code("   pragma solidity ^0.8.0;"),
        Err(CloneError::UnsupportedSingleFileFormat)
    ));
    assert!(matches!(
        decode_source_code("   "),
        Err(CloneError::UnsupportedSingleFileFormat)
    ));
}

#[test]
fn bundle_from_entries_reports_first_missing_content() {
    let r = bundle_from_entries(vec![
        ("A.sol".to_string(), Some("a".to_string())),
        ("B.sol".to_string(), None),
    ]);
    assert!(matches!(r, Err(CloneError::MissingContent)));
    let ok = bundle_from_entries(vec![("A.sol".to_string(), Some("a".to_string()))]).unwrap();
    assert_eq!(entries_of(&ok), vec![("A.sol".to_string(), "a".to_string())]);
}

#[test]
fn empty_sources_object_is_an_empty_bundle() {
    let body = r#"{"result":[{"SourceCode":"{{\"sources\":{{}}}}"}]}"#;
    let bundle = decode(body).expect("empty bundle should decode");
    assert_eq!(bundle.len(), 0);
    assert!(SourceBundle::new(vec![]).is_ok());
}

#[test]
fn bundle_new_validates_keys() {
    let mk = |p: &str| SourceUnit { path: p.to_string(), content: "c".to_string() };
    assert!(SourceBundle::new(vec![mk("a/b.sol"), mk("c.sol")]).is_ok());
    assert!(matches!(SourceBundle::new(vec![mk("")]), Err(CloneError::MalformedSourceObject)));
    assert!(matches!(
        SourceBundle::new(vec![mk("/a.sol")]),
        Err(CloneError::MalformedSourceObject)
    ));
    assert!(matches!(
        SourceBundle::new(vec![mk("..")]),
        Err(CloneError::MalformedSourceObject)
    ));
    assert!(matches!(
        SourceBundle::new(vec![mk("a/..")]),
        Err(CloneError::MalformedSourceObject)
    ));
    assert!(matches!(
        SourceBundle::new(vec![mk("x.sol"), mk("x.sol")]),
        Err(CloneError::MalformedSourceObject)
    ));
}
