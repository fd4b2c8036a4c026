use gvrunner::progress::decode_line;

#[test]
fn plain_record() {
    let ev = decode_line("{\"stage\":\"align\",\"progress\":0.5}").unwrap();
    assert_eq!(ev.stage, "align");
    assert_eq!(ev.progress, "0.5");
    assert!(ev.message.is_none());
}

#[test]
fn record_with_message() {
    let ev = decode_line("{\"stage\":\"mesh\",\"progress\":1.0,\"message\":\"done\"}").unwrap();
    assert_eq!(ev.stage, "mesh");
    assert_eq!(ev.progress, "1.0");
    assert_eq!(ev.message.as_deref(), Some("done"));
}

#[test]
fn null_message_counts_as_absent() {
    let ev = decode_line("{\"stage\":\"s\",\"progress\":1,\"message\":null}").unwrap();
    assert!(ev.message.is_none());
}

#[test]
fn free_text_is_not_a_record() {
    assert!(decode_line("warming up").is_none());
    assert!(decode_line("").is_none());
    assert!(decode_line("   ").is_none());
}

#[test]
fn missing_fields_reject() {
    assert!(decode_line("{\"stage\":\"align\"}").is_none());
    assert!(decode_line("{\"progress\":0.5}").is_none());
    assert!(decode_line("{}").is_none());
}

#[test]
fn wrong_field_kinds_reject() {
    assert!(decode_line("{\"stage\":3,\"progress\":0.5}").is_none());
    assert!(decode_line("{\"stage\":\"a\",\"progress\":\"half\"}").is_none());
    assert!(decode_line("{\"stage\":\"a\",\"progress\":0.5,\"message\":7}").is_none());
}

#[test]
fn duplicate_fields_reject() {
    assert!(decode_line("{\"stage\":\"a\",\"stage\":\"b\",\"progress\":1}").is_none());
    assert!(decode_line("{\"stage\":\"a\",\"progress\":1,\"progress\":2}").is_none());
}

#[test]
fn unknown_fields_are_ignored() {
    let ev = decode_line("{\"elapsed\":12,\"stage\":\"a\",\"ok\":true,\"progress\":1,\"extra\":null}")
        .unwrap();
    assert_eq!(ev.stage, "a");
    assert_eq!(ev.progress, "1");
}

#[test]
fn field_order_does_not_matter() {
    let ev = decode_line("{\"message\":\"m\",\"progress\":0.25,\"stage\":\"s\"}").unwrap();
    assert_eq!(ev.stage, "s");
    assert_eq!(ev.progress, "0.25");
    assert_eq!(ev.message.as_deref(), Some("m"));
}

#[test]
fn whitespace_is_tolerated() {
    let ev = decode_line("  { \"stage\" : \"a\" ,\t\"progress\" : 0.25 }  ").unwrap();
    assert_eq!(ev.stage, "a");
    assert_eq!(ev.progress, "0.25");
}

#[test]
fn string_escapes_decode() {
    let ev = decode_line("{\"stage\":\"a\\nb\",\"progress\":1,\"message\":\"q\\\"\\\\\"}").unwrap();
    assert_eq!(ev.stage, "a\nb");
    assert_eq!(ev.message.as_deref(), Some("q\"\\"));
}

#[test]
fn unicode_escapes_decode() {
    let ev = decode_line("{\"stage\":\"\\u0041B\",\"progress\":1}").unwrap();
    assert_eq!(ev.stage, "AB");
    let ev = decode_line("{\"stage\":\"caf\\u00e9\",\"progress\":1}").unwrap();
    assert_eq!(ev.stage, "caf\u{e9}");
}

#[test]
fn bad_unicode_escapes_reject() {
    assert!(decode_line("{\"stage\":\"\\ud800\",\"progress\":1}").is_none());
    assert!(decode_line("{\"stage\":\"\\uZZ11\",\"progress\":1}").is_none());
    assert!(decode_line("{\"stage\":\"\\u00\",\"progress\":1}").is_none());
}

#[test]
fn number_shapes() {
    assert_eq!(decode_line("{\"stage\":\"a\",\"progress\":1}").unwrap().progress, "1");
    assert_eq!(decode_line("{\"stage\":\"a\",\"progress\":-2.5e3}").unwrap().progress, "-2.5e3");
    assert_eq!(decode_line("{\"stage\":\"a\",\"progress\":1E+2}").unwrap().progress, "1E+2");
    assert_eq!(decode_line("{\"stage\":\"a\",\"progress\":0}").unwrap().progress, "0");
}

#[test]
fn malformed_numbers_reject() {
    assert!(decode_line("{\"stage\":\"a\",\"progress\":01}").is_none());
    assert!(decode_line("{\"stage\":\"a\",\"progress\":1.}").is_none());
    assert!(decode_line("{\"stage\":\"a\",\"progress\":.5}").is_none());
    assert!(decode_line("{\"stage\":\"a\",\"progress\":1e}").is_none());
    assert!(decode_line("{\"stage\":\"a\",\"progress\":-}").is_none());
}

#[test]
fn broken_structure_rejects() {
    assert!(decode_line("{\"stage\":\"a\",\"progress\":1").is_none());
    assert!(decode_line("{\"stage\":\"a\" \"progress\":1}").is_none());
    assert!(decode_line("{\"stage\":\"a\",\"progress\":1,}").is_none());
    assert!(decode_line("{\"stage\":\"a\",\"progress\":1}}").is_none());
    assert!(decode_line("{\"stage\":\"unterminated,\"progress\":1}").is_none());
    assert!(decode_line("[{\"stage\":\"a\",\"progress\":1}]").is_none());
}

#[test]
fn trailing_text_rejects() {
    assert!(decode_line("{\"stage\":\"a\",\"progress\":1} trailing").is_none());
}
