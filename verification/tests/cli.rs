use hyprnote::cli::{
    batch_base_url, batch_failure_message, batch_final_response, batch_format, batch_model,
    check_base_url, extract_transcript, format_segments, group_segments, parse_base_url, required_base_url, stream_transcript,
    validate_input_path, CliError, OutputFormat, Provider,
};

#[test]
fn base_url_accepts_http_and_https() {
    assert_eq!(parse_base_url("http://localhost:3000"), Ok("http://localhost:3000".to_string()));
    assert_eq!(parse_base_url("https://api.example.com/v1"), Ok("https://api.example.com/v1".to_string()));
}

#[test]
fn base_url_rejects_other_schemes() {
    assert_eq!(
        parse_base_url("ftp://example.com"),
        Err("invalid --base-url 'ftp://example.com': scheme must be http or https".to_string())
    );
}

#[test]
fn base_url_reports_parse_errors() {
    assert_eq!(
        parse_base_url("not a url"),
        Err("invalid --base-url 'not a url': relative URL without a base".to_string())
    );
}

#[test]
fn base_url_check_uses_the_parsed_scheme() {
    assert_eq!(check_base_url("x", Ok("https".to_string())), Ok("x".to_string()));
    assert_eq!(
        check_base_url("x", Ok("HTTP".to_string())),
        Err("invalid --base-url 'x': scheme must be http or https".to_string())
    );
    assert_eq!(
        check_base_url("x", Err("boom".to_string())),
        Err("invalid --base-url 'x': boom".to_string())
    );
}

#[test]
fn base_url_is_required() {
    assert_eq!(required_base_url(Some("http://a".to_string())).unwrap(), "http://a");
    match required_base_url(None) {
        Err(CliError::RequiredArgument { name }) => assert_eq!(name, "--base-url (or CHAR_BASE_URL)"),
        other => panic!("unexpected {other:?}"),
    }
}

#[test]
fn batch_base_url_is_optional_for_the_local_server_only() {
    assert_eq!(batch_base_url(Provider::Cactus, None).unwrap(), None);
    assert_eq!(
        batch_base_url(Provider::Cactus, Some("http://x".to_string())).unwrap(),
        Some("http://x".to_string())
    );
    assert!(matches!(batch_base_url(Provider::Deepgram, None), Err(CliError::RequiredArgument { .. })));
    assert_eq!(
        batch_base_url(Provider::Soniox, Some("http://y".to_string())).unwrap(),
        Some("http://y".to_string())
    );
}

#[test]
fn batch_model_and_format() {
    assert_eq!(batch_model(String::new()), None);
    assert_eq!(batch_model("nova-3".to_string()), Some("nova-3".to_string()));
    assert_eq!(batch_format(true, OutputFormat::Pretty), OutputFormat::Json);
    assert_eq!(batch_format(false, OutputFormat::Text), OutputFormat::Text);
}

#[test]
fn input_path_must_exist_and_be_a_file() {
    assert!(validate_input_path("a.wav", true, true).is_ok());
    match validate_input_path("missing.wav", false, false) {
        Err(CliError::NotFound { what, hint }) => {
            assert_eq!(what, "input file 'missing.wav'");
            assert_eq!(hint, None);
        }
        other => panic!("unexpected {other:?}"),
    }
    match validate_input_path("dir", true, false) {
        Err(CliError::InvalidArgument { name, value, reason }) => {
            assert_eq!(name, "--input");
            assert_eq!(value, "dir");
            assert_eq!(reason, "expected a file path");
        }
        other => panic!("unexpected {other:?}"),
    }
}

#[test]
fn transcript_skips_empty_channels() {
    let channels = vec![
        Some("  hello world \n".to_string()),
        None,
        Some("   ".to_string()),
        Some("second".to_string()),
    ];
    assert_eq!(extract_transcript(&channels), "hello world\nsecond");
    assert_eq!(extract_transcript(&Vec::new()), "");
}

#[test]
fn stream_transcript_joins_segments_with_spaces() {
    let segments = vec![None, Some(" Hello ".to_string()), Some("".to_string()), Some("world".to_string())];
    let st = stream_transcript(&segments).unwrap();
    assert_eq!(st.transcript, "Hello world");
    assert_eq!(st.segments, vec![1, 3]);
    assert!(stream_transcript(&vec![None, Some(" ".to_string())]).is_none());
    assert!(stream_transcript(&Vec::new()).is_none());
}

#[test]
fn batch_failure_prefers_the_reported_failure() {
    assert_eq!(
        batch_failure_message(Some(("Timeout".to_string(), "took too long".to_string())), "join".to_string()),
        "Timeout: took too long"
    );
    assert_eq!(batch_failure_message(None, "task failed".to_string()), "task failed");
}

#[test]
fn batch_response_falls_back_to_streams() {
    assert_eq!(batch_final_response(Some(1), Some(2)).unwrap(), 1);
    assert_eq!(batch_final_response(None, Some(2)).unwrap(), 2);
    match batch_final_response::<i32>(None, None) {
        Err(CliError::OperationFailed { operation, message }) => {
            assert_eq!(operation, "batch transcription");
            assert_eq!(message, "completed without a final response");
        }
        other => panic!("unexpected {other:?}"),
    }
}

#[test]
fn words_group_into_segments_at_pauses() {
    assert_eq!(group_segments(&vec![]), vec![]);
    assert_eq!(group_segments(&vec![true]), vec![(0, 1)]);
    assert_eq!(group_segments(&vec![false, false, true, false, true]), vec![(0, 2), (2, 4), (4, 5)]);
}

#[test]
fn pretty_layout_wraps_each_segment_behind_its_stamps() {
    let words: Vec<String> = ["Hello", "world.", "Next", "one."].iter().map(|s| s.to_string()).collect();
    let stamps = vec![
        ("00:00.0".to_string(), "00:01.2".to_string()),
        ("00:03.0".to_string(), "00:04.5".to_string()),
    ];
    let out = format_segments(&words, &vec![(0, 2), (2, 4)], &stamps, 80);
    assert_eq!(
        out,
        "\x1b[2m[00:00.0 \u{2192} 00:01.2]\x1b[0m  Hello world.\n\n\x1b[2m[00:03.0 \u{2192} 00:04.5]\x1b[0m  Next one."
    );
    let narrow = format_segments(&words, &vec![(0, 4)], &stamps[..1].to_vec(), 30);
    assert!(narrow.contains('\n'));
    assert!(narrow.lines().skip(1).all(|l| l.starts_with(&" ".repeat(22))));
}
