use record_store::dispatch::{
    check_plain, content_disposition, render, render_with, Header, RecordResponse,
};
use record_store::error::Error;
use record_store::types::{Record, RecordData};

fn file(path: &str, name: &str) -> RecordData {
    RecordData::File { path: path.to_string(), name: name.to_string() }
}

#[test]
fn file_is_rendered_as_download_under_its_name() {
    let got = render(&file("/tmp/x.bin", "report.pdf"));
    let want = RecordResponse::File(Header {
        name: "Content-Disposition".to_string(),
        value: "attachment; filename=report.pdf".to_string(),
    });
    assert_eq!(got, Ok(want));
}

#[test]
fn rendered_file_does_not_show_its_path() {
    match render(&file("/srv/secret/place.bin", "a.txt")) {
        Ok(RecordResponse::File(header)) => {
            assert!(!header.name.contains("/srv/secret/place.bin"));
            assert!(!header.value.contains("/srv/secret/place.bin"));
            assert_eq!(header.value, "attachment; filename=a.txt");
        }
        other => panic!("unexpected: {:?}", other),
    }
}

#[test]
fn content_disposition_keeps_the_name_exactly() {
    let header = content_disposition("my file (1).tar.gz");
    assert_eq!(header.name, "Content-Disposition");
    assert_eq!(header.value, "attachment; filename=my file (1).tar.gz");
    let empty = content_disposition("");
    assert_eq!(empty.value, "attachment; filename=");
}

#[test]
fn url_is_rendered_as_redirect() {
    let absolute = RecordData::Url { target: "https://example.org/a?b=c".to_string() };
    assert_eq!(render(&absolute), Ok(RecordResponse::Url("https://example.org/a?b=c".to_string())));
    let relative = RecordData::Url { target: "/other/page".to_string() };
    assert_eq!(render(&relative), Ok(RecordResponse::Url("/other/page".to_string())));
}

#[test]
fn paste_is_rendered_as_its_body() {
    let body = "line one\nline two\t\u{e9}\u{4e16}\u{1f600}\r\n";
    let paste = RecordData::Paste { body: body.to_string() };
    assert_eq!(render(&paste), Ok(RecordResponse::Paste(body.to_string())));
    let empty = RecordData::Paste { body: String::new() };
    assert_eq!(render(&empty), Ok(RecordResponse::Paste(String::new())));
}

#[test]
fn name_with_line_break_is_malformed() {
    assert_eq!(render(&file("/tmp/x", "a\r\nSet-Cookie: x=1")), Err(Error::MalformedName));
    assert_eq!(render(&file("/tmp/x", "a\nb")), Err(Error::MalformedName));
    assert_eq!(render(&file("/tmp/x", "a\u{0}b")), Err(Error::MalformedName));
    assert_eq!(render(&file("/tmp/x", "a\u{7f}")), Err(Error::MalformedName));
}

#[test]
fn name_may_hold_blanks_and_other_letters() {
    assert!(render(&file("/tmp/x", "r\u{e9}sum\u{e9} final.pdf")).is_ok());
    assert!(render(&file("/tmp/x", "")).is_ok());
}

#[test]
fn target_must_be_present_and_plain() {
    let empty = RecordData::Url { target: String::new() };
    assert_eq!(render(&empty), Err(Error::MalformedTarget));
    let blank = RecordData::Url { target: "https://example.org/a b".to_string() };
    assert_eq!(render(&blank), Err(Error::MalformedTarget));
    let split = RecordData::Url { target: "/a\r\nLocation: /b".to_string() };
    assert_eq!(render(&split), Err(Error::MalformedTarget));
}

#[test]
fn check_plain_tells_blanks_from_control_characters() {
    assert!(check_plain("", true));
    assert!(check_plain("", false));
    assert!(check_plain("a b", true));
    assert!(!check_plain("a b", false));
    assert!(!check_plain("a\tb", true));
    assert!(!check_plain("ab\u{1f}", true));
    assert!(check_plain("ab\u{20}", true));
    assert!(check_plain("~\u{80}", false));
}

#[test]
fn payload_is_built_from_stored_fields() {
    let s = |t: &str| Some(t.to_string());
    assert_eq!(
        RecordData::from_fields("file", s("/tmp/x.bin"), s("report.pdf"), None, None),
        Some(file("/tmp/x.bin", "report.pdf"))
    );
    assert_eq!(
        RecordData::from_fields("url", None, None, s("/to"), s("ignored")),
        Some(RecordData::Url { target: "/to".to_string() })
    );
    assert_eq!(
        RecordData::from_fields("paste", None, None, None, s("hello")),
        Some(RecordData::Paste { body: "hello".to_string() })
    );
    assert_eq!(RecordData::from_fields("file", s("/tmp/x.bin"), None, None, None), None);
    assert_eq!(RecordData::from_fields("url", s("/p"), s("n"), None, s("b")), None);
    assert_eq!(RecordData::from_fields("paste", None, None, s("/to"), None), None);
    assert_eq!(RecordData::from_fields("File", s("/p"), s("n"), None, None), None);
    assert_eq!(RecordData::from_fields("", s("/p"), s("n"), s("t"), s("b")), None);
}

#[test]
fn record_getters_return_what_was_given() {
    let r = Record::new("abc".to_string(), file("/p", "n"), Some(3), Some(99));
    assert_eq!(r.slug(), "abc");
    assert_eq!(r.data(), &file("/p", "n"));
    assert_eq!(r.remaining_accesses(), Some(3));
    assert_eq!(r.expires_at(), Some(99));
    assert!(r.is_live(98));
    assert!(!r.is_live(99));
    assert!(!r.is_exhausted());
    let copy = r.clone();
    assert_eq!(copy, r);
    let spent = Record::new("abc".to_string(), file("/p", "n"), Some(0), None);
    assert!(spent.is_exhausted());
    assert!(!spent.is_live(0));
}

#[test]
fn only_backend_failure_is_retryable() {
    assert!(Error::BackendUnavailable.is_retryable());
    assert!(!Error::NotFound("x".to_string()).is_retryable());
    assert!(!Error::PayloadMissing.is_retryable());
    assert!(!Error::MalformedName.is_retryable());
    assert!(!Error::MalformedTarget.is_retryable());
}

#[test]
fn target_that_is_no_uri_reference_is_malformed() {
    let no_scheme = RecordData::Url { target: ":abc".to_string() };
    assert_eq!(render(&no_scheme), Err(Error::MalformedTarget));
    let bad_scheme = RecordData::Url { target: "1http://example.org/".to_string() };
    assert_eq!(render(&bad_scheme), Err(Error::MalformedTarget));
}

#[test]
fn render_with_goes_by_the_answer_it_is_given() {
    let odd = RecordData::Url { target: ":abc".to_string() };
    assert_eq!(render_with(&odd, true), Ok(RecordResponse::Url(":abc".to_string())));
    assert_eq!(render_with(&odd, false), Err(Error::MalformedTarget));
    let fine = RecordData::Url { target: "/a/b?c=d#e".to_string() };
    assert_eq!(render_with(&fine, true), Ok(RecordResponse::Url("/a/b?c=d#e".to_string())));
    assert_eq!(render_with(&fine, false), Err(Error::MalformedTarget));
    let empty = RecordData::Url { target: String::new() };
    assert_eq!(render_with(&empty, true), Err(Error::MalformedTarget));
    let blank = RecordData::Url { target: "/a b".to_string() };
    assert_eq!(render_with(&blank, true), Err(Error::MalformedTarget));
}

#[test]
fn render_with_passes_over_the_answer_for_files_and_pastes() {
    let paste = RecordData::Paste { body: "x".to_string() };
    assert_eq!(render_with(&paste, false), Ok(RecordResponse::Paste("x".to_string())));
    assert_eq!(render_with(&paste, true), Ok(RecordResponse::Paste("x".to_string())));
    assert_eq!(render_with(&file("/p", "n"), false), render_with(&file("/p", "n"), true));
    assert_eq!(render_with(&file("/p", "a\nb"), true), Err(Error::MalformedName));
}

#[test]
fn errors_describe_themselves() {
    assert_eq!(Error::NotFound("abc123".to_string()).message(), "record not found: abc123");
    assert_eq!(Error::BackendUnavailable.message(), "backend unavailable");
    assert_eq!(Error::PayloadMissing.message(), "payload missing");
    assert_eq!(Error::MalformedName.message(), "malformed file name");
    assert_eq!(Error::MalformedTarget.message(), "malformed redirect target");
}

#[test]
fn record_is_known_by_its_exact_slug() {
    let r = Record::new("Abc".to_string(), file("/p", "n"), None, None);
    assert!(r.has_slug(&"Abc".to_string()));
    assert!(!r.has_slug(&"abc".to_string()));
    assert!(!r.has_slug(&"Abcd".to_string()));
    assert!(!r.has_slug(&String::new()));
}

#[test]
fn with_remaining_accesses_changes_the_counter_only() {
    let r = Record::new("s".to_string(), file("/p", "n"), None, Some(9));
    let counted = r.with_remaining_accesses(4);
    assert_eq!(counted, Record::new("s".to_string(), file("/p", "n"), Some(4), Some(9)));
}
