use std::sync::atomic::{AtomicBool, Ordering};
use std::sync::Arc;
use std::time::Duration;

use clipshare::client::api::{bearer_header, classify_status, FetchError, ServerReply};
use clipshare::client::clipboard_ops::{
    file_save_path, image_save_path, plan_clipboard_write, sanitize_filename, ClipError,
    ClipboardAction,
};
use clipshare::client::config::{Args, REQUEST_TIMEOUT, SERVER_URL, TOKEN_ENV_VAR};
use clipshare::client::daemon::{clock_string, one_shot_content, DaemonState, PollDecision};
use clipshare::client::models::ClipboardContent;
use clipshare::server::handlers::{get_clipboard, set_clipboard};
use clipshare::server::models::ClipboardContent as ServerContent;
use clipshare::server::models::ClipboardRequest;
use clipshare::text::{decimal_string, parse_bool, parse_u64};

fn text(data: &str) -> ClipboardContent {
    ClipboardContent::Text { data: data.to_string() }
}

#[test]
fn test_config_access() {
    assert_eq!(SERVER_URL, "http://127.0.0.1:3000/clipboard");
    assert_eq!(REQUEST_TIMEOUT, 5);
    assert_eq!(TOKEN_ENV_VAR, "CLIPSHARE_TOKEN");
}

#[test]
fn test_args_test_default() {
    let args = Args::test_default();
    assert_eq!(args.poll_interval, Duration::from_secs(1));
    assert!(args.one_shot);
    assert!(!args.verbose);
}

#[test]
fn args_from_environment_values() {
    let args = Args::from_env(Some("5"), Some("true"), Some("false"));
    assert_eq!(args.poll_interval, Duration::from_secs(5));
    assert!(args.one_shot);
    assert!(!args.verbose);

    let args = Args::from_env(None, None, None);
    assert_eq!(args.poll_interval, Duration::from_secs(2));
    assert!(!args.one_shot);
    assert!(!args.verbose);

    // values that do not parse fall back to the defaults
    let args = Args::from_env(Some("-1"), Some("yes"), Some("TRUE"));
    assert_eq!(args.poll_interval, Duration::from_secs(2));
    assert!(!args.one_shot);
    assert!(!args.verbose);

    let args = Args::from_env(Some("+7"), None, Some("true"));
    assert_eq!(args.poll_interval, Duration::from_secs(7));
    assert!(args.verbose);
}

#[test]
fn parsing_numbers_and_flags() {
    for s in ["0", "42", "+42", "007", "18446744073709551615", "", "+", "-0", " 1", "1 ", "18446744073709551616", "1a"] {
        assert_eq!(parse_u64(s), s.parse::<u64>().ok(), "parsing {:?}", s);
    }
    for s in ["true", "false", "True", "", "truee", " false"] {
        assert_eq!(parse_bool(s), s.parse::<bool>().ok(), "parsing {:?}", s);
    }
    for n in [0u64, 9, 10, 1234567890, u64::MAX] {
        assert_eq!(decimal_string(n), n.to_string());
        assert_eq!(parse_u64(&decimal_string(n)), Some(n));
    }
}

#[test]
fn models_test_clipboard_content_hash() {
    // client entries
    let text1 = ClipboardContent::Text { data: "hello".to_string() };
    let text2 = ClipboardContent::Text { data: "hello".to_string() };
    let text3 = ClipboardContent::Text { data: "world".to_string() };

    assert_eq!(text1.content_hash(), text2.content_hash());
    assert_ne!(text1.content_hash(), text3.content_hash());

    // server entries
    let text1 = ServerContent::Text("hello".to_string());
    let text2 = ServerContent::Text("hello".to_string());
    let text3 = ServerContent::Text("world".to_string());

    assert_eq!(text1.content_hash(), text2.content_hash());
    assert_ne!(text1.content_hash(), text3.content_hash());
}

#[test]
fn test_clipboard_content_data_length() {
    let text = ClipboardContent::Text { data: "hello world".to_string() };
    assert_eq!(text.data_length(), 11);
}

#[test]
fn models_test_clipboard_content_mime_type() {
    // client entries
    let text = ClipboardContent::Text { data: "test".to_string() };
    assert_eq!(text.mime_type(), "text/plain");

    let image = ClipboardContent::Image {
        data: "abc".to_string(),
        mime_type: "image/png".to_string(),
    };
    assert_eq!(image.mime_type(), "image/png");

    // server entries
    let text = ServerContent::Text("hello".to_string());
    assert_eq!(text.mime_type(), "text/plain");

    let image = ServerContent::Image {
        data: "abc".to_string(),
        mime_type: "image/png".to_string(),
    };
    assert_eq!(image.mime_type(), "image/png");
}

#[test]
fn hashes_of_each_kind() {
    assert_eq!(text("a").content_hash(), "text:a");
    let image = ClipboardContent::Image { data: "abc".to_string(), mime_type: "image/gif".to_string() };
    assert_eq!(image.content_hash(), "image:9:image/gif:abc");
    let file = ClipboardContent::File {
        name: "n".to_string(),
        data: "d".to_string(),
        mime_type: "application/pdf".to_string(),
    };
    assert_eq!(file.content_hash(), "file:1:n:15:application/pdf:d");
    assert_eq!(file.mime_type(), "application/pdf");
    assert_eq!(file.data_length(), 1);
    // different kinds never share a key
    assert_ne!(text("abc").content_hash(), image.content_hash());
}

#[test]
fn keys_identify_entries() {
    let file = |name: &str, data: &str| ClipboardContent::File {
        name: name.to_string(),
        data: data.to_string(),
        mime_type: "text/plain".to_string(),
    };
    assert_ne!(file("a:b", "c").content_hash(), file("a", "b:c").content_hash());
    let image = |mime: &str| ClipboardContent::Image { data: "abc".to_string(), mime_type: mime.to_string() };
    assert_ne!(image("image/png").content_hash(), image("image/gif").content_hash());
    // a multi-byte name is measured in characters
    assert_eq!(file("é", "x").content_hash(), "file:1:é:10:text/plain:x");
    let server_image = ServerContent::Image { data: "abc".to_string(), mime_type: "image/png".to_string() };
    assert_eq!(server_image.content_hash(), image("image/png").content_hash());
}

#[test]
fn args_clone() {
    let args = Args::from_env(Some("9"), Some("true"), None);
    let copy = args.clone();
    assert_eq!(copy.poll_interval, Duration::from_secs(9));
    assert!(copy.one_shot);
    assert!(!copy.verbose);
}

#[test]
fn clipboard_ops_test_timestamp_format() {
    let ts = clipshare::client::clipboard_ops::timestamp();
    assert!(ts.parse::<u64>().is_ok());
}

#[test]
fn test_filename_sanitization() {
    let filename = "test/file@name#.pdf";
    let safe: String = sanitize_filename(filename);
    assert_eq!(safe, "test_file_name_.pdf");
}

#[test]
fn sanitization_keeps_unicode_letters_and_is_idempotent() {
    assert_eq!(sanitize_filename("résumé 2.pdf"), "résumé_2.pdf");
    assert_eq!(sanitize_filename("../etc\\passwd"), ".._etc_passwd");
    let once = sanitize_filename("a b/c");
    assert_eq!(sanitize_filename(&once), once);
    assert_eq!(file_save_path("../x"), "clipboard_file_.._x");
    assert_eq!(image_save_path("1700000000"), "clipboard_image_1700000000.png");
}

#[test]
fn planning_clipboard_writes() {
    assert_eq!(
        plan_clipboard_write(text("hi"), "1"),
        Ok(ClipboardAction::SetText { text: "hi".to_string() })
    );
    let image = ClipboardContent::Image { data: "aGVsbG8=".to_string(), mime_type: "image/png".to_string() };
    assert_eq!(
        plan_clipboard_write(image, "99"),
        Ok(ClipboardAction::SaveImage {
            path: "clipboard_image_99.png".to_string(),
            bytes: b"hello".to_vec(),
        })
    );
    let file = ClipboardContent::File {
        name: "a b.txt".to_string(),
        data: "eyJrZXkiOiAidmFsdWUifQ==".to_string(),
        mime_type: "application/json".to_string(),
    };
    assert_eq!(
        plan_clipboard_write(file, "99"),
        Ok(ClipboardAction::SaveFile {
            path: "clipboard_file_a_b.txt".to_string(),
            bytes: b"{\"key\": \"value\"}".to_vec(),
        })
    );
    let bad_image = ClipboardContent::Image { data: "not base64!".to_string(), mime_type: "image/png".to_string() };
    assert_eq!(plan_clipboard_write(bad_image, "1"), Err(ClipError::ImageDecode));
    let bad_file = ClipboardContent::File {
        name: "f".to_string(),
        data: "abc".to_string(),
        mime_type: "x/y".to_string(),
    };
    assert_eq!(plan_clipboard_write(bad_file, "1"), Err(ClipError::FileDecode));
    assert_eq!(ClipError::ImageDecode.message(), "Failed to decode base64 image data");
    assert_eq!(ClipError::FileDecode.message(), "Failed to decode base64 file data");
}

#[test]
fn daemon_test_timestamp_format() {
    let ts = clipshare::client::daemon::timestamp();
    assert!(ts.len() == 8); // HH:MM:SS format
    assert!(ts.contains(':'));
}

#[test]
fn clock_strings() {
    assert_eq!(clock_string(0), "00:00:00");
    assert_eq!(clock_string(45296), "12:34:56");
    assert_eq!(clock_string(86399), "23:59:59");
    assert_eq!(clock_string(86400 + 3661), "01:01:01");
}

#[test]
fn test_daemon_flow_control() {
    let running = Arc::new(AtomicBool::new(true));
    assert!(running.load(Ordering::SeqCst));

    running.store(false, Ordering::SeqCst);
    assert!(!running.load(Ordering::SeqCst));
}

#[test]
fn daemon_processes_only_new_content() {
    let mut state = DaemonState::new();
    assert_eq!(state.last_hash, "");
    assert_eq!(state.on_poll(Ok(None)), PollDecision::NoContent);
    assert_eq!(
        state.on_poll(Err(FetchError::ConnectionFailed)),
        PollDecision::FetchFailed(FetchError::ConnectionFailed)
    );

    let hash = match state.on_poll(Ok(Some(text("First")))) {
        PollDecision::Process { content, hash } => {
            assert_eq!(content, text("First"));
            hash
        }
        other => panic!("expected new content, got {:?}", other),
    };
    assert_eq!(hash, "text:First");

    // a failed hand-over is retried
    state.on_processed(hash.clone(), false);
    assert!(matches!(state.on_poll(Ok(Some(text("First")))), PollDecision::Process { .. }));

    // after a successful one, the same content is not processed again
    state.on_processed(hash, true);
    assert_eq!(state.on_poll(Ok(Some(text("First")))), PollDecision::Unchanged);
    assert!(matches!(state.on_poll(Ok(Some(text("Second")))), PollDecision::Process { .. }));
}

#[test]
fn one_shot_without_content_fails() {
    assert_eq!(one_shot_content(Some(text("x"))), Ok(text("x")));
    assert_eq!(
        one_shot_content(None),
        Err("No clipboard content available on the server".to_string())
    );
}

#[test]
fn status_codes_as_read_by_the_client() {
    assert_eq!(classify_status(200), Ok(ServerReply::Content));
    assert_eq!(classify_status(404), Ok(ServerReply::NoContent));
    assert_eq!(classify_status(401), Err(FetchError::AuthenticationFailed));
    assert_eq!(classify_status(500), Err(FetchError::ServerError));
    assert_eq!(classify_status(418), Err(FetchError::UnexpectedStatus(418)));
    assert_eq!(
        FetchError::AuthenticationFailed.message(),
        "Authentication failed - invalid or missing token"
    );
    assert_eq!(FetchError::ServerError.message(), "Internal server error - check server logs");
    assert_eq!(FetchError::ConnectionFailed.message(), "Failed to connect to server");
    assert_eq!(FetchError::ReadFailed.message(), "Failed to read response body");
    assert_eq!(FetchError::ParseFailed.message(), "Failed to parse clipboard content");
    assert_eq!(
        FetchError::UnexpectedStatus(418).message(),
        "Unexpected server response: 418 I'm a teapot"
    );
    assert_eq!(
        FetchError::UnexpectedStatus(299).message(),
        "Unexpected server response: 299 <unknown status code>"
    );
}

#[test]
fn bearer_header_value() {
    assert_eq!(bearer_header("my_token"), "Bearer my_token");
    assert_eq!(bearer_header(""), "Bearer ");
}

#[test]
fn e2e_text_content_workflow() {
    let token = "e2e_test_token";
    let header = bearer_header(token);
    assert_eq!(clipshare::server::auth::authorize_request(Some(header.as_bytes()), token), Ok(()));
    let mut state = None;
    let req = ClipboardRequest {
        content_type: "text/plain".to_string(),
        data: "E2E Test Content".to_string(),
        filename: None,
    };
    assert!(set_clipboard(&mut state, false, req).is_ok());
    assert_eq!(get_clipboard(&state, false).unwrap(), ServerContent::Text("E2E Test Content".to_string()));
}
