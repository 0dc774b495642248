use clipshare::server::auth::{
    authorize_request, check_authorization, header_text, load_auth_token, AuthRejection,
    TOKEN_ENV_VAR,
};
use clipshare::server::config::{DEFAULT_LOG_FILTER, DEFAULT_SERVER_ADDRESS, DEFAULT_SERVER_PORT};
use clipshare::server::handlers::{content_from_request, get_clipboard, set_clipboard};
use clipshare::server::models::{
    AppError, ClipboardContent, ClipboardRequest, ErrorResponse, SuccessResponse,
};
use clipshare::text::starts_with;

fn request(content_type: &str, data: &str, filename: Option<&str>) -> ClipboardRequest {
    ClipboardRequest {
        content_type: content_type.to_string(),
        data: data.to_string(),
        filename: filename.map(|f| f.to_string()),
    }
}

#[test]
fn test_clipboard_content_size() {
    let text = ClipboardContent::Text("hello".to_string());
    assert_eq!(text.size_bytes(), 5);

    let image = ClipboardContent::Image {
        data: "abcdef".to_string(),
        mime_type: "image/png".to_string(),
    };
    assert_eq!(image.size_bytes(), 6);
}

#[test]
fn test_success_response_creation() {
    let response = SuccessResponse::new("Test message");
    assert_eq!(response.status, "success");
    assert_eq!(response.message, "Test message");
}

#[test]
fn test_error_response_creation() {
    let response = ErrorResponse::new("Error message");
    assert_eq!(response.status, "error");
    assert_eq!(response.message, "Error message");
}

#[test]
fn test_app_error_display() {
    let err = AppError::NoContent;
    assert_eq!(err.to_string(), "No clipboard content available");

    let err = AppError::InternalServerError("test error".to_string());
    assert_eq!(err.to_string(), "Internal server error: test error");
}

#[test]
fn test_auth_token_env_var() {
    assert_eq!(TOKEN_ENV_VAR, "CLIPSHARE_TOKEN");
}

#[test]
fn test_token_validation_logic() {
    // Test the Bearer token prefix validation logic
    let valid_token = "Bearer my_token";
    assert!(valid_token.starts_with("Bearer "));
    assert_eq!(&valid_token[7..], "my_token");

    let invalid_token = "InvalidFormat my_token";
    assert!(!invalid_token.starts_with("Bearer "));

    // The same decisions as the library takes them
    assert!(starts_with(valid_token, "Bearer "));
    assert_eq!(check_authorization(Some(valid_token), "my_token"), Ok(()));
    assert!(!starts_with(invalid_token, "Bearer "));
    assert_eq!(
        check_authorization(Some(invalid_token), "my_token"),
        Err(AuthRejection::InvalidFormat)
    );
}

#[test]
fn test_load_auth_token_error() {
    // An empty value is still a set value
    let result = load_auth_token(Some(String::new()));
    assert!(result.is_ok());

    // An unset variable is an error
    let result = load_auth_token(None);
    assert!(result.is_err());
}

#[test]
fn config_test_config_constants() {
    // server
    assert_eq!(DEFAULT_SERVER_PORT, 3000);
    assert_eq!(DEFAULT_SERVER_ADDRESS, "0.0.0.0");
    assert!(DEFAULT_LOG_FILTER.contains("clip_server"));

    // client
    assert_eq!(clipshare::client::config::SERVER_URL, "http://127.0.0.1:3000/clipboard");
    assert_eq!(clipshare::client::config::REQUEST_TIMEOUT, 5);
    assert_eq!(clipshare::client::config::TOKEN_ENV_VAR, "CLIPSHARE_TOKEN");
    assert_eq!(clipshare::client::config::DEFAULT_POLL_INTERVAL, 2);
}

#[test]
fn test_main_components() {
    assert_eq!(TOKEN_ENV_VAR, "CLIPSHARE_TOKEN");
    assert_eq!(DEFAULT_SERVER_PORT, 3000);
    assert_eq!(DEFAULT_SERVER_ADDRESS, "0.0.0.0");
}

#[test]
fn test_clipboard_state_operations() {
    let mut state: Option<ClipboardContent> = None;

    // Test initial state is empty
    assert!(state.is_none());
    assert!(matches!(get_clipboard(&state, false), Err(AppError::NoContent)));

    // Test writing text content
    state = Some(ClipboardContent::Text("test content".to_string()));

    // Test reading content
    assert!(state.is_some());
    if let Some(content) = state.as_ref() {
        assert_eq!(content.mime_type(), "text/plain");
        assert_eq!(content.size_bytes(), 12);
    }
    let read = get_clipboard(&state, false).unwrap();
    assert_eq!(read, ClipboardContent::Text("test content".to_string()));
    state = None;
    assert!(state.is_none());
}

#[test]
fn test_clipboard_content_from_request() {
    let request = ClipboardRequest {
        content_type: "text/plain".to_string(),
        data: "test data".to_string(),
        filename: None,
    };

    assert_eq!(request.content_type, "text/plain");
    assert_eq!(request.data, "test data");
    assert!(request.filename.is_none());
    assert_eq!(
        content_from_request(&request),
        ClipboardContent::Text("test data".to_string())
    );
}

#[test]
fn request_classification_by_content_type() {
    assert_eq!(
        content_from_request(&request("image/png", "iVBOR", None)),
        ClipboardContent::Image { data: "iVBOR".to_string(), mime_type: "image/png".to_string() }
    );
    assert_eq!(
        content_from_request(&request("application/json", "{}", Some("test.json"))),
        ClipboardContent::File {
            name: "test.json".to_string(),
            data: "{}".to_string(),
            mime_type: "application/json".to_string(),
        }
    );
    let unnamed = |ct: &str| match content_from_request(&request(ct, "x", None)) {
        ClipboardContent::File { name, .. } => name,
        other => panic!("not a file: {:?}", other),
    };
    assert_eq!(unnamed("application/pdf"), "unknown.pdf");
    assert_eq!(unnamed("application/zip"), "unknown.zip");
    assert_eq!(unnamed("application/json"), "unknown.json");
    assert_eq!(unnamed("application/octet-stream"), "unknown.bin");
    // "text/" must be a prefix, not just occur somewhere
    assert_eq!(unnamed("application/text/pdf"), "unknown.pdf");
    // an empty content type is a file too
    assert_eq!(unnamed(""), "unknown.bin");
}

#[test]
fn read_after_write_and_overwrite() {
    let mut state: Option<ClipboardContent> = None;
    let ok = set_clipboard(&mut state, false, request("text/plain", "First", None)).unwrap();
    assert_eq!(ok.status, "success");
    assert_eq!(ok.message, "Clipboard content updated successfully");
    assert_eq!(get_clipboard(&state, false).unwrap(), ClipboardContent::Text("First".to_string()));

    set_clipboard(&mut state, false, request("text/plain", "Second", None)).unwrap();
    assert_eq!(get_clipboard(&state, false).unwrap(), ClipboardContent::Text("Second".to_string()));
}

#[test]
fn poisoned_lock_errors() {
    let mut state: Option<ClipboardContent> = Some(ClipboardContent::Text("kept".to_string()));
    match set_clipboard(&mut state, true, request("text/plain", "lost", None)) {
        Err(e) => {
            assert_eq!(e.status_code(), 500);
            assert_eq!(e.to_string(), "Internal server error: Failed to update clipboard content");
        }
        Ok(_) => panic!("a poisoned lock must fail"),
    }
    assert_eq!(state, Some(ClipboardContent::Text("kept".to_string())));
    match get_clipboard(&state, true) {
        Err(AppError::InternalServerError(msg)) => {
            assert_eq!(msg, "Failed to retrieve clipboard content")
        }
        other => panic!("unexpected {:?}", other),
    }
}

#[test]
fn error_replies() {
    let (status, body) = AppError::NoContent.into_response();
    assert_eq!(status, 404);
    assert_eq!(body.status, "error");
    assert_eq!(body.message, "No clipboard content available");
    let (status, body) = AppError::InternalServerError("boom".to_string()).into_response();
    assert_eq!(status, 500);
    assert_eq!(body.message, "boom");
}

#[test]
fn content_display_and_hash() {
    assert_eq!(ClipboardContent::Text("héllo".to_string()).to_string(), "Text (6 bytes)");
    let image = ClipboardContent::Image { data: "abc".to_string(), mime_type: "image/png".to_string() };
    assert_eq!(image.to_string(), "Image (image/png)");
    assert_eq!(image.content_hash(), "image:9:image/png:abc");
    let file = ClipboardContent::File {
        name: "a.txt".to_string(),
        data: "ZGF0YQ==".to_string(),
        mime_type: "text/x".to_string(),
    };
    assert_eq!(file.to_string(), "File a.txt (text/x)");
    assert_eq!(file.content_hash(), "file:5:a.txt:6:text/x:ZGF0YQ==");
    assert_eq!(file.mime_type(), "text/x");
    assert_eq!(file.size_bytes(), 8);
}

#[test]
fn authentication_decisions() {
    let token = "e2e_test_token";
    assert_eq!(authorize_request(None, token), Err(AuthRejection::MissingHeader));
    assert_eq!(
        authorize_request(Some(b"Bearer wrong_token"), token),
        Err(AuthRejection::InvalidToken)
    );
    assert_eq!(authorize_request(Some(b"Basic abc"), token), Err(AuthRejection::InvalidFormat));
    assert_eq!(authorize_request(Some(b"Bearer e2e_test_token"), token), Ok(()));
    // a header that is not visible ASCII counts as missing
    assert_eq!(
        authorize_request(Some(b"Bearer e2e_test_token\x01"), token),
        Err(AuthRejection::MissingHeader)
    );
    // "Bearer" without the space, and trailing text after the token
    assert_eq!(authorize_request(Some(b"Bearer"), token), Err(AuthRejection::InvalidFormat));
    assert_eq!(
        authorize_request(Some(b"Bearer e2e_test_token "), token),
        Err(AuthRejection::InvalidToken)
    );
    for r in [AuthRejection::MissingHeader, AuthRejection::InvalidFormat, AuthRejection::InvalidToken] {
        assert_eq!(r.status_code(), 401);
    }
    assert_eq!(AuthRejection::InvalidToken.reason(), "Unauthorized request: Invalid token");
}

#[test]
fn header_text_reads_visible_ascii() {
    assert_eq!(header_text(b"Bearer a\tb~"), Some("Bearer a\tb~".to_string()));
    assert_eq!(header_text(b""), Some(String::new()));
    assert_eq!(header_text(b"caf\xc3\xa9"), None);
    assert_eq!(header_text(b"a\x7f"), None);
}

#[test]
fn e2e_authentication_required() {
    let token = "e2e_test_token";
    let state: Option<ClipboardContent> = None;
    // without authentication
    let refused = authorize_request(None, token).unwrap_err();
    assert_eq!(refused.status_code(), 401);
    // with the wrong token
    let refused = authorize_request(Some(b"Bearer wrong_token"), token).unwrap_err();
    assert_eq!(refused.status_code(), 401);
    // with the right token, but nothing stored yet
    let header = clipshare::client::api::bearer_header(token);
    assert_eq!(authorize_request(Some(header.as_bytes()), token), Ok(()));
    let err = get_clipboard(&state, false).unwrap_err();
    assert_eq!(err.status_code(), 404);
}

#[test]
fn e2e_content_type_detection() {
    let mut state: Option<ClipboardContent> = None;
    set_clipboard(&mut state, false, request("text/plain", "Plain text content", None)).unwrap();
    let content = get_clipboard(&state, false).unwrap();
    assert!(matches!(content, ClipboardContent::Text(_)));

    let base64_image = "iVBORw0KGgoAAAANSUhEUgAAAAEAAAABCAYAAAAfFcSJAAAADUlEQVR42mNk+M9QDwADhgGAWjR9awAAAABJRU5ErkJggg==";
    set_clipboard(&mut state, false, request("image/png", base64_image, None)).unwrap();
    let content = get_clipboard(&state, false).unwrap();
    assert!(matches!(content, ClipboardContent::Image { .. }));
    assert_eq!(content.mime_type(), "image/png");

    set_clipboard(
        &mut state,
        false,
        request("application/json", "{\"key\": \"value\"}", Some("test.json")),
    )
    .unwrap();
    let content = get_clipboard(&state, false).unwrap();
    assert!(matches!(content, ClipboardContent::File { .. }));
    assert_eq!(content.mime_type(), "application/json");
}

#[test]
fn e2e_content_overwrite() {
    let mut state: Option<ClipboardContent> = None;
    set_clipboard(&mut state, false, request("text/plain", "First", None)).unwrap();
    set_clipboard(&mut state, false, request("text/plain", "Second", None)).unwrap();
    assert_eq!(get_clipboard(&state, false).unwrap(), ClipboardContent::Text("Second".to_string()));
}
