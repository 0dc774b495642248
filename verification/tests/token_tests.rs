use base64::prelude::{Engine, BASE64_STANDARD};
use clipshare::token_gen::{generate_secure_token, TOKEN_LENGTH_BYTES};

#[test]
fn test_token_generation() {
    let token1 = generate_secure_token();
    let token2 = generate_secure_token();

    // Tokens should be different each time
    assert_ne!(token1, token2);

    // Tokens should be non-empty
    assert!(!token1.is_empty());
    assert!(!token2.is_empty());

    // Tokens should be base64 encoded (only contain valid characters)
    assert!(token1.chars().all(|c| c.is_alphanumeric() || c == '+' || c == '/' || c == '='));
}

#[test]
fn test_token_length() {
    let token = generate_secure_token();
    // Base64 encoding of 32 bytes should produce 44 characters (with padding)
    assert_eq!(token.len(), 44);
    assert_eq!(TOKEN_LENGTH_BYTES, 32);
    assert!(token.ends_with('='));
    assert!(!token[..43].contains('='));
}

#[test]
fn token_decodes_to_its_random_bytes() {
    let token = generate_secure_token();
    let bytes = BASE64_STANDARD.decode(&token).unwrap();
    assert_eq!(bytes.len(), TOKEN_LENGTH_BYTES);
    assert_eq!(BASE64_STANDARD.encode(&bytes), token);
}
