use authful::utils::hash_session_id;

#[test]
fn hash_session_id_is_hex_sha256_of_abc() {
    assert_eq!(
        hash_session_id("abc"),
        "ba7816bf8f01cfea414140de5dae2223b00361a396177a9cb410ff61f20015ad"
    );
}

#[test]
fn hash_session_id_of_empty_token() {
    assert_eq!(
        hash_session_id(""),
        "e3b0c44298fc1c149afbf4c8996fb92427ae41e4649b934ca495991b7852b855"
    );
}

#[test]
fn hash_session_id_is_64_lowercase_hex_digits() {
    let hashed = hash_session_id("Zq9cK2mXw7LpR4sT1vB8nD3fG6hJ0yA5");
    assert_eq!(hashed.len(), 64);
    assert!(hashed.chars().all(|c| c.is_ascii_digit() || ('a'..='f').contains(&c)));
    assert_ne!(hashed, "Zq9cK2mXw7LpR4sT1vB8nD3fG6hJ0yA5");
}

#[test]
fn hash_session_id_is_deterministic_and_distinguishes_tokens() {
    assert_eq!(hash_session_id("token-a"), hash_session_id("token-a"));
    assert_ne!(hash_session_id("token-a"), hash_session_id("token-b"));
}
