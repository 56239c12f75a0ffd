use transaction::defaults::encryption_ed25519;
use transaction::defaults::encryption_secp256k1;
use transaction::defaults::known_method;
use transaction::defaults::method_clone;
use transaction::defaults::method_contract;
use transaction::defaults::method_cron;
use transaction::defaults::method_metadata;
use transaction::defaults::supported_key_type;
use transaction::error::ServiceError;
use transaction::result::trie_reply_json;
use transaction::result::TrieResult;

fn s(text: &str) -> String {
    text.to_string()
}

#[test]
fn known_methods() {
    assert!(known_method(&method_contract()));
    assert!(known_method(&method_metadata()));
    assert!(known_method(&method_clone()));
    assert!(known_method(&method_cron()));
    assert!(!known_method(&s("Contract")));
    assert!(!known_method(&s("")));
}

#[test]
fn supported_key_types() {
    assert!(supported_key_type(&encryption_secp256k1()));
    assert!(supported_key_type(&encryption_ed25519()));
    assert!(!supported_key_type(&s("rsa")));
    assert!(!supported_key_type(&s("")));
}

#[test]
fn error_messages() {
    assert_eq!(ServiceError::InvalidMethod(s("invalid method: x")).message(), "invalid method: x");
    assert_eq!(ServiceError::InvalidEncryption(s("pk")).message(), "Invalid encryption: pk");
    assert_eq!(
        ServiceError::InvalidDataFormatForMethodType(s("p")).message(),
        "Invalid data format for method type: p"
    );
    assert_eq!(ServiceError::RecordFound(s("p")).message(), "Record found: p");
    assert_eq!(ServiceError::NoProgramId.message(), "No program id");
    assert_eq!(ServiceError::InvalidOwner(s("o")).message(), "o");
    assert_eq!(ServiceError::NoEncryptionType.message(), "No encryption type");
    assert_eq!(
        ServiceError::NotSupportedEncryptionType(s("rsa")).message(),
        "Not supported encryption type: rsa"
    );
    assert_eq!(ServiceError::InvalidSignature(s("x")).message(), "x");
}

#[test]
fn unavailable_trie_result() {
    let r = TrieResult::unavailable();
    assert!(!r.success);
    assert_eq!(r.result, "");
}

#[test]
fn trie_reply_of_failed_call() {
    assert_eq!(trie_reply_json(None), None);
}

#[test]
fn trie_reply_is_trimmed_and_decoded() {
    let output = s("  \"{\\\"success\\\":true,\\\"result\\\":\\\"x\\\"}\"\n");
    assert_eq!(trie_reply_json(Some(output)), Some(Some(s("{\"success\":true,\"result\":\"x\"}"))));
    assert_eq!(trie_reply_json(Some(s("\u{3000}\"ab\"\t\r\n"))), Some(Some(s("ab"))));
}

#[test]
fn trie_reply_that_is_not_a_json_string() {
    assert_eq!(trie_reply_json(Some(s("{\"success\":true}"))), Some(None));
    assert_eq!(trie_reply_json(Some(s(""))), Some(None));
}

#[test]
fn trie_result_from_parsed() {
    let found = TrieResult { success: true, result: s("[1]") };
    assert_eq!(TrieResult::from_parsed(Some(found.clone())), found);
    assert_eq!(TrieResult::from_parsed(None), TrieResult::unavailable());
}

#[test]
fn hash_texts_are_base58_of_a_digest() {
    for text in ["", "a", "hello world", "progdkdatapkal"] {
        let h = transaction::digest::hasher(s(text));
        assert!(h.len() >= 32 && h.len() <= 44);
        assert!(h.chars().all(|c| "123456789ABCDEFGHJKLMNPQRSTUVWXYZabcdefghijkmnopqrstuvwxyz".contains(c)));
    }
}
