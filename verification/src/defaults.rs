use vstd::prelude::*;

verus! {

/// The status of a transaction that has been accepted for processing.
pub const STATUS_PENDING: i64 = 0;

/// The status of a transaction that was refused.
pub const STATUS_FAILED: i64 = 2;

/// The method name that registers a meta contract.
pub open spec fn spec_method_contract() -> Seq<char> {
    "contract"@
}

/// The method name that writes metadata of a data key.
pub open spec fn spec_method_metadata() -> Seq<char> {
    "metadata"@
}

/// The method name that clones data.
pub open spec fn spec_method_clone() -> Seq<char> {
    "clone"@
}

/// The method name that schedules a cron job.
pub open spec fn spec_method_cron() -> Seq<char> {
    "cron"@
}

/// The name of the secp256k1 key type.
pub open spec fn spec_encryption_secp256k1() -> Seq<char> {
    "secp256k1"@
}

/// The name of the ed25519 key type.
pub open spec fn spec_encryption_ed25519() -> Seq<char> {
    "ed25519"@
}

/// The methods that a request may name.
pub open spec fn is_known_method(method: Seq<char>) -> bool {
    method == spec_method_contract() || method == spec_method_metadata() || method
        == spec_method_clone() || method == spec_method_cron()
}

/// The key types whose signatures can be verified.
pub open spec fn is_supported_key_type(key_type: Seq<char>) -> bool {
    key_type == spec_encryption_secp256k1() || key_type == spec_encryption_ed25519()
}

/// Returns the method name that registers a meta contract.
pub fn method_contract() -> (s: String)
    ensures
        s@ == spec_method_contract(),
{
    String::from_str("contract")
}

/// Returns the method name that writes metadata of a data key.
pub fn method_metadata() -> (s: String)
    ensures
        s@ == spec_method_metadata(),
{
    String::from_str("metadata")
}

/// Returns the method name that clones data.
pub fn method_clone() -> (s: String)
    ensures
        s@ == spec_method_clone(),
{
    String::from_str("clone")
}

/// Returns the method name that schedules a cron job.
pub fn method_cron() -> (s: String)
    ensures
        s@ == spec_method_cron(),
{
    String::from_str("cron")
}

/// Returns the name of the secp256k1 key type.
pub fn encryption_secp256k1() -> (s: String)
    ensures
        s@ == spec_encryption_secp256k1(),
{
    String::from_str("secp256k1")
}

/// Returns the name of the ed25519 key type.
pub fn encryption_ed25519() -> (s: String)
    ensures
        s@ == spec_encryption_ed25519(),
{
    String::from_str("ed25519")
}

/// Tells whether a request names one of the known methods.
pub fn known_method(method: &String) -> (b: bool)
    ensures
        b == is_known_method(method@),
{
    *method == method_contract() || *method == method_metadata() || *method == method_clone()
        || *method == method_cron()
}

/// Tells whether signatures made with a key of this type can be verified.
pub fn supported_key_type(key_type: &String) -> (b: bool)
    ensures
        b == is_supported_key_type(key_type@),
{
    *key_type == encryption_secp256k1() || *key_type == encryption_ed25519()
}

} // verus!
