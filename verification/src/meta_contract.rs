use vstd::prelude::*;
use crate::digest::hasher;
use crate::digest::text_digest;
use crate::digest::is_hash_text;

verus! {

/// A registered meta contract: a program id bound to a content id and its owner.
#[derive(Debug, Default, Clone, PartialEq, Eq)]
pub struct MetaContract {
    pub program_id: String,
    pub public_key: String,
    pub cid: String,
}

/// The payload of a request that registers a meta contract.
#[derive(Debug, Default, Clone, PartialEq, Eq)]
pub struct TxContract {
    pub cid: String,
}

/// The program id of a meta contract: the digest text of its content id
/// followed by its owner's public key.
pub open spec fn spec_program_id(cid: Seq<char>, public_key: Seq<char>) -> Seq<char> {
    text_digest(cid + public_key)
}

impl MetaContract {
    /// Derives the program id of a meta contract from its content id and
    /// its owner's public key.
    pub fn generate_program_id(cid: String, public_key: String) -> (id: String)
        ensures
            id@ == spec_program_id(cid@, public_key@),
            is_hash_text(id@),
    {
        let mut text = cid;
        text.append(public_key.as_str());
        hasher(text)
    }
}

} // verus!
