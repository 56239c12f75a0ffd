use vstd::prelude::*;
use crate::digest::hasher;
use crate::digest::text_digest;
use crate::digest::is_hash_text;

verus! {

/// The metadata of a data key: who owns it and where its content lives.
#[derive(Debug, Default, Clone, PartialEq, Eq)]
pub struct Metadata {
    pub hash: String,
    pub data_key: String,
    pub program_id: String,
    pub alias: String,
    pub cid: String,
    pub chain_id: String,
    pub token_address: String,
    pub token_id: String,
    pub version: String,
    pub public_key: String,
    pub loose: bool,
}

/// The abstract value of a [`Metadata`].
pub struct MetadataView {
    pub hash: Seq<char>,
    pub data_key: Seq<char>,
    pub program_id: Seq<char>,
    pub alias: Seq<char>,
    pub cid: Seq<char>,
    pub chain_id: Seq<char>,
    pub token_address: Seq<char>,
    pub token_id: Seq<char>,
    pub version: Seq<char>,
    pub public_key: Seq<char>,
    pub loose: bool,
}

impl View for Metadata {
    type V = MetadataView;

    open spec fn view(&self) -> MetadataView {
        MetadataView {
            hash: self.hash@,
            data_key: self.data_key@,
            program_id: self.program_id@,
            alias: self.alias@,
            cid: self.cid@,
            chain_id: self.chain_id@,
            token_address: self.token_address@,
            token_id: self.token_id@,
            version: self.version@,
            public_key: self.public_key@,
            loose: self.loose,
        }
    }
}

/// The metadata hash: the data key, version, alias and public key, joined.
pub open spec fn spec_metadata_hash(
    data_key: Seq<char>,
    version: Seq<char>,
    alias: Seq<char>,
    public_key: Seq<char>,
) -> Seq<char> {
    data_key + version + alias + public_key
}

/// The data key of a token: the digest text of chain id, token address and
/// token id, joined.
pub open spec fn spec_data_key(
    chain_id: Seq<char>,
    token_address: Seq<char>,
    token_id: Seq<char>,
) -> Seq<char> {
    text_digest(chain_id + token_address + token_id)
}

/// The metadata that [`Metadata::new`] builds from its arguments.
pub open spec fn spec_new_metadata(
    data_key: Seq<char>,
    program_id: Seq<char>,
    alias: Seq<char>,
    cid: Seq<char>,
    public_key: Seq<char>,
    chain_id: Seq<char>,
    token_address: Seq<char>,
    token_id: Seq<char>,
    version: Seq<char>,
    loose: bool,
) -> MetadataView {
    MetadataView {
        hash: spec_metadata_hash(data_key, version, alias, public_key),
        data_key: spec_data_key(chain_id, token_address, token_id),
        program_id,
        alias,
        cid,
        chain_id,
        token_address,
        token_id,
        version,
        public_key,
        loose,
    }
}

impl Metadata {
    /// Builds metadata. The hash is taken over the given `data_key`; the
    /// stored data key is derived from the chain id and the token.
    pub fn new(
        data_key: String,
        program_id: String,
        alias: String,
        cid: String,
        public_key: String,
        chain_id: String,
        token_address: String,
        token_id: String,
        version: String,
        loose: bool,
    ) -> (m: Self)
        ensures
            m@ == spec_new_metadata(
                data_key@,
                program_id@,
                alias@,
                cid@,
                public_key@,
                chain_id@,
                token_address@,
                token_id@,
                version@,
                loose,
            ),
    {
        let hash = Self::generate_hash(
            data_key,
            version.clone(),
            alias.clone(),
            public_key.clone(),
        );
        let data_key = Self::generate_data_key(
            chain_id.clone(),
            token_address.clone(),
            token_id.clone(),
        );
        Metadata {
            hash,
            data_key,
            program_id,
            alias,
            cid,
            chain_id,
            token_address,
            token_id,
            version,
            public_key,
            loose,
        }
    }

    /// Joins the data key, version, alias and public key.
    pub fn generate_hash(data_key: String, version: String, alias: String, public_key: String) -> (h:
        String)
        ensures
            h@ == spec_metadata_hash(data_key@, version@, alias@, public_key@),
    {
        let mut text = data_key;
        text.append(version.as_str());
        text.append(alias.as_str());
        text.append(public_key.as_str());
        text
    }

    /// Derives a data key from the chain id, token address and token id.
    pub fn generate_data_key(chain_id: String, token_address: String, token_id: String) -> (k:
        String)
        ensures
            k@ == spec_data_key(chain_id@, token_address@, token_id@),
            is_hash_text(k@),
    {
        let mut text = chain_id;
        text.append(token_address.as_str());
        text.append(token_id.as_str());
        hasher(text)
    }
}

} // verus!
