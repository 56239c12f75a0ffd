use vstd::prelude::*;
use crate::digest::hasher;
use crate::digest::text_digest;
use crate::digest::is_hash_text;

verus! {

/// A request to publish data, as a client submits it.
#[derive(Debug, Default, Clone, PartialEq, Eq)]
pub struct TransactionRequest {
    pub program_id: String,
    pub alias: String,
    pub public_key: String,
    pub signature: String,
    pub data: String,
    pub method: String,
    pub chain_id: String,
    pub token_address: String,
    pub token_id: String,
    pub version: String,
    pub mcdata: String,
}

/// The abstract value of a [`TransactionRequest`].
pub struct RequestView {
    pub program_id: Seq<char>,
    pub alias: Seq<char>,
    pub public_key: Seq<char>,
    pub signature: Seq<char>,
    pub data: Seq<char>,
    pub method: Seq<char>,
    pub chain_id: Seq<char>,
    pub token_address: Seq<char>,
    pub token_id: Seq<char>,
    pub version: Seq<char>,
    pub mcdata: Seq<char>,
}

impl View for TransactionRequest {
    type V = RequestView;

    open spec fn view(&self) -> RequestView {
        RequestView {
            program_id: self.program_id@,
            alias: self.alias@,
            public_key: self.public_key@,
            signature: self.signature@,
            data: self.data@,
            method: self.method@,
            chain_id: self.chain_id@,
            token_address: self.token_address@,
            token_id: self.token_id@,
            version: self.version@,
            mcdata: self.mcdata@,
        }
    }
}

/// A transaction as it is stored in the trie.
#[derive(Debug, Default, Clone, PartialEq, Eq)]
pub struct Transaction {
    pub hash: String,
    pub method: String,
    pub program_id: String,
    pub data_key: String,
    pub data: String,
    pub public_key: String,
    pub alias: String,
    pub timestamp: u64,
    pub chain_id: String,
    pub token_address: String,
    pub token_id: String,
    pub version: String,
    pub mcdata: String,
    pub status: i64,
}

/// The abstract value of a [`Transaction`].
pub struct TransactionView {
    pub hash: Seq<char>,
    pub method: Seq<char>,
    pub program_id: Seq<char>,
    pub data_key: Seq<char>,
    pub data: Seq<char>,
    pub public_key: Seq<char>,
    pub alias: Seq<char>,
    pub timestamp: u64,
    pub chain_id: Seq<char>,
    pub token_address: Seq<char>,
    pub token_id: Seq<char>,
    pub version: Seq<char>,
    pub mcdata: Seq<char>,
    pub status: i64,
}

impl View for Transaction {
    type V = TransactionView;

    open spec fn view(&self) -> TransactionView {
        TransactionView {
            hash: self.hash@,
            method: self.method@,
            program_id: self.program_id@,
            data_key: self.data_key@,
            data: self.data@,
            public_key: self.public_key@,
            alias: self.alias@,
            timestamp: self.timestamp,
            chain_id: self.chain_id@,
            token_address: self.token_address@,
            token_id: self.token_id@,
            version: self.version@,
            mcdata: self.mcdata@,
            status: self.status,
        }
    }
}

/// The receipt written beside a transaction that failed.
#[derive(Debug, Default, Clone, PartialEq, Eq)]
pub struct TransactionReceipt {
    pub hash: String,
    pub program_id: String,
    pub status: i64,
    pub timestamp: u64,
    pub error_text: String,
    pub data: String,
}

/// The abstract value of a [`TransactionReceipt`].
pub struct ReceiptView {
    pub hash: Seq<char>,
    pub program_id: Seq<char>,
    pub status: i64,
    pub timestamp: u64,
    pub error_text: Seq<char>,
    pub data: Seq<char>,
}

impl View for TransactionReceipt {
    type V = ReceiptView;

    open spec fn view(&self) -> ReceiptView {
        ReceiptView {
            hash: self.hash@,
            program_id: self.program_id@,
            status: self.status,
            timestamp: self.timestamp,
            error_text: self.error_text@,
            data: self.data@,
        }
    }
}

/// A transaction together with its receipt, if it has one: the record that
/// is inserted into the trie.
#[derive(Debug, Clone, PartialEq, Eq)]
pub struct TrieTransaction {
    pub transaction: Transaction,
    pub receipt: Option<TransactionReceipt>,
}

/// The abstract value of a [`TrieTransaction`].
pub struct TrieTransactionView {
    pub transaction: TransactionView,
    pub receipt: Option<ReceiptView>,
}

impl View for TrieTransaction {
    type V = TrieTransactionView;

    open spec fn view(&self) -> TrieTransactionView {
        TrieTransactionView {
            transaction: self.transaction@,
            receipt: match self.receipt {
                Some(r) => Some(r@),
                None => None,
            },
        }
    }
}

/// The text that a transaction hash is computed over: the content fields
/// followed by the previous content.
pub open spec fn hash_preimage(
    program_id: Seq<char>,
    data_key: Seq<char>,
    data: Seq<char>,
    public_key: Seq<char>,
    alias: Seq<char>,
    method: Seq<char>,
    version: Seq<char>,
    mcdata: Seq<char>,
    previous_content: Seq<char>,
) -> Seq<char> {
    program_id + data_key + data + public_key + alias + method + version + mcdata
        + previous_content
}

/// The hash of a transaction: the digest text of its preimage.
pub open spec fn spec_transaction_hash(
    program_id: Seq<char>,
    data_key: Seq<char>,
    data: Seq<char>,
    public_key: Seq<char>,
    alias: Seq<char>,
    method: Seq<char>,
    version: Seq<char>,
    mcdata: Seq<char>,
    previous_content: Seq<char>,
) -> Seq<char> {
    text_digest(
        hash_preimage(
            program_id,
            data_key,
            data,
            public_key,
            alias,
            method,
            version,
            mcdata,
            previous_content,
        ),
    )
}

/// The transaction that [`Transaction::new`] builds from its arguments.
pub open spec fn spec_new_transaction(
    program_id: Seq<char>,
    data_key: Seq<char>,
    data: Seq<char>,
    public_key: Seq<char>,
    alias: Seq<char>,
    timestamp: u64,
    method: Seq<char>,
    chain_id: Seq<char>,
    token_address: Seq<char>,
    token_id: Seq<char>,
    version: Seq<char>,
    mcdata: Seq<char>,
    status: i64,
    previous_data: Seq<char>,
) -> TransactionView {
    TransactionView {
        hash: spec_transaction_hash(
            program_id,
            data_key,
            data,
            public_key,
            alias,
            method,
            version,
            mcdata,
            previous_data,
        ),
        method,
        program_id,
        data_key,
        data,
        public_key,
        alias,
        timestamp,
        chain_id,
        token_address,
        token_id,
        version,
        mcdata,
        status,
    }
}

impl Transaction {
    /// Builds a transaction and computes its hash over the content fields and
    /// `previous_data`.
    pub fn new(
        program_id: String,
        data_key: String,
        data: String,
        public_key: String,
        alias: String,
        timestamp: u64,
        method: String,
        chain_id: String,
        token_address: String,
        token_id: String,
        version: String,
        mcdata: String,
        status: i64,
        previous_data: String,
    ) -> (tx: Self)
        ensures
            tx@ == spec_new_transaction(
                program_id@,
                data_key@,
                data@,
                public_key@,
                alias@,
                timestamp,
                method@,
                chain_id@,
                token_address@,
                token_id@,
                version@,
                mcdata@,
                status,
                previous_data@,
            ),
    {
        let hash = Self::generate_hash(
            program_id.clone(),
            data_key.clone(),
            data.clone(),
            public_key.clone(),
            alias.clone(),
            method.clone(),
            version.clone(),
            mcdata.clone(),
            previous_data,
        );
        Transaction {
            hash,
            method,
            program_id,
            data_key,
            data,
            public_key,
            alias,
            timestamp,
            chain_id,
            token_address,
            token_id,
            version,
            mcdata,
            status,
        }
    }

    /// Generates a transaction hash with the formula
    /// hash(transaction content + previous content): the digest text of the
    /// concatenated fields.
    pub fn generate_hash(
        program_id: String,
        data_key: String,
        data: String,
        public_key: String,
        alias: String,
        method: String,
        version: String,
        mcdata: String,
        previous_content: String,
    ) -> (h: String)
        ensures
            h@ == spec_transaction_hash(
                program_id@,
                data_key@,
                data@,
                public_key@,
                alias@,
                method@,
                version@,
                mcdata@,
                previous_content@,
            ),
            is_hash_text(h@),
    {
        let mut text = program_id;
        text.append(data_key.as_str());
        text.append(data.as_str());
        text.append(public_key.as_str());
        text.append(alias.as_str());
        text.append(method.as_str());
        text.append(version.as_str());
        text.append(mcdata.as_str());
        text.append(previous_content.as_str());
        hasher(text)
    }
}

} // verus!
