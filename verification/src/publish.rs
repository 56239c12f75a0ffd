use vstd::prelude::*;
use crate::defaults::is_known_method;
use crate::defaults::is_supported_key_type;
use crate::defaults::known_method;
use crate::defaults::supported_key_type;
use crate::defaults::method_contract;
use crate::defaults::method_metadata;
use crate::defaults::spec_method_contract;
use crate::defaults::spec_method_metadata;
use crate::defaults::STATUS_FAILED;
use crate::defaults::STATUS_PENDING;
use crate::digest::hasher;
use crate::digest::text_digest;
use crate::error::error_text;
use crate::error::ErrorView;
use crate::error::ServiceError;
use crate::meta_contract::spec_program_id;
use crate::meta_contract::MetaContract;
use crate::meta_contract::TxContract;
use crate::metadata::spec_data_key;
use crate::metadata::spec_metadata_hash;
use crate::metadata::Metadata;
use crate::result::FdbResult;
use crate::result::TrieResult;
use crate::result::TrieResultView;
use crate::transaction::spec_new_transaction;
use crate::transaction::ReceiptView;
use crate::transaction::RequestView;
use crate::transaction::Transaction;
use crate::transaction::TransactionReceipt;
use crate::transaction::TransactionRequest;
use crate::transaction::TransactionView;
use crate::transaction::TrieTransaction;
use crate::transaction::TrieTransactionView;

verus! {

/// The view of an optional error.
pub open spec fn error_view(e: Option<ServiceError>) -> Option<ErrorView> {
    match e {
        Some(err) => Some(err@),
        None => None,
    }
}

/// The record that publishing writes: the transaction built from the request
/// and the decided program id, data key and previous content; when an error
/// was found, the transaction is marked failed and a receipt carries the
/// error's text.
pub open spec fn spec_record(
    req: RequestView,
    program_id: Seq<char>,
    data_key: Seq<char>,
    content: Seq<char>,
    error: Option<ErrorView>,
    timestamp: u64,
) -> TrieTransactionView {
    let tx = spec_new_transaction(
        program_id,
        data_key,
        req.data,
        req.public_key,
        req.alias,
        timestamp,
        req.method,
        req.chain_id,
        req.token_address,
        req.token_id,
        req.version,
        req.mcdata,
        STATUS_PENDING,
        content,
    );
    match error {
        None => TrieTransactionView { transaction: tx, receipt: None },
        Some(e) => TrieTransactionView {
            transaction: TransactionView { status: STATUS_FAILED, ..tx },
            receipt: Some(
                ReceiptView {
                    hash: tx.hash,
                    program_id: tx.program_id,
                    status: STATUS_FAILED,
                    timestamp,
                    error_text: error_text(e),
                    data: tx.data,
                },
            ),
        },
    }
}

/// Builds the record that publishing writes into the trie.
pub fn build_record(
    request: &TransactionRequest,
    program_id: String,
    data_key: String,
    content: String,
    error: &Option<ServiceError>,
    timestamp: u64,
) -> (record: TrieTransaction)
    ensures
        record@ == spec_record(request@, program_id@, data_key@, content@, error_view(*error), timestamp),
        record.receipt is Some <==> error is Some,
        record.receipt is Some <==> record.transaction.status == STATUS_FAILED,
        record.receipt matches Some(r) ==> {
            &&& r.hash@ == record.transaction.hash@
            &&& r.program_id@ == record.transaction.program_id@
            &&& r.data@ == record.transaction.data@
            &&& r.timestamp == record.transaction.timestamp
            &&& r.status == record.transaction.status
        },
{
    let mut transaction = Transaction::new(
        program_id,
        data_key,
        request.data.clone(),
        request.public_key.clone(),
        request.alias.clone(),
        timestamp,
        request.method.clone(),
        request.chain_id.clone(),
        request.token_address.clone(),
        request.token_id.clone(),
        request.version.clone(),
        request.mcdata.clone(),
        STATUS_PENDING,
        content,
    );
    match error {
        None => TrieTransaction { transaction, receipt: None },
        Some(e) => {
            transaction.status = STATUS_FAILED;
            let receipt = TransactionReceipt {
                hash: transaction.hash.clone(),
                program_id: transaction.program_id.clone(),
                status: STATUS_FAILED,
                timestamp,
                error_text: e.message(),
                data: transaction.data.clone(),
            };
            TrieTransaction { transaction, receipt: Some(receipt) }
        },
    }
}


/// Where a run of `publish` stands: which answer it waits for.
#[derive(Debug, Clone, Copy, PartialEq, Eq, Structural)]
pub enum Phase {
    AwaitKeyType,
    AwaitContractData,
    AwaitContractLookup,
    AwaitContractRecords,
    AwaitProgramLookup,
    AwaitMetadataLookup,
    AwaitMetadataRecords,
    AwaitVerification,
    AwaitClock,
    AwaitInsert,
    Done,
}

/// A run of `publish` for one request: what has been decided so far.
pub struct Publish {
    request: TransactionRequest,
    key_type: String,
    program_id: String,
    data_key: String,
    content: String,
    error: Option<ServiceError>,
    tx_hash: String,
    phase: Phase,
}

/// The abstract value of a [`Publish`] run.
pub struct PublishView {
    pub request: RequestView,
    pub key_type: Seq<char>,
    pub program_id: Seq<char>,
    pub data_key: Seq<char>,
    pub content: Seq<char>,
    pub error: Option<ErrorView>,
    pub tx_hash: Seq<char>,
    pub phase: Phase,
}

impl View for Publish {
    type V = PublishView;

    closed spec fn view(&self) -> PublishView {
        PublishView {
            request: self.request@,
            key_type: self.key_type@,
            program_id: self.program_id@,
            data_key: self.data_key@,
            content: self.content@,
            error: error_view(self.error),
            tx_hash: self.tx_hash@,
            phase: self.phase,
        }
    }
}

/// An answer from outside that a run waits for.
pub enum Event {
    /// The key type of the request's public key, empty when it is unknown.
    KeyType(String),
    /// The request's data read as a contract payload, `None` when it is not one.
    ContractData(Option<TxContract>),
    /// The trie's answer to the last query.
    TrieReply(TrieResult),
    /// The trie's result read as meta contracts, `None` when it is not a list of them.
    MetaContracts(Option<Vec<MetaContract>>),
    /// The trie's result read as metadata, `None` when it is not a list of them.
    MetadataRecords(Option<Vec<Metadata>>),
    /// Whether the request's signature holds.
    Verified(bool),
    /// The current time in milliseconds since the Unix epoch.
    Clock(u64),
    /// The record has been inserted.
    Inserted,
}

/// The abstract value of an [`Event`].
pub enum EventView {
    KeyType(Seq<char>),
    ContractData(Option<Seq<char>>),
    TrieReply(TrieResultView),
    MetaContracts(Option<Seq<MetaContract>>),
    MetadataRecords(Option<Seq<Metadata>>),
    Verified(bool),
    Clock(u64),
    Inserted,
}

impl View for Event {
    type V = EventView;

    open spec fn view(&self) -> EventView {
        match self {
            Event::KeyType(k) => EventView::KeyType(k@),
            Event::ContractData(c) => EventView::ContractData(
                match c {
                    Some(tc) => Some(tc.cid@),
                    None => None,
                },
            ),
            Event::TrieReply(r) => EventView::TrieReply(r@),
            Event::MetaContracts(m) => EventView::MetaContracts(
                match m {
                    Some(v) => Some(v@),
                    None => None,
                },
            ),
            Event::MetadataRecords(m) => EventView::MetadataRecords(
                match m {
                    Some(v) => Some(v@),
                    None => None,
                },
            ),
            Event::Verified(b) => EventView::Verified(*b),
            Event::Clock(t) => EventView::Clock(*t),
            Event::Inserted => EventView::Inserted,
        }
    }
}

/// What a run asks to be done next.
pub enum Action {
    /// Look up the key type of a public key.
    QueryKeyType { public_key: String },
    /// Read the request's data as a contract payload.
    ParseContract { data: String },
    /// Query the trie.
    FilterTrie { trie_key: String, filter_key: String, filters: Option<String> },
    /// Read a trie result as a list of meta contracts.
    ParseMetaContracts { json: String },
    /// Read a trie result as a list of metadata.
    ParseMetadata { json: String },
    /// Check a signature of a message.
    VerifySignature { public_key: String, signature: String, message: String, encryption: String },
    /// Read the clock.
    ReadClock,
    /// Insert a record into the trie.
    Insert { record: TrieTransaction },
    /// The run is over; hand this result to the client.
    Finish { result: FdbResult },
}

/// The abstract value of an [`Action`].
pub enum ActionView {
    QueryKeyType { public_key: Seq<char> },
    ParseContract { data: Seq<char> },
    FilterTrie { trie_key: Seq<char>, filter_key: Seq<char>, filters: Option<Seq<char>> },
    ParseMetaContracts { json: Seq<char> },
    ParseMetadata { json: Seq<char> },
    VerifySignature {
        public_key: Seq<char>,
        signature: Seq<char>,
        message: Seq<char>,
        encryption: Seq<char>,
    },
    ReadClock,
    Insert { record: TrieTransactionView },
    Finish { transaction_hash: Seq<char> },
}

impl View for Action {
    type V = ActionView;

    open spec fn view(&self) -> ActionView {
        match self {
            Action::QueryKeyType { public_key } => ActionView::QueryKeyType {
                public_key: public_key@,
            },
            Action::ParseContract { data } => ActionView::ParseContract { data: data@ },
            Action::FilterTrie { trie_key, filter_key, filters } => ActionView::FilterTrie {
                trie_key: trie_key@,
                filter_key: filter_key@,
                filters: match filters {
                    Some(f) => Some(f@),
                    None => None,
                },
            },
            Action::ParseMetaContracts { json } => ActionView::ParseMetaContracts { json: json@ },
            Action::ParseMetadata { json } => ActionView::ParseMetadata { json: json@ },
            Action::VerifySignature { public_key, signature, message, encryption } =>
                ActionView::VerifySignature {
                public_key: public_key@,
                signature: signature@,
                message: message@,
                encryption: encryption@,
            },
            Action::ReadClock => ActionView::ReadClock,
            Action::Insert { record } => ActionView::Insert { record: record@ },
            Action::Finish { result } => ActionView::Finish {
                transaction_hash: result.transaction_hash@,
            },
        }
    }
}

/// The error that a request's method gives on its own.
pub open spec fn method_error(req: RequestView) -> Option<ErrorView> {
    if is_known_method(req.method) {
        None
    } else {
        Some(ErrorView::InvalidMethod("invalid method: "@ + req.method))
    }
}

/// The state in which a run starts.
pub open spec fn initial(req: RequestView) -> PublishView {
    PublishView {
        request: req,
        key_type: Seq::empty(),
        program_id: req.program_id,
        data_key: Seq::empty(),
        content: Seq::empty(),
        error: method_error(req),
        tx_hash: Seq::empty(),
        phase: Phase::AwaitKeyType,
    }
}

/// Whether a run in state `s` takes the answer `e`: the answer must be the
/// one it waits for, and a list of records read from the trie is never empty.
pub open spec fn accepts(s: PublishView, e: EventView) -> bool {
    match e {
        EventView::KeyType(_) => s.phase == Phase::AwaitKeyType,
        EventView::ContractData(_) => s.phase == Phase::AwaitContractData,
        EventView::TrieReply(_) => s.phase == Phase::AwaitContractLookup || s.phase
            == Phase::AwaitProgramLookup || s.phase == Phase::AwaitMetadataLookup,
        EventView::MetaContracts(list) => s.phase == Phase::AwaitContractRecords && (list matches Some(
            l,
        ) ==> l.len() > 0),
        EventView::MetadataRecords(list) => s.phase == Phase::AwaitMetadataRecords && (list matches Some(
            l,
        ) ==> l.len() > 0),
        EventView::Verified(_) => s.phase == Phase::AwaitVerification,
        EventView::Clock(_) => s.phase == Phase::AwaitClock,
        EventView::Inserted => s.phase == Phase::AwaitInsert,
    }
}

/// Once the lookups are over: a run that has an error reads the clock; one
/// without checks the key type and, if it is supported, asks for the
/// signature to be verified.
pub open spec fn check_key(s: PublishView) -> (PublishView, ActionView) {
    if s.error is Some {
        (PublishView { phase: Phase::AwaitClock, ..s }, ActionView::ReadClock)
    } else if s.key_type.len() == 0 {
        (
            PublishView { error: Some(ErrorView::NoEncryptionType), phase: Phase::AwaitClock, ..s },
            ActionView::ReadClock,
        )
    } else if !is_supported_key_type(s.key_type) {
        (
            PublishView {
                error: Some(ErrorView::NotSupportedEncryptionType(s.key_type)),
                phase: Phase::AwaitClock,
                ..s
            },
            ActionView::ReadClock,
        )
    } else {
        (
            PublishView { phase: Phase::AwaitVerification, ..s },
            ActionView::VerifySignature {
                public_key: s.request.public_key,
                signature: s.request.signature,
                message: s.request.data,
                encryption: s.key_type,
            },
        )
    }
}

/// The text of the error that an owner or signature check gives.
pub open spec fn not_owner_text(public_key: Seq<char>) -> Seq<char> {
    "not owner of data_key: "@ + public_key
}

/// The next state and action of a run in state `s` that takes the answer `e`.
pub open spec fn next(s: PublishView, e: EventView) -> (PublishView, ActionView) {
    let req = s.request;
    match e {
        EventView::KeyType(k) => {
            let s1 = PublishView {
                key_type: k,
                error: if k.len() == 0 {
                    Some(ErrorView::InvalidEncryption(req.public_key))
                } else {
                    s.error
                },
                ..s
            };
            if s1.error is Some {
                check_key(s1)
            } else if req.method == spec_method_contract() {
                (
                    PublishView { phase: Phase::AwaitContractData, ..s1 },
                    ActionView::ParseContract { data: req.data },
                )
            } else if req.method == spec_method_metadata() {
                if s1.program_id.len() == 0 {
                    check_key(PublishView { error: Some(ErrorView::NoProgramId), ..s1 })
                } else {
                    (
                        PublishView { phase: Phase::AwaitProgramLookup, ..s1 },
                        ActionView::FilterTrie {
                            trie_key: "metacontract"@,
                            filter_key: s1.program_id,
                            filters: None,
                        },
                    )
                }
            } else {
                check_key(s1)
            }
        },
        EventView::ContractData(None) => check_key(
            PublishView {
                error: Some(ErrorView::InvalidDataFormatForMethodType(s.program_id)),
                ..s
            },
        ),
        EventView::ContractData(Some(cid)) => {
            let pid = spec_program_id(cid, req.public_key);
            (
                PublishView {
                    program_id: pid,
                    content: pid,
                    phase: Phase::AwaitContractLookup,
                    ..s
                },
                ActionView::FilterTrie { trie_key: "metacontract"@, filter_key: pid, filters: None },
            )
        },
        EventView::TrieReply(r) => {
            if s.phase == Phase::AwaitContractLookup {
                if r.success {
                    (
                        PublishView {
                            error: Some(ErrorView::RecordFound(s.program_id)),
                            phase: Phase::AwaitContractRecords,
                            ..s
                        },
                        ActionView::ParseMetaContracts { json: r.result },
                    )
                } else {
                    check_key(s)
                }
            } else if s.phase == Phase::AwaitProgramLookup {
                let dk = spec_data_key(req.chain_id, req.token_address, req.token_id);
                if r.success {
                    (
                        PublishView { data_key: dk, phase: Phase::AwaitMetadataLookup, ..s },
                        ActionView::FilterTrie {
                            trie_key: "metadata"@,
                            filter_key: "hash"@,
                            filters: Some(
                                spec_metadata_hash(
                                    dk,
                                    text_digest(req.version),
                                    text_digest(req.alias),
                                    req.public_key,
                                ),
                            ),
                        },
                    )
                } else {
                    check_key(PublishView { data_key: dk, error: Some(ErrorView::NoProgramId), ..s })
                }
            } else {
                if r.success {
                    (
                        PublishView { phase: Phase::AwaitMetadataRecords, ..s },
                        ActionView::ParseMetadata { json: r.result },
                    )
                } else {
                    check_key(s)
                }
            }
        },
        EventView::MetaContracts(None) => check_key(
            PublishView {
                error: Some(ErrorView::InvalidDataFormatForMethodType(s.program_id)),
                ..s
            },
        ),
        EventView::MetaContracts(Some(list)) => check_key(
            PublishView { content: list[0].program_id@, ..s },
        ),
        EventView::MetadataRecords(None) => check_key(s),
        EventView::MetadataRecords(Some(list)) => {
            let d = list[0];
            check_key(
                PublishView {
                    content: d.cid@,
                    error: if d.public_key@ != req.public_key {
                        Some(ErrorView::InvalidOwner(not_owner_text(req.public_key)))
                    } else {
                        s.error
                    },
                    ..s
                },
            )
        },
        EventView::Verified(ok) => (
            PublishView {
                error: if ok {
                    s.error
                } else {
                    Some(ErrorView::InvalidSignature(not_owner_text(req.public_key)))
                },
                phase: Phase::AwaitClock,
                ..s
            },
            ActionView::ReadClock,
        ),
        EventView::Clock(ts) => {
            let rec = spec_record(req, s.program_id, s.data_key, s.content, s.error, ts);
            (
                PublishView { tx_hash: rec.transaction.hash, phase: Phase::AwaitInsert, ..s },
                ActionView::Insert { record: rec },
            )
        },
        EventView::Inserted => (
            PublishView { phase: Phase::Done, ..s },
            ActionView::Finish { transaction_hash: s.tx_hash },
        ),
    }
}


fn not_owner_message(public_key: &String) -> (text: String)
    ensures
        text@ == not_owner_text(public_key@),
{
    String::from_str("not owner of data_key: ").concat(public_key.as_str())
}

impl Publish {
    /// Starts a run for a request: checks its method and asks for the key
    /// type of its public key.
    pub fn start(request: TransactionRequest) -> (r: (Publish, Action))
        ensures
            r.0@ == initial(request@),
            r.1@ == (ActionView::QueryKeyType { public_key: request@.public_key }),
    {
        let error = if known_method(&request.method) {
            None
        } else {
            Some(
                ServiceError::InvalidMethod(
                    String::from_str("invalid method: ").concat(request.method.as_str()),
                ),
            )
        };
        let public_key = request.public_key.clone();
        let program_id = request.program_id.clone();
        let run = Publish {
            request,
            key_type: String::new(),
            program_id,
            data_key: String::new(),
            content: String::new(),
            error,
            tx_hash: String::new(),
            phase: Phase::AwaitKeyType,
        };
        (run, Action::QueryKeyType { public_key })
    }

    /// The answer this run waits for.
    pub fn phase(&self) -> (p: Phase)
        ensures
            p == self@.phase,
    {
        self.phase
    }

    /// Whether this run takes the answer `event` now.
    pub fn takes(&self, event: &Event) -> (b: bool)
        ensures
            b == accepts(self@, event@),
    {
        match event {
            Event::KeyType(_) => self.phase == Phase::AwaitKeyType,
            Event::ContractData(_) => self.phase == Phase::AwaitContractData,
            Event::TrieReply(_) => self.phase == Phase::AwaitContractLookup || self.phase
                == Phase::AwaitProgramLookup || self.phase == Phase::AwaitMetadataLookup,
            Event::MetaContracts(list) => self.phase == Phase::AwaitContractRecords && match list {
                Some(l) => l.len() > 0,
                None => true,
            },
            Event::MetadataRecords(list) => self.phase == Phase::AwaitMetadataRecords && match list {
                Some(l) => l.len() > 0,
                None => true,
            },
            Event::Verified(_) => self.phase == Phase::AwaitVerification,
            Event::Clock(_) => self.phase == Phase::AwaitClock,
            Event::Inserted => self.phase == Phase::AwaitInsert,
        }
    }

    fn check_key_type(self) -> (r: (Publish, Action))
        ensures
            r.0@ == check_key(self@).0,
            r.1@ == check_key(self@).1,
    {
        let mut s = self;
        if s.error.is_some() {
            s.phase = Phase::AwaitClock;
            (s, Action::ReadClock)
        } else if s.key_type.as_str().is_empty() {
            s.error = Some(ServiceError::NoEncryptionType);
            s.phase = Phase::AwaitClock;
            (s, Action::ReadClock)
        } else if !supported_key_type(&s.key_type) {
            s.error = Some(ServiceError::NotSupportedEncryptionType(s.key_type.clone()));
            s.phase = Phase::AwaitClock;
            (s, Action::ReadClock)
        } else {
            s.phase = Phase::AwaitVerification;
            let action = Action::VerifySignature {
                public_key: s.request.public_key.clone(),
                signature: s.request.signature.clone(),
                message: s.request.data.clone(),
                encryption: s.key_type.clone(),
            };
            (s, action)
        }
    }

    /// Takes the answer the run waits for and returns the next state of the
    /// run and what it asks to be done next.
    pub fn step(self, event: Event) -> (r: (Publish, Action))
        requires
            accepts(self@, event@),
        ensures
            r.0@ == next(self@, event@).0,
            r.1@ == next(self@, event@).1,
    {
        let mut s = self;
        match event {
            Event::KeyType(k) => {
                if k.as_str().is_empty() {
                    s.error = Some(ServiceError::InvalidEncryption(s.request.public_key.clone()));
                }
                s.key_type = k;
                if s.error.is_some() {
                    s.check_key_type()
                } else if s.request.method == method_contract() {
                    s.phase = Phase::AwaitContractData;
                    let data = s.request.data.clone();
                    (s, Action::ParseContract { data })
                } else if s.request.method == method_metadata() {
                    if s.program_id.as_str().is_empty() {
                        s.error = Some(ServiceError::NoProgramId);
                        s.check_key_type()
                    } else {
                        s.phase = Phase::AwaitProgramLookup;
                        let filter_key = s.program_id.clone();
                        (
                            s,
                            Action::FilterTrie {
                                trie_key: String::from_str("metacontract"),
                                filter_key,
                                filters: None,
                            },
                        )
                    }
                } else {
                    s.check_key_type()
                }
            },
            Event::ContractData(None) => {
                s.error = Some(ServiceError::InvalidDataFormatForMethodType(s.program_id.clone()));
                s.check_key_type()
            },
            Event::ContractData(Some(contract)) => {
                let pid = MetaContract::generate_program_id(
                    contract.cid,
                    s.request.public_key.clone(),
                );
                s.program_id = pid.clone();
                s.content = pid.clone();
                s.phase = Phase::AwaitContractLookup;
                (
                    s,
                    Action::FilterTrie {
                        trie_key: String::from_str("metacontract"),
                        filter_key: pid,
                        filters: None,
                    },
                )
            },
            Event::TrieReply(reply) => {
                if s.phase == Phase::AwaitContractLookup {
                    if reply.success {
                        s.error = Some(ServiceError::RecordFound(s.program_id.clone()));
                        s.phase = Phase::AwaitContractRecords;
                        (s, Action::ParseMetaContracts { json: reply.result })
                    } else {
                        s.check_key_type()
                    }
                } else if s.phase == Phase::AwaitProgramLookup {
                    s.data_key = Metadata::generate_data_key(
                        s.request.chain_id.clone(),
                        s.request.token_address.clone(),
                        s.request.token_id.clone(),
                    );
                    if reply.success {
                        let hash = Metadata::generate_hash(
                            s.data_key.clone(),
                            hasher(s.request.version.clone()),
                            hasher(s.request.alias.clone()),
                            s.request.public_key.clone(),
                        );
                        s.phase = Phase::AwaitMetadataLookup;
                        (
                            s,
                            Action::FilterTrie {
                                trie_key: String::from_str("metadata"),
                                filter_key: String::from_str("hash"),
                                filters: Some(hash),
                            },
                        )
                    } else {
                        s.error = Some(ServiceError::NoProgramId);
                        s.check_key_type()
                    }
                } else {
                    if reply.success {
                        s.phase = Phase::AwaitMetadataRecords;
                        (s, Action::ParseMetadata { json: reply.result })
                    } else {
                        s.check_key_type()
                    }
                }
            },
            Event::MetaContracts(None) => {
                s.error = Some(ServiceError::InvalidDataFormatForMethodType(s.program_id.clone()));
                s.check_key_type()
            },
            Event::MetaContracts(Some(list)) => {
                s.content = list[0].program_id.clone();
                s.check_key_type()
            },
            Event::MetadataRecords(None) => s.check_key_type(),
            Event::MetadataRecords(Some(list)) => {
                if !(list[0].public_key == s.request.public_key) {
                    s.error = Some(
                        ServiceError::InvalidOwner(not_owner_message(&s.request.public_key)),
                    );
                }
                s.content = list[0].cid.clone();
                s.check_key_type()
            },
            Event::Verified(ok) => {
                if !ok {
                    s.error = Some(
                        ServiceError::InvalidSignature(not_owner_message(&s.request.public_key)),
                    );
                }
                s.phase = Phase::AwaitClock;
                (s, Action::ReadClock)
            },
            Event::Clock(timestamp) => {
                let record = build_record(
                    &s.request,
                    s.program_id.clone(),
                    s.data_key.clone(),
                    s.content.clone(),
                    &s.error,
                    timestamp,
                );
                s.tx_hash = record.transaction.hash.clone();
                s.phase = Phase::AwaitInsert;
                (s, Action::Insert { record })
            },
            Event::Inserted => {
                s.phase = Phase::Done;
                let result = FdbResult { transaction_hash: s.tx_hash.clone() };
                (s, Action::Finish { result })
            },
        }
    }
}

} // verus!
