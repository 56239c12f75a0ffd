use vstd::prelude::*;
use crate::defaults::is_known_method;
use crate::defaults::is_supported_key_type;
use crate::defaults::STATUS_FAILED;
use crate::error::error_text;
use crate::error::ErrorView;
use crate::meta_contract::spec_program_id;
use crate::publish::accepts;
use crate::publish::initial;
use crate::publish::next;
use crate::publish::not_owner_text;
use crate::publish::ActionView;
use crate::publish::EventView;
use crate::publish::Phase;
use crate::publish::PublishView;
use crate::publish::spec_record;
use crate::transaction::RequestView;
use crate::transaction::TrieTransactionView;
use crate::transaction::spec_new_transaction;
use crate::transaction::hash_preimage;
use crate::transaction::spec_transaction_hash;
use crate::digest::sha256_of;
use crate::base58::lemma_base58_injective;
use vstd::utf8::encode_utf8;
use vstd::utf8::encode_utf8_decode_utf8;
use crate::hash_laws::digest_of;
use crate::metadata::spec_metadata_hash;
use crate::result::TrieResultView;
use crate::defaults::spec_method_metadata;
use crate::defaults::spec_method_contract;

verus! {

/// How far a run has come: every answer it takes moves it further.
pub open spec fn rank(p: Phase) -> nat {
    match p {
        Phase::AwaitKeyType => 0,
        Phase::AwaitContractData => 1,
        Phase::AwaitProgramLookup => 1,
        Phase::AwaitContractLookup => 2,
        Phase::AwaitMetadataLookup => 2,
        Phase::AwaitContractRecords => 3,
        Phase::AwaitMetadataRecords => 3,
        Phase::AwaitVerification => 4,
        Phase::AwaitClock => 5,
        Phase::AwaitInsert => 6,
        Phase::Done => 7,
    }
}

/// Every answer a run takes moves it forward, so a run asks at most seven
/// times before it is done.
pub proof fn lemma_progress(s: PublishView, e: EventView)
    requires
        accepts(s, e),
    ensures
        rank(next(s, e).0.phase) > rank(s.phase),
{
}

/// A finished run takes no further answer.
pub proof fn lemma_done_is_final(s: PublishView, e: EventView)
    requires
        s.phase == Phase::Done,
    ensures
        !accepts(s, e),
{
}

/// A run never changes the request it works on.
pub proof fn lemma_request_is_kept(s: PublishView, e: EventView)
    requires
        accepts(s, e),
    ensures
        next(s, e).0.request == s.request,
{
}

/// A refusal is never withdrawn: once a run has found an error, every later
/// state of it has one.
pub proof fn lemma_error_persists(s: PublishView, e: EventView)
    requires
        accepts(s, e),
        s.error is Some,
    ensures
        next(s, e).0.error is Some,
{
}

/// A signature is checked only in a run that has found no error and whose key
/// type is supported, and it is checked on the request's own public key,
/// signature and data.
pub proof fn lemma_verify_only_clean(s: PublishView, e: EventView)
    requires
        accepts(s, e),
        next(s, e).1 is VerifySignature,
    ensures
        next(s, e).0.error is None,
        next(s, e).0.phase == Phase::AwaitVerification,
        is_supported_key_type(next(s, e).0.key_type),
        next(s, e).1 == (ActionView::VerifySignature {
            public_key: s.request.public_key,
            signature: s.request.signature,
            message: s.request.data,
            encryption: next(s, e).0.key_type,
        }),
{
}

/// A signature that does not hold refuses the request.
pub proof fn lemma_bad_signature_refused(s: PublishView)
    requires
        s.phase == Phase::AwaitVerification,
    ensures
        next(s, EventView::Verified(false)).0.error == Some(
            ErrorView::InvalidSignature(not_owner_text(s.request.public_key)),
        ),
        next(s, EventView::Verified(false)).1 == ActionView::ReadClock,
{
}

/// A request with an unknown method is refused with an invalid-method error,
/// unless the key type of its public key is unknown; nothing is looked up and
/// no signature is checked, and the record written says why.
pub proof fn lemma_unknown_method_refused(
    req: crate::transaction::RequestView,
    key_type: Seq<char>,
    timestamp: u64,
)
    requires
        !is_known_method(req.method),
        key_type.len() > 0,
    ensures
        ({
            let (s1, a1) = next(initial(req), EventView::KeyType(key_type));
            let (s2, a2) = next(s1, EventView::Clock(timestamp));
            &&& a1 == ActionView::ReadClock
            &&& s1.error == Some(ErrorView::InvalidMethod("invalid method: "@ + req.method))
            &&& a2 matches ActionView::Insert { record }
            &&& record.transaction.status == STATUS_FAILED
            &&& record.receipt matches Some(r)
            &&& r.error_text == "invalid method: "@ + req.method
        }),
{
}

/// A public key of unknown type refuses the request, whatever its method.
pub proof fn lemma_unknown_key_type_refused(req: crate::transaction::RequestView)
    ensures
        next(initial(req), EventView::KeyType(Seq::empty())).0.error == Some(
            ErrorView::InvalidEncryption(req.public_key),
        ),
        next(initial(req), EventView::KeyType(Seq::empty())).1 == ActionView::ReadClock,
{
}

/// A meta contract that the trie already holds is not registered again: the
/// run is refused with the program id that was found.
pub proof fn lemma_existing_contract_refused(s: PublishView, found: crate::result::TrieResultView)
    requires
        s.phase == Phase::AwaitContractLookup,
        found.success,
    ensures
        next(s, EventView::TrieReply(found)).0.error == Some(ErrorView::RecordFound(s.program_id)),
{
}

/// Registering a contract derives its program id from the payload's content
/// id and the request's public key.
pub proof fn lemma_contract_program_id(s: PublishView, cid: Seq<char>)
    requires
        s.phase == Phase::AwaitContractData,
    ensures
        next(s, EventView::ContractData(Some(cid))).0.program_id == spec_program_id(
            cid,
            s.request.public_key,
        ),
{
}

/// Metadata owned by another key is not overwritten: the run is refused.
pub proof fn lemma_foreign_metadata_refused(
    s: PublishView,
    records: Seq<crate::metadata::Metadata>,
)
    requires
        s.phase == Phase::AwaitMetadataRecords,
        records.len() > 0,
        records[0].public_key@ != s.request.public_key,
    ensures
        next(s, EventView::MetadataRecords(Some(records))).0.error is Some,
{
}

/// The record written at the end of a run is the transaction of the
/// request; it carries a receipt exactly when the run found an error, and the
/// client is told the hash of the transaction that was written.
pub proof fn lemma_finish_reports_inserted_hash(s: PublishView, timestamp: u64)
    requires
        s.phase == Phase::AwaitClock,
    ensures
        ({
            let (s1, a1) = next(s, EventView::Clock(timestamp));
            let (s2, a2) = next(s1, EventView::Inserted);
            &&& a1 matches ActionView::Insert { record }
            &&& record.transaction.hash == spec_new_transaction(
                s.program_id,
                s.data_key,
                s.request.data,
                s.request.public_key,
                s.request.alias,
                timestamp,
                s.request.method,
                s.request.chain_id,
                s.request.token_address,
                s.request.token_id,
                s.request.version,
                s.request.mcdata,
                0,
                s.content,
            ).hash
            &&& (record.receipt is Some <==> s.error is Some)
            &&& (s.error matches Some(err) ==> record.receipt matches Some(r) && r.error_text
                == error_text(err))
            &&& a2 == ActionView::Finish { transaction_hash: record.transaction.hash }
            &&& s2.phase == Phase::Done
        }),
{
}

/// A transaction's hash covers its content and the previous content only:
/// the timestamp, chain id, token address, token id and status do not enter it.
pub proof fn lemma_hash_ignores_time_token_and_status(
    program_id: Seq<char>,
    data_key: Seq<char>,
    data: Seq<char>,
    public_key: Seq<char>,
    alias: Seq<char>,
    method: Seq<char>,
    version: Seq<char>,
    mcdata: Seq<char>,
    previous_data: Seq<char>,
    timestamp1: u64,
    chain_id1: Seq<char>,
    token_address1: Seq<char>,
    token_id1: Seq<char>,
    status1: i64,
    timestamp2: u64,
    chain_id2: Seq<char>,
    token_address2: Seq<char>,
    token_id2: Seq<char>,
    status2: i64,
)
    ensures
        spec_new_transaction(
            program_id,
            data_key,
            data,
            public_key,
            alias,
            timestamp1,
            method,
            chain_id1,
            token_address1,
            token_id1,
            version,
            mcdata,
            status1,
            previous_data,
        ).hash == spec_new_transaction(
            program_id,
            data_key,
            data,
            public_key,
            alias,
            timestamp2,
            method,
            chain_id2,
            token_address2,
            token_id2,
            version,
            mcdata,
            status2,
            previous_data,
        ).hash,
{
}

/// Resubmitting the same content on the same previous content repeats the
/// transaction hash, and new previous content gives a new hash, provided
/// SHA-256 gives the two preimages different digests when they differ.
pub proof fn lemma_hash_tracks_previous_content(
    program_id: Seq<char>,
    data_key: Seq<char>,
    data: Seq<char>,
    public_key: Seq<char>,
    alias: Seq<char>,
    method: Seq<char>,
    version: Seq<char>,
    mcdata: Seq<char>,
    previous1: Seq<char>,
    previous2: Seq<char>,
)
    requires
        sha256_of(
            encode_utf8(
                hash_preimage(
                    program_id,
                    data_key,
                    data,
                    public_key,
                    alias,
                    method,
                    version,
                    mcdata,
                    previous1,
                ),
            ),
        ) == sha256_of(
            encode_utf8(
                hash_preimage(
                    program_id,
                    data_key,
                    data,
                    public_key,
                    alias,
                    method,
                    version,
                    mcdata,
                    previous2,
                ),
            ),
        ) ==> encode_utf8(
            hash_preimage(
                program_id,
                data_key,
                data,
                public_key,
                alias,
                method,
                version,
                mcdata,
                previous1,
            ),
        ) == encode_utf8(
            hash_preimage(
                program_id,
                data_key,
                data,
                public_key,
                alias,
                method,
                version,
                mcdata,
                previous2,
            ),
        ),
    ensures
        spec_transaction_hash(
            program_id,
            data_key,
            data,
            public_key,
            alias,
            method,
            version,
            mcdata,
            previous1,
        ) == spec_transaction_hash(
            program_id,
            data_key,
            data,
            public_key,
            alias,
            method,
            version,
            mcdata,
            previous2,
        ) <==> previous1 == previous2,
{
    let pre1 = hash_preimage(
        program_id,
        data_key,
        data,
        public_key,
        alias,
        method,
        version,
        mcdata,
        previous1,
    );
    let pre2 = hash_preimage(
        program_id,
        data_key,
        data,
        public_key,
        alias,
        method,
        version,
        mcdata,
        previous2,
    );
    if spec_transaction_hash(
        program_id,
        data_key,
        data,
        public_key,
        alias,
        method,
        version,
        mcdata,
        previous1,
    ) == spec_transaction_hash(
        program_id,
        data_key,
        data,
        public_key,
        alias,
        method,
        version,
        mcdata,
        previous2,
    ) {
        lemma_base58_injective(sha256_of(encode_utf8(pre1)), sha256_of(encode_utf8(pre2)));
        encode_utf8_decode_utf8(pre1);
        encode_utf8_decode_utf8(pre2);
        assert(pre1 == pre2);
        let fields = program_id + data_key + data + public_key + alias + method + version + mcdata;
        assert(pre1 == fields + previous1);
        assert(pre2 == fields + previous2);
        assert(previous1 =~= pre1.skip(fields.len() as int));
        assert(previous2 =~= pre2.skip(fields.len() as int));
    }
}

/// Whether a run in state `s` takes each of `events` in turn.
pub open spec fn accepted_run(s: PublishView, events: Seq<EventView>) -> bool
    decreases events.len(),
{
    events.len() == 0 || (accepts(s, events[0]) && accepted_run(
        next(s, events[0]).0,
        events.drop_first(),
    ))
}

/// The state that a run in state `s` reaches by taking `events`, and the
/// actions it asks for on the way, in order.
pub open spec fn run(s: PublishView, events: Seq<EventView>) -> (PublishView, Seq<ActionView>)
    decreases events.len(),
{
    if events.len() == 0 {
        (s, Seq::empty())
    } else {
        let (s1, a) = next(s, events[0]);
        let (last, actions) = run(s1, events.drop_first());
        (last, seq![a] + actions)
    }
}

/// How many of `actions` insert a record.
pub open spec fn insert_count(actions: Seq<ActionView>) -> nat
    decreases actions.len(),
{
    if actions.len() == 0 {
        0
    } else {
        (if actions[0] is Insert {
            1nat
        } else {
            0nat
        }) + insert_count(actions.drop_first())
    }
}

/// The record that the first insert among `actions` writes.
pub open spec fn inserted_record(actions: Seq<ActionView>) -> Option<TrieTransactionView>
    decreases actions.len(),
{
    if actions.len() == 0 {
        None
    } else {
        match actions[0] {
            ActionView::Insert { record } => Some(record),
            _ => inserted_record(actions.drop_first()),
        }
    }
}

/// Whether `record` is a record that publishing `req` writes, for some
/// program id, data key, previous content, error and time.
pub open spec fn is_record_of(record: TrieTransactionView, req: RequestView) -> bool {
    exists|program_id: Seq<char>, data_key: Seq<char>, content: Seq<char>, error: Option<ErrorView>, timestamp: u64|
        #[trigger] spec_record(req, program_id, data_key, content, error, timestamp) == record
}

proof fn lemma_run_steps(s: PublishView, events: Seq<EventView>)
    requires
        events.len() > 0,
    ensures
        run(s, events).0 == run(next(s, events[0]).0, events.drop_first()).0,
        run(s, events).1 =~= seq![next(s, events[0]).1] + run(
            next(s, events[0]).0,
            events.drop_first(),
        ).1,
{
}

proof fn lemma_count_prepend(a: ActionView, actions: Seq<ActionView>)
    ensures
        insert_count(seq![a] + actions) == (if a is Insert {
            1nat
        } else {
            0nat
        }) + insert_count(actions),
        inserted_record(seq![a] + actions) == (match a {
            ActionView::Insert { record } => Some(record),
            _ => inserted_record(actions),
        }),
{
    assert((seq![a] + actions).drop_first() =~= actions);
    assert((seq![a] + actions)[0] == a);
}

proof fn lemma_run_from(s: PublishView, events: Seq<EventView>)
    requires
        accepted_run(s, events),
        run(s, events).0.phase == Phase::Done,
    ensures
        s.phase == Phase::Done ==> events.len() == 0,
        s.phase == Phase::AwaitInsert ==> {
            &&& events.len() == 1
            &&& insert_count(run(s, events).1) == 0
            &&& run(s, events).1.last() == ActionView::Finish { transaction_hash: s.tx_hash }
        },
        s.phase != Phase::Done && s.phase != Phase::AwaitInsert ==> {
            &&& events.len() > 0
            &&& insert_count(run(s, events).1) == 1
            &&& inserted_record(run(s, events).1) matches Some(record)
            &&& run(s, events).1.last() == ActionView::Finish {
                transaction_hash: record.transaction.hash,
            }
            &&& is_record_of(record, s.request)
        },
    decreases events.len(),
{
    if events.len() == 0 {
        assert(run(s, events).0 == s);
    } else {
        let e = events[0];
        let rest = events.drop_first();
        let (s1, a) = next(s, e);
        lemma_run_steps(s, events);
        lemma_run_from(s1, rest);
        lemma_count_prepend(a, run(s1, rest).1);
        lemma_request_is_kept(s, e);
        let acts = run(s, events).1;
        if s.phase == Phase::AwaitInsert {
            assert(s1.phase == Phase::Done);
            assert(rest.len() == 0);
            assert(run(s1, rest).1 =~= Seq::<ActionView>::empty());
            assert(acts =~= seq![a]);
        } else if s.phase == Phase::AwaitClock {
            let record = spec_record(s.request, s.program_id, s.data_key, s.content, s.error, e->0);
            assert(a == ActionView::Insert { record });
            assert(s1.phase == Phase::AwaitInsert);
            assert(s1.tx_hash == record.transaction.hash);
            assert(acts.last() == run(s1, rest).1.last());
            assert(is_record_of(record, s.request));
        } else {
            assert(s.phase != Phase::Done);
            assert(!(a is Insert));
            assert(s1.phase != Phase::Done && s1.phase != Phase::AwaitInsert);
            assert(acts.last() == run(s1, rest).1.last());
        }
    }
}

/// A whole run of `publish`, from its first request for the key type to its
/// end, inserts exactly one record, which is a record of the request, and
/// tells the client the hash of that record's transaction.
pub proof fn lemma_run_inserts_one_record(req: RequestView, events: Seq<EventView>)
    requires
        accepted_run(initial(req), events),
        run(initial(req), events).0.phase == Phase::Done,
    ensures
        ({
            let actions = seq![ActionView::QueryKeyType { public_key: req.public_key }] + run(
                initial(req),
                events,
            ).1;
            &&& insert_count(actions) == 1
            &&& inserted_record(actions) matches Some(record)
            &&& actions.last() == ActionView::Finish { transaction_hash: record.transaction.hash }
            &&& is_record_of(record, req)
        }),
{
    lemma_run_from(initial(req), events);
    let acts = run(initial(req), events).1;
    lemma_count_prepend(ActionView::QueryKeyType { public_key: req.public_key }, acts);
    assert((seq![ActionView::QueryKeyType { public_key: req.public_key }] + acts).last()
        == acts.last());
}

proof fn lemma_run_keeps_data_key(s: PublishView, events: Seq<EventView>)
    requires
        accepted_run(s, events),
        run(s, events).0.phase == Phase::Done,
        s.phase != Phase::AwaitKeyType,
        s.phase != Phase::AwaitProgramLookup,
        s.phase != Phase::AwaitInsert,
        s.phase != Phase::Done,
    ensures
        inserted_record(run(s, events).1) matches Some(record) && record.transaction.data_key
            == s.data_key,
    decreases events.len(),
{
    if events.len() == 0 {
        assert(run(s, events).0 == s);
    } else {
        let e = events[0];
        let rest = events.drop_first();
        let (s1, a) = next(s, e);
        lemma_run_steps(s, events);
        lemma_count_prepend(a, run(s1, rest).1);
        if s.phase == Phase::AwaitClock {
            let record = spec_record(s.request, s.program_id, s.data_key, s.content, s.error, e->0);
            assert(a == ActionView::Insert { record });
            assert(record.transaction.data_key == s.data_key);
        } else {
            assert(!(a is Insert));
            assert(s1.data_key == s.data_key);
            lemma_run_keeps_data_key(s1, rest);
        }
    }
}

/// Once a metadata run has asked the trie whether its program exists, the
/// record it inserts carries the data key of the request's token, whatever
/// the trie answers then and later.
pub proof fn lemma_metadata_record_data_key(s: PublishView, events: Seq<EventView>)
    requires
        s.phase == Phase::AwaitProgramLookup,
        accepted_run(s, events),
        run(s, events).0.phase == Phase::Done,
    ensures
        inserted_record(run(s, events).1) matches Some(record) && record.transaction.data_key
            == digest_of(s.request.chain_id + s.request.token_address + s.request.token_id),
{
    assert(events.len() > 0);
    let e = events[0];
    let rest = events.drop_first();
    let (s1, a) = next(s, e);
    lemma_run_steps(s, events);
    lemma_count_prepend(a, run(s1, rest).1);
    assert(s1.data_key == digest_of(
        s.request.chain_id + s.request.token_address + s.request.token_id,
    ));
    assert(!(a is Insert));
    lemma_run_keeps_data_key(s1, rest);
}

/// A metadata request that names a program and whose public key has a known
/// type inserts, at the end of its run, a record whose data key is the data
/// key of the request's token, whatever the trie answers.
pub proof fn lemma_metadata_request_data_key(req: RequestView, events: Seq<EventView>)
    requires
        req.method == spec_method_metadata(),
        req.program_id.len() > 0,
        events.len() > 0,
        events[0] matches EventView::KeyType(k) && k.len() > 0,
        accepted_run(initial(req), events),
        run(initial(req), events).0.phase == Phase::Done,
    ensures
        inserted_record(run(initial(req), events).1) matches Some(record)
            && record.transaction.data_key == digest_of(
            req.chain_id + req.token_address + req.token_id,
        ),
{
    reveal_strlit("metadata");
    reveal_strlit("contract");
    assert(spec_method_metadata()[0] != spec_method_contract()[0]);
    assert(spec_method_metadata() != spec_method_contract());
    assert(is_known_method(req.method));
    let s0 = initial(req);
    let e = events[0];
    let rest = events.drop_first();
    let (s1, a) = next(s0, e);
    assert(s1.phase == Phase::AwaitProgramLookup);
    lemma_run_steps(s0, events);
    lemma_count_prepend(a, run(s1, rest).1);
    lemma_metadata_record_data_key(s1, rest);
}

proof fn lemma_run_keeps_program_id(s: PublishView, events: Seq<EventView>)
    requires
        accepted_run(s, events),
        run(s, events).0.phase == Phase::Done,
        s.phase != Phase::AwaitKeyType,
        s.phase != Phase::AwaitContractData,
        s.phase != Phase::AwaitInsert,
        s.phase != Phase::Done,
    ensures
        inserted_record(run(s, events).1) matches Some(record) && record.transaction.program_id
            == s.program_id,
    decreases events.len(),
{
    if events.len() == 0 {
        assert(run(s, events).0 == s);
    } else {
        let e = events[0];
        let rest = events.drop_first();
        let (s1, a) = next(s, e);
        lemma_run_steps(s, events);
        lemma_count_prepend(a, run(s1, rest).1);
        if s.phase == Phase::AwaitClock {
            let record = spec_record(s.request, s.program_id, s.data_key, s.content, s.error, e->0);
            assert(a == ActionView::Insert { record });
        } else {
            assert(!(a is Insert));
            assert(s1.program_id == s.program_id);
            lemma_run_keeps_program_id(s1, rest);
        }
    }
}

/// A run that reads a contract payload with content id `cid` inserts a record
/// whose program id is the digest text of `cid` followed by the request's
/// whole public key, whatever the trie answers.
pub proof fn lemma_contract_record_program_id(
    s: PublishView,
    cid: Seq<char>,
    events: Seq<EventView>,
)
    requires
        s.phase == Phase::AwaitContractData,
        events.len() > 0,
        events[0] == EventView::ContractData(Some(cid)),
        accepted_run(s, events),
        run(s, events).0.phase == Phase::Done,
    ensures
        inserted_record(run(s, events).1) matches Some(record) && record.transaction.program_id
            == digest_of(cid + s.request.public_key),
{
    let e = events[0];
    let rest = events.drop_first();
    let (s1, a) = next(s, e);
    lemma_run_steps(s, events);
    lemma_count_prepend(a, run(s1, rest).1);
    assert(s1.phase == Phase::AwaitContractLookup);
    lemma_run_keeps_program_id(s1, rest);
}

/// A request whose method is not the contract method inserts a record under
/// the program id that the request names.
pub proof fn lemma_request_record_program_id(req: RequestView, events: Seq<EventView>)
    requires
        req.method != spec_method_contract(),
        accepted_run(initial(req), events),
        run(initial(req), events).0.phase == Phase::Done,
    ensures
        inserted_record(run(initial(req), events).1) matches Some(record)
            && record.transaction.program_id == req.program_id,
{
    let s0 = initial(req);
    assert(events.len() > 0);
    let e = events[0];
    let rest = events.drop_first();
    let (s1, a) = next(s0, e);
    lemma_run_steps(s0, events);
    lemma_count_prepend(a, run(s1, rest).1);
    assert(s1.program_id == req.program_id);
    assert(s1.phase != Phase::AwaitContractData);
    lemma_run_keeps_program_id(s1, rest);
}

/// When the program of a metadata request exists, the run looks up the
/// metadata by the hash of the token's data key, the digests of the version
/// and the alias, and the request's whole public key.
pub proof fn lemma_metadata_lookup_filter(s: PublishView, reply: TrieResultView)
    requires
        s.phase == Phase::AwaitProgramLookup,
        reply.success,
    ensures
        next(s, EventView::TrieReply(reply)).1 == (ActionView::FilterTrie {
            trie_key: "metadata"@,
            filter_key: "hash"@,
            filters: Some(
                spec_metadata_hash(
                    digest_of(s.request.chain_id + s.request.token_address + s.request.token_id),
                    digest_of(s.request.version),
                    digest_of(s.request.alias),
                    s.request.public_key,
                ),
            ),
        }),
        next(s, EventView::TrieReply(reply)).0.phase == Phase::AwaitMetadataLookup,
{
}

} // verus!
