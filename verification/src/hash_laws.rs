use vstd::prelude::*;
use crate::base58::base58_text;
use crate::base58::lemma_base58_injective;
use crate::digest::sha256_of;
use crate::meta_contract::spec_program_id;
use crate::metadata::spec_data_key;
use crate::metadata::spec_metadata_hash;
use crate::metadata::spec_new_metadata;
use crate::transaction::spec_new_transaction;
use vstd::utf8::encode_utf8;
use vstd::utf8::encode_utf8_decode_utf8;

verus! {

/// The digest text that a hash takes over a text: Base58 of the SHA-256 of its
/// UTF-8 bytes.
pub open spec fn digest_of(text: Seq<char>) -> Seq<char> {
    base58_text(sha256_of(encode_utf8(text)))
}

/// Whether SHA-256 gives two texts different digests when the texts differ.
pub open spec fn no_collision(x: Seq<char>, y: Seq<char>) -> bool {
    sha256_of(encode_utf8(x)) == sha256_of(encode_utf8(y)) ==> encode_utf8(x) == encode_utf8(y)
}

/// Equal digest texts come from equal texts, when SHA-256 does not collide on them.
pub proof fn lemma_digest_injective(x: Seq<char>, y: Seq<char>)
    requires
        no_collision(x, y),
    ensures
        digest_of(x) == digest_of(y) <==> x == y,
{
    if digest_of(x) == digest_of(y) {
        lemma_base58_injective(sha256_of(encode_utf8(x)), sha256_of(encode_utf8(y)));
        encode_utf8_decode_utf8(x);
        encode_utf8_decode_utf8(y);
    }
}

proof fn lemma_cancel_middle(x: Seq<char>, m1: Seq<char>, m2: Seq<char>, y: Seq<char>)
    requires
        x + m1 + y == x + m2 + y,
    ensures
        m1 == m2,
{
    let s1 = x + m1 + y;
    let s2 = x + m2 + y;
    assert(s1.len() == s2.len());
    assert(m1.len() == m2.len());
    let lo = x.len() as int;
    let hi = x.len() + m1.len() as int;
    assert(m1 =~= s1.subrange(lo, hi));
    assert(m2 =~= s2.subrange(lo, hi));
}

/// A program id is the digest text of the content id followed by the whole
/// public key.
pub proof fn lemma_program_id_is_digest(cid: Seq<char>, public_key: Seq<char>)
    ensures
        spec_program_id(cid, public_key) == digest_of(cid + public_key),
{
}

/// Two owners of the same content id get the same program id exactly when
/// their public keys are equal, every character of the key counting, when
/// SHA-256 does not collide on the two texts.
pub proof fn lemma_program_id_tells_owners_apart(
    cid: Seq<char>,
    public_key1: Seq<char>,
    public_key2: Seq<char>,
)
    requires
        no_collision(cid + public_key1, cid + public_key2),
    ensures
        spec_program_id(cid, public_key1) == spec_program_id(cid, public_key2) <==> public_key1
            == public_key2,
{
    lemma_digest_injective(cid + public_key1, cid + public_key2);
    if cid + public_key1 == cid + public_key2 {
        assert(cid + public_key1 + Seq::empty() =~= cid + public_key1);
        assert(cid + public_key2 + Seq::empty() =~= cid + public_key2);
        lemma_cancel_middle(cid, public_key1, public_key2, Seq::empty());
    }
}

/// A data key is the digest text of the chain id, the token address and the
/// token id, joined as they are.
pub proof fn lemma_data_key_is_digest(
    chain_id: Seq<char>,
    token_address: Seq<char>,
    token_id: Seq<char>,
)
    ensures
        spec_data_key(chain_id, token_address, token_id) == digest_of(
            chain_id + token_address + token_id,
        ),
{
}

/// On one chain and token id, two token addresses get the same data key
/// exactly when they are equal, every character counting, when SHA-256 does
/// not collide on the two texts.
pub proof fn lemma_data_key_tells_addresses_apart(
    chain_id: Seq<char>,
    token_address1: Seq<char>,
    token_address2: Seq<char>,
    token_id: Seq<char>,
)
    requires
        no_collision(chain_id + token_address1 + token_id, chain_id + token_address2 + token_id),
    ensures
        spec_data_key(chain_id, token_address1, token_id) == spec_data_key(
            chain_id,
            token_address2,
            token_id,
        ) <==> token_address1 == token_address2,
{
    lemma_digest_injective(chain_id + token_address1 + token_id, chain_id + token_address2 + token_id);
    if chain_id + token_address1 + token_id == chain_id + token_address2 + token_id {
        lemma_cancel_middle(chain_id, token_address1, token_address2, token_id);
    }
}

/// The metadata hash holds the data key, the version, the alias and the whole
/// public key, one after the other and nothing else.
pub proof fn lemma_metadata_hash_parts(
    data_key: Seq<char>,
    version: Seq<char>,
    alias: Seq<char>,
    public_key: Seq<char>,
)
    ensures
        ({
            let h = spec_metadata_hash(data_key, version, alias, public_key);
            let a = data_key.len() as int;
            let b = a + version.len();
            let c = b + alias.len();
            &&& h.len() == data_key.len() + version.len() + alias.len() + public_key.len()
            &&& h.subrange(0, a) == data_key
            &&& h.subrange(a, b) == version
            &&& h.subrange(b, c) == alias
            &&& h.subrange(c, h.len() as int) == public_key
        }),
{
    let h = spec_metadata_hash(data_key, version, alias, public_key);
    let a = data_key.len() as int;
    let b = a + version.len();
    let c = b + alias.len();
    assert(h.subrange(0, a) =~= data_key);
    assert(h.subrange(a, b) =~= version);
    assert(h.subrange(b, c) =~= alias);
    assert(h.subrange(c, h.len() as int) =~= public_key);
}

/// New metadata is hashed over the data key it is given, its version, alias
/// and whole public key, and stores the data key of its token.
pub proof fn lemma_new_metadata_hash_and_key(
    data_key: Seq<char>,
    program_id: Seq<char>,
    alias: Seq<char>,
    cid: Seq<char>,
    public_key: Seq<char>,
    chain_id: Seq<char>,
    token_address: Seq<char>,
    token_id: Seq<char>,
    version: Seq<char>,
    loose: bool,
)
    ensures
        ({
            let m = spec_new_metadata(
                data_key,
                program_id,
                alias,
                cid,
                public_key,
                chain_id,
                token_address,
                token_id,
                version,
                loose,
            );
            &&& m.hash == spec_metadata_hash(data_key, version, alias, public_key)
            &&& m.data_key == digest_of(chain_id + token_address + token_id)
            &&& m.program_id == program_id && m.alias == alias && m.cid == cid
            &&& m.chain_id == chain_id && m.token_address == token_address && m.token_id == token_id
            &&& m.version == version && m.public_key == public_key && m.loose == loose
        }),
{
}

/// A transaction's hash is the digest text of its program id, data key, whole
/// data, public key, alias, method, version, mcdata and the previous content,
/// joined as they are; its other fields are its arguments.
pub proof fn lemma_transaction_hash_is_digest(
    program_id: Seq<char>,
    data_key: Seq<char>,
    data: Seq<char>,
    public_key: Seq<char>,
    alias: Seq<char>,
    timestamp: u64,
    method: Seq<char>,
    chain_id: Seq<char>,
    token_address: Seq<char>,
    token_id: Seq<char>,
    version: Seq<char>,
    mcdata: Seq<char>,
    status: i64,
    previous_data: Seq<char>,
)
    ensures
        ({
            let t = spec_new_transaction(
                program_id,
                data_key,
                data,
                public_key,
                alias,
                timestamp,
                method,
                chain_id,
                token_address,
                token_id,
                version,
                mcdata,
                status,
                previous_data,
            );
            &&& t.hash == digest_of(
                program_id + data_key + data + public_key + alias + method + version + mcdata
                    + previous_data,
            )
            &&& t.program_id == program_id && t.data_key == data_key && t.data == data
            &&& t.public_key == public_key && t.alias == alias && t.timestamp == timestamp
            &&& t.method == method && t.chain_id == chain_id && t.token_address == token_address
            &&& t.token_id == token_id && t.version == version && t.mcdata == mcdata
            &&& t.status == status
        }),
{
}

/// Two transactions that agree in every other field get the same hash exactly
/// when their data is equal, every character counting, when SHA-256 does not
/// collide on the two preimages.
pub proof fn lemma_transaction_hash_tells_data_apart(
    program_id: Seq<char>,
    data_key: Seq<char>,
    data1: Seq<char>,
    data2: Seq<char>,
    public_key: Seq<char>,
    alias: Seq<char>,
    timestamp: u64,
    method: Seq<char>,
    chain_id: Seq<char>,
    token_address: Seq<char>,
    token_id: Seq<char>,
    version: Seq<char>,
    mcdata: Seq<char>,
    status: i64,
    previous_data: Seq<char>,
)
    requires
        no_collision(
            program_id + data_key + data1 + public_key + alias + method + version + mcdata
                + previous_data,
            program_id + data_key + data2 + public_key + alias + method + version + mcdata
                + previous_data,
        ),
    ensures
        spec_new_transaction(
            program_id,
            data_key,
            data1,
            public_key,
            alias,
            timestamp,
            method,
            chain_id,
            token_address,
            token_id,
            version,
            mcdata,
            status,
            previous_data,
        ).hash == spec_new_transaction(
            program_id,
            data_key,
            data2,
            public_key,
            alias,
            timestamp,
            method,
            chain_id,
            token_address,
            token_id,
            version,
            mcdata,
            status,
            previous_data,
        ).hash <==> data1 == data2,
{
    let x = program_id + data_key;
    let y = public_key + alias + method + version + mcdata + previous_data;
    let p1 = program_id + data_key + data1 + public_key + alias + method + version + mcdata
        + previous_data;
    let p2 = program_id + data_key + data2 + public_key + alias + method + version + mcdata
        + previous_data;
    lemma_digest_injective(p1, p2);
    assert(p1 =~= x + data1 + y);
    assert(p2 =~= x + data2 + y);
    if p1 == p2 {
        lemma_cancel_middle(x, data1, data2, y);
    }
}

} // verus!
