//! Framing of proofs for offline transmission: QR codes, BLE chunks, ultrasonic audio,
//! packets with transmission metadata.

use vstd::prelude::*;
use vstd::utf8::{decode_utf8, valid_utf8};
use crate::errors::{ZkpError, ZkpErrorView, ZkpResult, result_view};
use crate::json::{
    JsonFieldView, JsonLeaf, JsonLeafView, entries_view, field_of, json_bytes_valid, json_field_at,
    json_object_bytes, parse_json, read_json_field, write_json_object, JsonField,
};
use crate::text::{concat2, concat3, decimal_text, string_from_utf8, usize_text};
use crate::types::{
    ProofPacket, ProofPacketView, TransmissionChannel, TransmissionMetadata, ZkProof, ZkProofView,
    copy_strings, opt_string_view, strings_view,
};
use crate::utils::{
    base64_decode, base64_decoded, base64_encode, base64_text, current_timestamp, generate_nonce,
    hex_lower, is_fresh, timestamp_is_fresh,
};

verus! {

// ---------------------------------------------------------------- proof JSON

/// The entries of a proof's JSON object, in field order.
pub open spec fn proof_entries(p: ZkProofView) -> Seq<(Seq<char>, JsonLeafView)> {
    seq![
        ("proof_data"@, JsonLeafView::Text(p.proof_data)),
        ("public_signals"@, JsonLeafView::Texts(p.public_signals)),
        ("circuit_id"@, JsonLeafView::Text(p.circuit_id)),
        ("timestamp"@, JsonLeafView::Unsigned(p.timestamp)),
        ("signature"@, match p.signature {
            Some(s) => JsonLeafView::Text(s),
            None => JsonLeafView::Null,
        }),
        ("version"@, JsonLeafView::Text(p.version)),
    ]
}

/// The JSON bytes of a proof.
pub open spec fn proof_json(p: ZkProofView) -> Seq<u8> {
    json_object_bytes(proof_entries(p))
}

/// Reading each field of a proof back from JSON bytes gives the proof's value: a string
/// for the data, circuit, version and a present signature, the signals as an array of
/// strings, the timestamp as an integer, and `null` (not a string) for no signature.
pub open spec fn carries_proof(b: Seq<u8>, p: ZkProofView) -> bool {
    &&& json_field_at(b, "proof_data"@) == JsonFieldView::Text(p.proof_data)
    &&& json_field_at(b, "public_signals"@) == JsonFieldView::List(
        p.public_signals.map_values(|s: Seq<char>| Some(s)),
    )
    &&& json_field_at(b, "circuit_id"@) == JsonFieldView::Text(p.circuit_id)
    &&& json_field_at(b, "timestamp"@) == JsonFieldView::Unsigned(p.timestamp)
    &&& json_field_at(b, "signature"@) == match p.signature {
        Some(s) => JsonFieldView::Text(s),
        None => JsonFieldView::Other,
    }
    &&& json_field_at(b, "version"@) == JsonFieldView::Text(p.version)
}

/// A string leaf holding a copy of `s`.
fn text_leaf(s: &String) -> (res: JsonLeaf)
    ensures
        res@ == JsonLeafView::Text(s@),
{
    JsonLeaf::Text(s.clone())
}

/// Serializes a proof as a JSON object with its fields in order.
fn proof_json_bytes(proof: &ZkProof) -> (res: ZkpResult<Vec<u8>>)
    ensures
        res matches Ok(b) && b@ == proof_json(proof@) && valid_utf8(b@) && json_bytes_valid(b@)
            && carries_proof(b@, proof@) && proof@.proof_data.len() + 2 <= b@.len() <= isize::MAX,
{
    let mut entries: Vec<(String, JsonLeaf)> = Vec::new();
    entries.push((String::from_str("proof_data"), text_leaf(&proof.proof_data)));
    entries.push((String::from_str("public_signals"), JsonLeaf::Texts(copy_strings(&proof.public_signals))));
    entries.push((String::from_str("circuit_id"), text_leaf(&proof.circuit_id)));
    entries.push((String::from_str("timestamp"), JsonLeaf::Unsigned(proof.timestamp)));
    let signature = match &proof.signature {
        Some(s) => text_leaf(s),
        None => JsonLeaf::Null,
    };
    entries.push((String::from_str("signature"), signature));
    entries.push((String::from_str("version"), text_leaf(&proof.version)));
    assert(entries_view(entries@) =~= proof_entries(proof@));
    match write_json_object(&entries) {
        Ok(b) => {
            proof {
                let e = proof_entries(proof@);
                reveal_strlit("proof_data");
                reveal_strlit("public_signals");
                reveal_strlit("circuit_id");
                reveal_strlit("timestamp");
                reveal_strlit("signature");
                reveal_strlit("version");
                reveal_with_fuel(field_of, 7);
                assert("proof_data"@[0] == 'p' && "public_signals"@[0] == 'p' && "circuit_id"@[0] == 'c');
                assert("timestamp"@[0] == 't' && "signature"@[0] == 's' && "version"@[0] == 'v');
                assert("proof_data"@[1] == 'r' && "public_signals"@[1] == 'u');
                assert(e.drop_last() =~= seq![e[0], e[1], e[2], e[3], e[4]]);
                assert(e.drop_last().drop_last() =~= seq![e[0], e[1], e[2], e[3]]);
                assert(e.drop_last().drop_last().drop_last() =~= seq![e[0], e[1], e[2]]);
                assert(e.drop_last().drop_last().drop_last().drop_last() =~= seq![e[0], e[1]]);
                assert(seq![e[0], e[1]].drop_last() =~= seq![e[0]]);
                assert(seq![e[0]].drop_last() =~= Seq::<(Seq<char>, JsonLeafView)>::empty());
                assert(json_field_at(b@, "proof_data"@) == field_of(e, "proof_data"@));
                assert(json_field_at(b@, "public_signals"@) == field_of(e, "public_signals"@));
                assert(json_field_at(b@, "circuit_id"@) == field_of(e, "circuit_id"@));
                assert(json_field_at(b@, "timestamp"@) == field_of(e, "timestamp"@));
                assert(json_field_at(b@, "signature"@) == field_of(e, "signature"@));
                assert(json_field_at(b@, "version"@) == field_of(e, "version"@));
            }
            Ok(b)
        },
        Err(e) => Err(ZkpError::SerializationError(e)),
    }
}

// ---------------------------------------------------------------- QR

/// The largest QR payload, in bytes.
pub const QR_CAPACITY: usize = 2900;

/// The QR payload of JSON bytes: their base64 text, refused when longer than 2900 bytes.
pub open spec fn qr_outcome(json: Seq<u8>) -> Result<Seq<char>, ZkpErrorView> {
    let b = base64_text(json);
    if b.len() > 2900 {
        Err(ZkpErrorView::EncodingError(
            "Proof too large for QR code  ("@ + decimal_text(b.len()) + " bytes,\n                    max 2900)"@,
        ))
    } else {
        Ok(b)
    }
}

/// The JSON text that a QR payload stands for, when it is base64 of valid UTF-8.
pub open spec fn qr_decoded(q: Seq<char>) -> Option<Seq<char>> {
    match base64_decoded(q) {
        Some(b) => if valid_utf8(b) {
            Some(decode_utf8(b))
        } else {
            None
        },
        None => None,
    }
}

// ---------------------------------------------------------------- BLE

/// Splits bytes into consecutive chunks of `n` bytes, the last one possibly shorter.
pub open spec fn chunks_of(b: Seq<u8>, n: nat) -> Seq<Seq<u8>>
    decreases b.len(),
{
    if b.len() == 0 || n == 0 {
        Seq::empty()
    } else if b.len() <= n {
        seq![b]
    } else {
        seq![b.take(n as int)] + chunks_of(b.skip(n as int), n)
    }
}

/// The views of a vector of byte vectors.
pub open spec fn chunks_view(v: Seq<Vec<u8>>) -> Seq<Seq<u8>> {
    v.map_values(|c: Vec<u8>| c@)
}

/// Splitting and joining: the chunks of bytes, put back together, are the bytes.
pub proof fn lemma_chunks_flatten(b: Seq<u8>, n: nat)
    requires
        n > 0,
    ensures
        chunks_of(b, n).flatten() == b,
    decreases b.len(),
{
    if b.len() == 0 {
        assert(chunks_of(b, n) =~= Seq::<Seq<u8>>::empty());
        assert(b =~= Seq::<u8>::empty());
    } else if b.len() <= n {
        let c = chunks_of(b, n);
        assert(c.drop_first() =~= Seq::<Seq<u8>>::empty());
        assert(c.flatten() == c[0] + c.drop_first().flatten());
        assert(c.flatten() =~= b);
    } else {
        lemma_chunks_flatten(b.skip(n as int), n);
        let c = chunks_of(b, n);
        assert(c.drop_first() =~= chunks_of(b.skip(n as int), n));
        assert(c.flatten() == c[0] + c.drop_first().flatten());
        assert(b.take(n as int) + b.skip(n as int) =~= b);
    }
}

/// Every chunk has between 1 and `n` bytes.
pub proof fn lemma_chunk_sizes(b: Seq<u8>, n: nat)
    requires
        n > 0,
    ensures
        forall|i: int| 0 <= i < chunks_of(b, n).len() ==> 0 < #[trigger] chunks_of(b, n)[i].len() <= n,
    decreases b.len(),
{
    if b.len() > n {
        lemma_chunk_sizes(b.skip(n as int), n);
        let c = chunks_of(b, n);
        assert forall|i: int| 0 <= i < c.len() implies 0 < #[trigger] c[i].len() <= n by {
            if i > 0 {
                assert(c[i] == chunks_of(b.skip(n as int), n)[i - 1]);
            }
        }
    }
}

// ---------------------------------------------------------------- ultrasonic

/// The entries of the compact object sent over ultrasonic audio.
pub open spec fn compact_entries(p: ZkProofView) -> Seq<(Seq<char>, JsonLeafView)> {
    seq![
        ("p"@, JsonLeafView::Text(p.proof_data)),
        ("s"@, JsonLeafView::Texts(p.public_signals)),
        ("c"@, JsonLeafView::Text(p.circuit_id)),
        ("t"@, JsonLeafView::Unsigned(p.timestamp)),
        ("v"@, JsonLeafView::Text(p.version)),
    ]
}

/// The strings among array elements, in order.
pub open spec fn texts_only(l: Seq<Option<Seq<char>>>) -> Seq<Seq<char>> {
    l.filter_map(|o: Option<Seq<char>>| o)
}

/// The proof that a compact ultrasonic document stands for: it must parse as JSON and
/// hold a string `p`, an array `s` (its strings are the signals), a string `c` and a
/// non-negative integer `t`; `sig` is the signature when it is a string, `v` the
/// version when it is a string ("1.0" otherwise).
pub open spec fn ultrasonic_outcome(data: Seq<u8>) -> Result<ZkProofView, ZkpErrorView> {
    if !json_bytes_valid(data) {
        Err(ZkpErrorView::SerializationError)
    } else {
        match json_field_at(data, "p"@) {
            JsonFieldView::Text(p) => match json_field_at(data, "s"@) {
                JsonFieldView::List(l) => match json_field_at(data, "c"@) {
                    JsonFieldView::Text(c) => match json_field_at(data, "t"@) {
                        JsonFieldView::Unsigned(t) => Ok(ZkProofView {
                            proof_data: p,
                            public_signals: texts_only(l),
                            circuit_id: c,
                            timestamp: t,
                            signature: match json_field_at(data, "sig"@) {
                                JsonFieldView::Text(s) => Some(s),
                                _ => None,
                            },
                            version: match json_field_at(data, "v"@) {
                                JsonFieldView::Text(v) => v,
                                _ => "1.0"@,
                            },
                        }),
                        _ => Err(ZkpErrorView::InvalidProofFormat("Missing timestamp"@)),
                    },
                    _ => Err(ZkpErrorView::InvalidProofFormat("Missing circuit ID"@)),
                },
                _ => Err(ZkpErrorView::InvalidProofFormat("Missing signals"@)),
            },
            _ => Err(ZkpErrorView::InvalidProofFormat("Missing proof data"@)),
        }
    }
}

/// A proof without its signature.
pub open spec fn unsigned(p: ZkProofView) -> ZkProofView {
    ZkProofView { signature: None, ..p }
}

/// Keeping every element of a sequence and then its values gives the sequence.
proof fn lemma_texts_only_all(s: Seq<Seq<char>>)
    ensures
        texts_only(s.map_values(|x: Seq<char>| Some(x))) == s,
    decreases s.len(),
{
    let l = s.map_values(|x: Seq<char>| Some(x));
    if s.len() > 0 {
        lemma_texts_only_all(s.drop_last());
        assert(l.drop_last() =~= s.drop_last().map_values(|x: Seq<char>| Some(x)));
        assert(texts_only(l) == texts_only(l.drop_last()) + seq![s.last()]);
        assert(s.drop_last() + seq![s.last()] =~= s);
    } else {
        assert(texts_only(l) =~= s);
    }
}

// ---------------------------------------------------------------- sizes

/// `n * num / den`, capped at the largest `usize`.
pub open spec fn scaled(n: nat, num: nat, den: nat) -> nat {
    let v = n * num / den;
    if v > usize::MAX {
        usize::MAX as nat
    } else {
        v
    }
}

/// The estimated size of `n` bytes of proof sent over `channel`: QR codes add 33%,
/// ultrasonic audio 50% and NFC 20% (rounded down), BLE and direct transfer nothing.
pub open spec fn size_for(n: nat, channel: TransmissionChannel) -> nat {
    match channel {
        TransmissionChannel::QrCode => scaled(n, 133, 100),
        TransmissionChannel::BluetoothLe => n,
        TransmissionChannel::UltrasonicAudio => scaled(n, 3, 2),
        TransmissionChannel::Nfc => scaled(n, 6, 5),
        TransmissionChannel::DirectTransfer => n,
    }
}

/// `n * num / den` computed exactly, capped at the largest `usize`.
fn scale(n: usize, num: u128, den: u128) -> (res: usize)
    requires
        0 < den,
        num <= 1000,
    ensures
        res == scaled(n as nat, num as nat, den as nat),
{
    assert((n as u128) * num <= u128::MAX) by (nonlinear_arith)
        requires
            n <= usize::MAX,
            num <= 1000,
    ;
    let v = (n as u128) * num / den;
    if v > (usize::MAX as u128) {
        usize::MAX
    } else {
        v as usize
    }
}

// ---------------------------------------------------------------- packets

/// The outcome of validating a packet at time `now`.
pub open spec fn packet_outcome(p: ProofPacketView, max_age: u64, now: u64) -> Result<(), ZkpErrorView> {
    if p.proof.proof_data.len() == 0 {
        Err(ZkpErrorView::InvalidProofFormat("Proof data is empty"@))
    } else if !is_fresh(now, p.proof.timestamp, max_age) {
        Err(ZkpErrorView::InvalidProofFormat("Proof is too old"@))
    } else if p.metadata.nonce is None {
        Err(ZkpErrorView::InvalidProofFormat("Missing nonce"@))
    } else {
        Ok(())
    }
}

/// Encodes and decodes proofs for the transmission channels.
pub struct ProofExchange;

impl ProofExchange {
    /// The QR payload of a proof's JSON bytes: their base64 text, refused when longer
    /// than 2900 bytes, which happens exactly for more than 2175 bytes of JSON.
    pub fn encode_json_for_qr(proof_json: &[u8]) -> (res: ZkpResult<String>)
        ensures
            result_view(res) == qr_outcome(proof_json@),
            res is Ok <==> proof_json@.len() <= 2175,
            res matches Ok(q) ==> base64_decoded(q@) == Some(proof_json@),
    {
        let compressed = base64_encode(proof_json);
        proof {
            vstd::utf8::is_ascii_chars_encode_utf8(compressed@);
        }
        let len = compressed.as_str().unicode_len();
        if len > QR_CAPACITY {
            let n = usize_text(len);
            return Err(ZkpError::EncodingError(
                concat3("Proof too large for QR code  (", n.as_str(), " bytes,\n                    max 2900)"),
            ));
        }
        Ok(compressed)
    }

    /// Encodes a proof for a QR code: the base64 text of its JSON, refused when longer
    /// than 2900 bytes (more than 2175 bytes of JSON). Decoding the payload gives back
    /// the proof's JSON text, from which each field of the proof reads back.
    pub fn encode_for_qr(proof: &ZkProof) -> (res: ZkpResult<String>)
        ensures
            result_view(res) == qr_outcome(proof_json(proof@)),
            res is Ok <==> proof_json(proof@).len() <= 2175,
            proof@.proof_data.len() > 2173 ==> (res matches Err(e) && e@ is EncodingError),
            res matches Ok(q) ==> qr_decoded(q@) == Some(decode_utf8(proof_json(proof@)))
                && carries_proof(proof_json(proof@), proof@),
    {
        let json = match proof_json_bytes(proof) {
            Ok(b) => b,
            Err(e) => return Err(e),
        };
        Self::encode_json_for_qr(json.as_slice())
    }

    /// Decodes QR data into the proof's JSON text: base64, then UTF-8.
    pub fn decode_from_qr(qr_data: &str) -> (res: ZkpResult<String>)
        ensures
            match qr_decoded(qr_data@) {
                Some(t) => result_view(res) == Ok::<Seq<char>, ZkpErrorView>(t),
                None => res matches Err(e) && e@ is EncodingError,
            },
            base64_decoded(qr_data@) matches Some(b) && !valid_utf8(b) ==> (res matches Err(e)
                && exists|t: Seq<char>| e@ == ZkpErrorView::EncodingError("Invalid UTF-8:"@ + t)),
    {
        let decoded_bytes = match base64_decode(qr_data) {
            Ok(b) => b,
            Err(e) => return Err(e),
        };
        match string_from_utf8(decoded_bytes) {
            Ok(s) => Ok(s),
            Err(e) => {
                let t = e.to_string();
                Err(ZkpError::EncodingError(concat2("Invalid UTF-8:", t.as_str())))
            },
        }
    }

    /// Splits a proof's JSON bytes into chunks of `chunk_size` bytes for BLE; an
    /// encoding error for a chunk size of 0.
    pub fn chunk_json_for_ble(proof_json: &[u8], chunk_size: usize) -> (res: ZkpResult<Vec<Vec<u8>>>)
        ensures
            chunk_size == 0 ==> result_view(res) == Err::<Seq<Vec<u8>>, ZkpErrorView>(
                ZkpErrorView::EncodingError("\n            Chunk size must be greater than 0"@),
            ),
            chunk_size > 0 ==> (res matches Ok(c) && chunks_view(c@) == chunks_of(proof_json@, chunk_size as nat)),
    {
        if chunk_size == 0 {
            return Err(ZkpError::EncodingError(String::from_str("\n            Chunk size must be greater than 0")));
        }
        let n = chunk_size;
        let len = proof_json.len();
        let mut chunks: Vec<Vec<u8>> = Vec::new();
        let mut i: usize = 0;
        assert(proof_json@.skip(0) =~= proof_json@);
        while i < len
            invariant
                len == proof_json@.len(),
                n > 0,
                i <= len,
                chunks_view(chunks@) + chunks_of(proof_json@.skip(i as int), n as nat) == chunks_of(proof_json@, n as nat),
            decreases len - i,
        {
            let end = if len - i > n { i + n } else { len };
            let mut chunk: Vec<u8> = Vec::new();
            let mut j: usize = i;
            while j < end
                invariant
                    i <= j <= end <= len,
                    len == proof_json@.len(),
                    chunk@ == proof_json@.subrange(i as int, j as int),
                decreases end - j,
            {
                chunk.push(proof_json[j]);
                j = j + 1;
                assert(chunk@ =~= proof_json@.subrange(i as int, j as int));
            }
            let ghost rest = proof_json@.skip(i as int);
            let ghost before = chunks_view(chunks@);
            chunks.push(chunk);
            proof {
                assert(chunks_view(chunks@) =~= before.push(proof_json@.subrange(i as int, end as int)));
                if rest.len() <= n {
                    assert(rest =~= proof_json@.subrange(i as int, end as int));
                    assert(proof_json@.skip(end as int) =~= Seq::<u8>::empty());
                    assert(chunks_of(proof_json@.skip(end as int), n as nat) =~= Seq::<Seq<u8>>::empty());
                } else {
                    assert(rest.take(n as int) =~= proof_json@.subrange(i as int, end as int));
                    assert(rest.skip(n as int) =~= proof_json@.skip(end as int));
                }
                assert(before + chunks_of(rest, n as nat) =~= chunks_view(chunks@) + chunks_of(proof_json@.skip(end as int), n as nat));
            }
            i = end;
        }
        assert(chunks_of(proof_json@.skip(len as int), n as nat) =~= Seq::<Seq<u8>>::empty());
        assert(chunks_view(chunks@) =~= chunks_of(proof_json@, n as nat));
        Ok(chunks)
    }

    /// Encodes a proof for BLE: its JSON bytes in chunks of `chunk_size` bytes; an
    /// encoding error for a chunk size of 0. Joining the chunks gives back the JSON,
    /// from which each field of the proof reads back.
    pub fn encode_for_ble(proof: &ZkProof, chunk_size: usize) -> (res: ZkpResult<Vec<Vec<u8>>>)
        ensures
            chunk_size == 0 ==> result_view(res) == Err::<Seq<Vec<u8>>, ZkpErrorView>(
                ZkpErrorView::EncodingError("\n            Chunk size must be greater than 0"@),
            ),
            chunk_size > 0 ==> (res matches Ok(c) && chunks_view(c@) == chunks_of(proof_json(proof@), chunk_size as nat)),
            res matches Ok(c) ==> chunks_view(c@).flatten() == proof_json(proof@) && valid_utf8(proof_json(proof@))
                && carries_proof(proof_json(proof@), proof@),
    {
        let json = match proof_json_bytes(proof) {
            Ok(b) => b,
            Err(e) => return Err(e),
        };
        let res = Self::chunk_json_for_ble(json.as_slice(), chunk_size);
        proof {
            if chunk_size > 0 {
                lemma_chunks_flatten(json@, chunk_size as nat);
            }
        }
        res
    }

    /// Joins BLE chunks and decodes them as UTF-8 into the proof's JSON text.
    pub fn decode_from_ble(chunks: &[Vec<u8>]) -> (res: ZkpResult<String>)
        ensures
            valid_utf8(chunks_view(chunks@).flatten()) ==> result_view(res) == Ok::<Seq<char>, ZkpErrorView>(
                decode_utf8(chunks_view(chunks@).flatten()),
            ),
            !valid_utf8(chunks_view(chunks@).flatten()) ==> (res matches Err(e) && exists|t: Seq<char>|
                e@ == ZkpErrorView::EncodingError("Invalid UTF-8 "@ + t + " "@)),
    {
        let ghost cs = chunks_view(chunks@);
        let mut complete: Vec<u8> = Vec::new();
        let mut i: usize = 0;
        assert(cs.skip(0) =~= cs);
        while i < chunks.len()
            invariant
                i <= chunks@.len(),
                cs == chunks_view(chunks@),
                complete@ + cs.skip(i as int).flatten() == cs.flatten(),
            decreases chunks@.len() - i,
        {
            let chunk = &chunks[i];
            let ghost before = complete@;
            let mut j: usize = 0;
            while j < chunk.len()
                invariant
                    j <= chunk@.len(),
                    complete@ == before + chunk@.take(j as int),
                decreases chunk@.len() - j,
            {
                complete.push(chunk[j]);
                j = j + 1;
                assert(complete@ =~= before + chunk@.take(j as int));
            }
            proof {
                assert(chunk@.take(chunk@.len() as int) =~= chunk@);
                let rest = cs.skip(i as int);
                assert(rest[0] == chunk@);
                assert(rest.drop_first() =~= cs.skip(i + 1));
                assert(rest.flatten() == rest[0] + rest.drop_first().flatten());
                assert(complete@ + cs.skip(i + 1).flatten() =~= before + rest.flatten());
            }
            i = i + 1;
        }
        assert(cs.skip(chunks@.len() as int) =~= Seq::<Seq<u8>>::empty());
        assert(complete@ =~= cs.flatten());
        match string_from_utf8(complete) {
            Ok(s) => Ok(s),
            Err(e) => {
                let t = e.to_string();
                Err(ZkpError::EncodingError(concat3("Invalid UTF-8 ", t.as_str(), " ")))
            },
        }
    }

    /// Encodes a proof compactly for ultrasonic transmission: a JSON object with keys
    /// `p`, `s`, `c`, `t`, `v` (no signature). Decoding it gives back the proof without
    /// its signature.
    pub fn encode_for_ultrasonic(proof: &ZkProof) -> (res: ZkpResult<Vec<u8>>)
        ensures
            res matches Ok(b) && b@ == json_object_bytes(compact_entries(proof@))
                && ultrasonic_outcome(b@) == Ok::<ZkProofView, ZkpErrorView>(unsigned(proof@)),
    {
        let mut entries: Vec<(String, JsonLeaf)> = Vec::new();
        entries.push((String::from_str("p"), text_leaf(&proof.proof_data)));
        entries.push((String::from_str("s"), JsonLeaf::Texts(copy_strings(&proof.public_signals))));
        entries.push((String::from_str("c"), text_leaf(&proof.circuit_id)));
        entries.push((String::from_str("t"), JsonLeaf::Unsigned(proof.timestamp)));
        entries.push((String::from_str("v"), text_leaf(&proof.version)));
        assert(entries_view(entries@) =~= compact_entries(proof@));
        match write_json_object(&entries) {
            Ok(b) => {
                proof {
                    let e = compact_entries(proof@);
                    reveal_strlit("p");
                    reveal_strlit("s");
                    reveal_strlit("c");
                    reveal_strlit("t");
                    reveal_strlit("v");
                    reveal_strlit("sig");
                    reveal_with_fuel(field_of, 6);
                    assert("p"@[0] == 'p' && "s"@[0] == 's' && "c"@[0] == 'c' && "t"@[0] == 't' && "v"@[0] == 'v');
                    assert("sig"@.len() == 3);
                    assert(e.drop_last() =~= seq![e[0], e[1], e[2], e[3]]);
                    assert(e.drop_last().drop_last() =~= seq![e[0], e[1], e[2]]);
                    assert(e.drop_last().drop_last().drop_last() =~= seq![e[0], e[1]]);
                    assert(e.drop_last().drop_last().drop_last().drop_last() =~= seq![e[0]]);
                    assert(seq![e[0]].drop_last() =~= Seq::<(Seq<char>, JsonLeafView)>::empty());
                    lemma_texts_only_all(proof@.public_signals);
                    assert(json_field_at(b@, "p"@) == field_of(e, "p"@));
                    assert(json_field_at(b@, "s"@) == field_of(e, "s"@));
                    assert(json_field_at(b@, "c"@) == field_of(e, "c"@));
                    assert(json_field_at(b@, "t"@) == field_of(e, "t"@));
                    assert(json_field_at(b@, "sig"@) == field_of(e, "sig"@));
                    assert(json_field_at(b@, "v"@) == field_of(e, "v"@));
                }
                Ok(b)
            },
            Err(e) => Err(ZkpError::SerializationError(e)),
        }
    }

    /// Decodes a compact ultrasonic document into a proof.
    pub fn decode_from_ultrasonic(data: &[u8]) -> (res: ZkpResult<ZkProof>)
        ensures
            result_view(res) == ultrasonic_outcome(data@),
    {
        match parse_json(data) {
            Ok(_) => {},
            Err(e) => return Err(ZkpError::SerializationError(e)),
        }
        let proof_data = match read_json_field(data, "p") {
            JsonField::Text(s) => s,
            _ => return Err(ZkpError::InvalidProofFormat(String::from_str("Missing proof data"))),
        };
        let list = match read_json_field(data, "s") {
            JsonField::List(l) => l,
            _ => return Err(ZkpError::InvalidProofFormat(String::from_str("Missing signals"))),
        };
        let public_signals = Self::strings_of(&list);
        let circuit_id = match read_json_field(data, "c") {
            JsonField::Text(s) => s,
            _ => return Err(ZkpError::InvalidProofFormat(String::from_str("Missing circuit ID"))),
        };
        let timestamp = match read_json_field(data, "t") {
            JsonField::Unsigned(n) => n,
            _ => return Err(ZkpError::InvalidProofFormat(String::from_str("Missing timestamp"))),
        };
        let signature = match read_json_field(data, "sig") {
            JsonField::Text(s) => Some(s),
            _ => None,
        };
        let version = match read_json_field(data, "v") {
            JsonField::Text(s) => s,
            _ => String::from_str("1.0"),
        };
        Ok(ZkProof { proof_data, public_signals, circuit_id, timestamp, signature, version })
    }

    /// The strings among array elements, in order.
    fn strings_of(list: &Vec<Option<String>>) -> (res: Vec<String>)
        ensures
            strings_view(res@) == texts_only(list@.map_values(|o: Option<String>| opt_string_view(o))),
    {
        let ghost l = list@.map_values(|o: Option<String>| opt_string_view(o));
        let mut res: Vec<String> = Vec::new();
        let mut i: usize = 0;
        while i < list.len()
            invariant
                i <= list@.len(),
                l == list@.map_values(|o: Option<String>| opt_string_view(o)),
                strings_view(res@) == texts_only(l.take(i as int)),
            decreases list@.len() - i,
        {
            proof {
                l.lemma_filter_map_take_succ(|o: Option<Seq<char>>| o, i as int);
            }
            match &list[i] {
                Some(s) => {
                    let ghost before = res@;
                    res.push(s.clone());
                    assert(strings_view(res@) =~= strings_view(before) + seq![s@]);
                },
                None => {},
            }
            i = i + 1;
        }
        assert(l.take(list@.len() as int) =~= l);
        res
    }

    /// Packages a proof with transmission metadata: a fresh random nonce and base64
    /// compression.
    pub fn create_packet(proof: ZkProof, channel: TransmissionChannel, receiver_pubkey: Option<String>) -> (res: ZkpResult<ProofPacket>)
        ensures
            res matches Ok(p) && p@.proof == proof@ && p@.metadata.channel == channel
                && p@.metadata.compression == Some("base64"@)
                && p@.metadata.receiver_pubkey == opt_string_view(receiver_pubkey)
                && (exists|b: Seq<u8>| b.len() == 32 && p@.metadata.nonce == Some(hex_lower(b))),
    {
        let nonce = generate_nonce();
        Ok(ProofPacket {
            proof,
            metadata: TransmissionMetadata {
                channel,
                nonce: Some(nonce),
                compression: Some(String::from_str("base64")),
                receiver_pubkey,
            },
        })
    }

    /// Checks at time `now` that a received packet has proof data, is at most `max_age`
    /// seconds old and carries a nonce.
    pub fn validate_packet_at(packet: &ProofPacket, max_age: u64, now: u64) -> (res: ZkpResult<()>)
        ensures
            result_view(res) == packet_outcome(packet@, max_age, now),
    {
        if packet.proof.proof_data.as_str().is_empty() {
            return Err(ZkpError::InvalidProofFormat(String::from_str("Proof data is empty")));
        }
        if !timestamp_is_fresh(now, packet.proof.timestamp, max_age) {
            return Err(ZkpError::InvalidProofFormat(String::from_str("Proof is too old")));
        }
        if packet.metadata.nonce.is_none() {
            return Err(ZkpError::InvalidProofFormat(String::from_str("Missing nonce")));
        }
        Ok(())
    }

    /// Checks at the current time that a received packet has proof data, is at most
    /// `max_age` seconds old and carries a nonce.
    pub fn validate_packet(packet: &ProofPacket, max_age: u64) -> (res: ZkpResult<()>)
        ensures
            exists|now: u64| result_view(res) == packet_outcome(packet@, max_age, now),
    {
        let now = current_timestamp();
        Self::validate_packet_at(packet, max_age, now)
    }

    /// The estimated size of `base_size` bytes of proof sent over `channel`.
    pub fn transmission_size(base_size: usize, channel: &TransmissionChannel) -> (res: usize)
        ensures
            res == size_for(base_size as nat, *channel),
    {
        match channel {
            TransmissionChannel::QrCode => scale(base_size, 133, 100),
            TransmissionChannel::BluetoothLe => base_size,
            TransmissionChannel::UltrasonicAudio => scale(base_size, 3, 2),
            TransmissionChannel::Nfc => scale(base_size, 6, 5),
            TransmissionChannel::DirectTransfer => base_size,
        }
    }

    /// The estimated size of a proof sent over `channel`, from the length of its JSON
    /// (at least two bytes); ultrasonic audio always gives more than the JSON's length.
    pub fn estimate_transmission_size(proof: &ZkProof, channel: &TransmissionChannel) -> (res: ZkpResult<usize>)
        ensures
            res matches Ok(n) && n == size_for(proof_json(proof@).len(), *channel),
            2 <= proof_json(proof@).len() <= isize::MAX,
            *channel == TransmissionChannel::UltrasonicAudio ==> (res matches Ok(n) && n > proof_json(proof@).len()),
    {
        let json = match proof_json_bytes(proof) {
            Ok(b) => b,
            Err(e) => return Err(e),
        };
        proof {
            let n = json@.len();
            assert(n * 3 / 2 > n && n * 3 / 2 <= usize::MAX) by (nonlinear_arith)
                requires
                    2 <= n <= isize::MAX,
                    isize::MAX < usize::MAX,
            ;
        }
        Ok(Self::transmission_size(json.len(), channel))
    }
}

} // verus!

verus! {

/// BLE and direct transfer add nothing; QR codes, NFC and ultrasonic audio never give
/// less than the proof's size, and ultrasonic audio gives more from two bytes on
/// (below the largest `usize`, where the estimate is capped).
pub proof fn law_size_order(n: nat)
    requires
        n <= usize::MAX,
    ensures
        size_for(n, TransmissionChannel::BluetoothLe) == n,
        size_for(n, TransmissionChannel::DirectTransfer) == n,
        size_for(n, TransmissionChannel::QrCode) >= n,
        size_for(n, TransmissionChannel::Nfc) >= n,
        size_for(n, TransmissionChannel::UltrasonicAudio) >= n,
        2 <= n < usize::MAX ==> size_for(n, TransmissionChannel::UltrasonicAudio) > n,
{
    assert(n * 133 / 100 >= n) by (nonlinear_arith);
    assert(n * 6 / 5 >= n) by (nonlinear_arith);
    assert(n * 3 / 2 >= n) by (nonlinear_arith);
    assert(n >= 2 ==> n * 3 / 2 > n) by (nonlinear_arith);
}

/// A packet that carries a nonce, as every created packet does, passes validation
/// exactly when its proof has data and is fresh.
pub proof fn law_packet_with_nonce_validates(p: ProofPacketView, max_age: u64, now: u64)
    requires
        p.metadata.nonce is Some,
    ensures
        packet_outcome(p, max_age, now) is Ok <==> p.proof.proof_data.len() > 0 && is_fresh(now, p.proof.timestamp, max_age),
{
}


/// A packet without a nonce never validates, whatever its other metadata; when its proof
/// has data and is fresh, the answer is that the nonce is missing.
pub proof fn law_packet_without_nonce_refused(p: ProofPacketView, max_age: u64, now: u64)
    requires
        p.metadata.nonce is None,
    ensures
        packet_outcome(p, max_age, now) is Err,
        p.proof.proof_data.len() > 0 && is_fresh(now, p.proof.timestamp, max_age) ==> packet_outcome(p, max_age, now)
            == Err::<(), ZkpErrorView>(ZkpErrorView::InvalidProofFormat("Missing nonce"@)),
{
}


/// A packet whose proof has no data is refused for that first; one with data that is
/// not fresh is refused as too old, whatever its metadata.
pub proof fn law_packet_empty_or_stale_refused(p: ProofPacketView, max_age: u64, now: u64)
    ensures
        p.proof.proof_data.len() == 0 ==> packet_outcome(p, max_age, now)
            == Err::<(), ZkpErrorView>(ZkpErrorView::InvalidProofFormat("Proof data is empty"@)),
        p.proof.proof_data.len() > 0 && !is_fresh(now, p.proof.timestamp, max_age) ==> packet_outcome(p, max_age, now)
            == Err::<(), ZkpErrorView>(ZkpErrorView::InvalidProofFormat("Proof is too old"@)),
{
}

} // verus!
