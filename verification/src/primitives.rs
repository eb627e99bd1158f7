//! The cryptographic and encoding primitives that the wallet's rules rest on.
//!
//! Every function here that is marked `external_body` hands plain values to
//! an outside library and plain values back. Its contract is taken on
//! trust: the doc comment names the outside function and what is claimed
//! of it. The few functions without that mark are verified: they fix the
//! arguments that this wallet always hands over.

use vstd::prelude::*;
use crate::tx::{Network, Tx, TxInput, TxOutput, TxView};

verus! {

/// The value of a hexadecimal digit, upper or lower case.
pub open spec fn spec_hex_digit(c: char) -> Option<u8> {
    let v = c as u32;
    if 0x30 <= v <= 0x39 {
        Some((v - 0x30) as u8)
    } else if 0x41 <= v <= 0x46 {
        Some((v - 0x41 + 10) as u8)
    } else if 0x61 <= v <= 0x66 {
        Some((v - 0x61 + 10) as u8)
    } else {
        None
    }
}

/// Whether `s` is an even number of hexadecimal digits.
pub open spec fn spec_is_hex(s: Seq<char>) -> bool {
    s.len() % 2 == 0 && forall|i: int| 0 <= i < s.len() ==> spec_hex_digit(#[trigger] s[i]) is Some
}

/// The bytes that the hexadecimal text `s` stands for, or `None` where `s`
/// is not an even number of hexadecimal digits.
pub open spec fn spec_hex_decode(s: Seq<char>) -> Option<Seq<u8>> {
    if spec_is_hex(s) {
        Some(
            Seq::new(
                (s.len() / 2) as nat,
                |i: int|
                    (spec_hex_digit(s[2 * i]).unwrap() * 16 + spec_hex_digit(
                        s[2 * i + 1],
                    ).unwrap()) as u8,
            ),
        )
    } else {
        None
    }
}

/// The lower-case hexadecimal digit for a value below sixteen.
pub open spec fn spec_hex_char(nibble: int) -> char {
    if nibble < 10 {
        (0x30 + nibble) as char
    } else {
        (0x61 + nibble - 10) as char
    }
}

/// The lower-case hexadecimal text of `bytes`, two digits to a byte.
pub open spec fn spec_hex_encode(bytes: Seq<u8>) -> Seq<char> {
    Seq::new(
        2 * bytes.len(),
        |i: int|
            if i % 2 == 0 {
                spec_hex_char(bytes[i / 2] as int / 16)
            } else {
                spec_hex_char(bytes[i / 2] as int % 16)
            },
    )
}

/// A hexadecimal digit stands for the value it was written for.
proof fn lemma_hex_char_is_digit(nibble: int)
    requires
        0 <= nibble < 16,
    ensures
        spec_hex_digit(spec_hex_char(nibble)) == Some(nibble as u8),
{
}

/// Bytes written in hexadecimal are read back as they were.
pub proof fn lemma_hex_round_trip(bytes: Seq<u8>)
    ensures
        spec_hex_decode(spec_hex_encode(bytes)) == Some(bytes),
{
    let text = spec_hex_encode(bytes);
    assert forall|i: int| 0 <= i < text.len() implies spec_hex_digit(#[trigger] text[i]) is Some by {
        lemma_hex_char_is_digit(bytes[i / 2] as int / 16);
        lemma_hex_char_is_digit(bytes[i / 2] as int % 16);
    }
    let decoded = spec_hex_decode(text).unwrap();
    assert forall|i: int| 0 <= i < bytes.len() implies #[trigger] decoded[i] == bytes[i] by {
        lemma_hex_char_is_digit(bytes[i] as int / 16);
        lemma_hex_char_is_digit(bytes[i] as int % 16);
        assert(text[2 * i] == spec_hex_char(bytes[i] as int / 16));
        assert(text[2 * i + 1] == spec_hex_char(bytes[i] as int % 16));
    }
    assert(decoded =~= bytes);
}

/// Decodes hexadecimal text with `hex::decode`, which accepts both cases and
/// refuses odd lengths and any other character.
#[verifier::external_body]
pub(crate) fn hex_decode(text: &str) -> (bytes: Option<Vec<u8>>)
    ensures
        match bytes {
            Some(b) => spec_hex_decode(text@) == Some(b@),
            None => spec_hex_decode(text@) is None,
        },
{
    hex::decode(text).ok()
}

/// Encodes bytes with `hex::encode`: lower case, two digits to a byte.
#[verifier::external_body]
pub(crate) fn hex_encode(bytes: &[u8]) -> (text: String)
    ensures
        text@ == spec_hex_encode(bytes@),
{
    hex::encode(bytes)
}

/// The SHA-256 digest of `data`.
pub uninterp spec fn spec_sha256(data: Seq<u8>) -> Seq<u8>;

/// Hashes with `bitcoin::hashes::sha256::Hash::hash`; a digest has 32 bytes.
#[verifier::external_body]
pub(crate) fn sha256(data: &[u8]) -> (digest: Vec<u8>)
    ensures
        digest@ == spec_sha256(data@),
        digest@.len() == 32,
{
    let hash = <bitcoin::hashes::sha256::Hash as bitcoin::hashes::Hash>::hash(data);
    bitcoin::hashes::Hash::to_byte_array(hash).to_vec()
}

/// The compressed serialisation of the public key that `text` names in hex,
/// or `None` where `text` names none.
pub uninterp spec fn spec_public_key_bytes(text: Seq<char>) -> Option<Seq<u8>>;

/// Parses a public key with `secp256k1_zkp::PublicKey::from_str` and gives
/// its 33 bytes from `PublicKey::serialize`.
#[verifier::external_body]
pub(crate) fn public_key_bytes(text: &str) -> (bytes: Option<Vec<u8>>)
    ensures
        match bytes {
            Some(b) => spec_public_key_bytes(text@) == Some(b@) && b@.len() == 33,
            None => spec_public_key_bytes(text@) is None,
        },
{
    let key = text.parse::<secp256k1_zkp::PublicKey>().ok()?;
    Some(key.serialize().to_vec())
}

/// The 32-byte x-only form of the public key that `text` names in hex.
pub uninterp spec fn spec_x_only_public_key(text: Seq<char>) -> Option<Seq<u8>>;

/// Parses a public key with `PublicKey::from_str` and gives the
/// serialisation of `PublicKey::x_only_public_key`, which has 32 bytes.
#[verifier::external_body]
pub(crate) fn x_only_public_key(text: &str) -> (bytes: Option<Vec<u8>>)
    ensures
        match bytes {
            Some(b) => spec_x_only_public_key(text@) == Some(b@) && b@.len() == 32,
            None => spec_x_only_public_key(text@) is None,
        },
{
    let key = text.parse::<secp256k1_zkp::PublicKey>().ok()?;
    Some(key.x_only_public_key().0.serialize().to_vec())
}

/// The sum of two public keys given in hex, in hex; `None` where either
/// names no key or the sum is the point at infinity.
pub uninterp spec fn spec_combine_public_keys(first: Seq<char>, second: Seq<char>) -> Option<
    Seq<char>,
>;

/// Adds two public keys with `PublicKey::combine` and prints the sum as
/// `PublicKey`'s `Display` does.
#[verifier::external_body]
pub(crate) fn combine_public_keys(first: &str, second: &str) -> (sum: Option<String>)
    ensures
        match sum {
            Some(s) => spec_combine_public_keys(first@, second@) == Some(s@),
            None => spec_combine_public_keys(first@, second@) is None,
        },
{
    let a = first.parse::<secp256k1_zkp::PublicKey>().ok()?;
    let b = second.parse::<secp256k1_zkp::PublicKey>().ok()?;
    Some(a.combine(&b).ok()?.to_string())
}

/// The pay-to-taproot script for the internal key that `key` names in hex
/// and the merkle root of its script tree, if it has one; `None` where the
/// key is none or the root is not 32 bytes.
pub uninterp spec fn spec_taproot_script(key: Seq<char>, merkle_root: Option<Seq<u8>>) -> Option<
    Seq<u8>,
>;

/// Builds the locking script with `bitcoin::ScriptBuf::new_v1_p2tr` from the
/// x-only form of the key. The tweak of the key, which that library expects
/// never to fail, is not accounted for.
#[verifier::external_body]
pub(crate) fn taproot_script(key: &str, merkle_root: Option<&[u8]>) -> (script: Option<Vec<u8>>)
    ensures
        script matches Some(s) ==> spec_taproot_script(key@, slice_view(merkle_root)) == Some(s@),
        script is None ==> spec_taproot_script(key@, slice_view(merkle_root)) is None,
{
    let secp = secp256k1_zkp::Secp256k1::verification_only();
    let internal = key.parse::<secp256k1_zkp::PublicKey>().ok()?.x_only_public_key().0;
    let root = match merkle_root {
        Some(m) => Some(<bitcoin::taproot::TapNodeHash as bitcoin::hashes::Hash>::from_slice(m).ok()?),
        None => None,
    };
    Some(bitcoin::ScriptBuf::new_v1_p2tr(&secp, internal, root).to_bytes())
}

/// The view of an optional slice.
pub open spec fn slice_view(bytes: Option<&[u8]>) -> Option<Seq<u8>> {
    match bytes {
        Some(b) => Some(b@),
        None => None,
    }
}

/// The pay-to-taproot script, with no script path, for the internal key that
/// `key` names in hex.
pub open spec fn spec_p2tr_script(key: Seq<char>) -> Option<Seq<u8>> {
    spec_taproot_script(key, None)
}

/// The key-path-only taproot script of a key: this wallet's outputs have no
/// script tree.
pub(crate) fn p2tr_script(key: &str) -> (script: Option<Vec<u8>>)
    ensures
        match script {
            Some(s) => spec_p2tr_script(key@) == Some(s@),
            None => spec_p2tr_script(key@) is None,
        },
{
    taproot_script(key, None)
}

/// The pay-to-taproot address on `network` for the internal key that `key`
/// names in hex and the merkle root of its script tree, if it has one.
pub uninterp spec fn spec_taproot_address(
    key: Seq<char>,
    network: Network,
    merkle_root: Option<Seq<u8>>,
) -> Option<Seq<char>>;

/// Builds the address with `bitcoin::Address::p2tr` from the x-only form of
/// the key, and prints it as `Address`'s `Display` does. The tweak of the
/// key, which that library expects never to fail, is not accounted for.
#[verifier::external_body]
pub(crate) fn taproot_address(key: &str, network: Network, merkle_root: Option<&[u8]>) -> (address:
    Option<String>)
    ensures
        address matches Some(a) ==> spec_taproot_address(key@, network, slice_view(merkle_root))
            == Some(a@),
        address is None ==> spec_taproot_address(key@, network, slice_view(merkle_root)) is None,
{
    let secp = secp256k1_zkp::Secp256k1::verification_only();
    let internal = key.parse::<secp256k1_zkp::PublicKey>().ok()?.x_only_public_key().0;
    let root = match merkle_root {
        Some(m) => Some(<bitcoin::taproot::TapNodeHash as bitcoin::hashes::Hash>::from_slice(m).ok()?),
        None => None,
    };
    let net = match network {
        Network::Bitcoin => bitcoin::Network::Bitcoin,
        Network::Testnet => bitcoin::Network::Testnet,
        Network::Signet => bitcoin::Network::Signet,
        Network::Regtest => bitcoin::Network::Regtest,
    };
    Some(bitcoin::Address::p2tr(&secp, internal, root, net).to_string())
}

/// The pay-to-taproot address on `network`, with no script path, for the
/// internal key that `key` names in hex.
pub open spec fn spec_p2tr_address(key: Seq<char>, network: Network) -> Option<Seq<char>> {
    spec_taproot_address(key, network, None)
}

/// The key-path-only taproot address of a key.
pub(crate) fn p2tr_address(key: &str, network: Network) -> (address: Option<String>)
    ensures
        match address {
            Some(a) => spec_p2tr_address(key@, network) == Some(a@),
            None => spec_p2tr_address(key@, network) is None,
        },
{
    taproot_address(key, network, None)
}

/// The locking script of `address`, or `None` where it is no address or not
/// one for `network`.
pub uninterp spec fn spec_address_script(address: Seq<char>, network: Network) -> Option<Seq<u8>>;

/// Parses with `bitcoin::Address::from_str`, checks the network with
/// `Address::require_network` and gives `Address::script_pubkey`.
#[verifier::external_body]
pub(crate) fn address_script(address: &str, network: Network) -> (script: Option<Vec<u8>>)
    ensures
        match script {
            Some(s) => spec_address_script(address@, network) == Some(s@),
            None => spec_address_script(address@, network) is None,
        },
{
    let net = match network {
        Network::Bitcoin => bitcoin::Network::Bitcoin,
        Network::Testnet => bitcoin::Network::Testnet,
        Network::Signet => bitcoin::Network::Signet,
        Network::Regtest => bitcoin::Network::Regtest,
    };
    let parsed = address.parse::<bitcoin::Address<bitcoin::address::NetworkUnchecked>>().ok()?;
    Some(parsed.require_network(net).ok()?.script_pubkey().to_bytes())
}

/// The 64 bytes of the Schnorr signature that `text` gives in hex: any 64
/// bytes are a signature in form.
pub open spec fn spec_signature_bytes(text: Seq<char>) -> Option<Seq<u8>> {
    match spec_hex_decode(text) {
        Some(bytes) => if bytes.len() == 64 {
            Some(bytes)
        } else {
            None
        },
        None => None,
    }
}

/// Parses with `secp256k1_zkp::schnorr::Signature::from_str`, which takes
/// exactly 128 hexadecimal digits of either case.
#[verifier::external_body]
pub(crate) fn signature_bytes(text: &str) -> (bytes: Option<Vec<u8>>)
    ensures
        match bytes {
            Some(b) => spec_signature_bytes(text@) == Some(b@) && b@.len() == 64,
            None => spec_signature_bytes(text@) is None,
        },
{
    let signature = text.parse::<secp256k1_zkp::schnorr::Signature>().ok()?;
    Some(signature.as_ref().to_vec())
}

/// Whether `signature` is a valid BIP340 signature of the 32-byte `digest`
/// under the x-only public key `key`; false where any of the three is
/// malformed.
pub uninterp spec fn spec_schnorr_verify(signature: Seq<u8>, digest: Seq<u8>, key: Seq<u8>) -> bool;

/// Verifies with `Secp256k1::verify_schnorr`, after `Signature::from_slice`,
/// `Message::from_slice` and `XOnlyPublicKey::from_slice`.
#[verifier::external_body]
pub(crate) fn schnorr_verify(signature: &[u8], digest: &[u8], key: &[u8]) -> (valid: bool)
    ensures
        valid == spec_schnorr_verify(signature@, digest@, key@),
{
    let secp = secp256k1_zkp::Secp256k1::verification_only();
    match (
        secp256k1_zkp::schnorr::Signature::from_slice(signature),
        secp256k1_zkp::Message::from_slice(digest),
        secp256k1_zkp::XOnlyPublicKey::from_slice(key),
    ) {
        (Ok(s), Ok(m), Ok(k)) => secp.verify_schnorr(&s, &m, &k).is_ok(),
        _ => false,
    }
}

/// Signs the 32-byte `digest` with `Secp256k1::sign_schnorr` under the key
/// pair of the private key that `bitcoin::PrivateKey::from_wif` reads.
/// Signing draws fresh randomness, so the signature is not named; it is
/// given in hex as `Signature`'s `Display` prints it, it is always made
/// where the private key parses and the digest has 32 bytes, and it
/// verifies under the x-only form of the private key's public key.
#[verifier::external_body]
pub(crate) fn schnorr_sign(wif: &str, digest: &[u8]) -> (signature: Option<String>)
    ensures
        match spec_public_key_of(wif@) {
            Some(public) => if digest@.len() == 32 {
                signature matches Some(s) && spec_signature_bytes(s@) matches Some(bytes)
                    && spec_x_only_public_key(public) matches Some(key) && spec_schnorr_verify(
                    bytes,
                    digest@,
                    key,
                )
            } else {
                signature is None
            },
            None => signature is None,
        },
{
    let secp = secp256k1_zkp::Secp256k1::new();
    let key = bitcoin::PrivateKey::from_wif(wif).ok()?;
    let keypair = secp256k1_zkp::KeyPair::from_secret_key(&secp, &key.inner);
    let message = secp256k1_zkp::Message::from_slice(digest).ok()?;
    Some(secp.sign_schnorr(&message, &keypair).to_string())
}

/// The 32 bytes of the transaction id that `text` gives in hex, in the order
/// in which transactions hold them: the reverse of the order in which an id
/// is written.
pub open spec fn spec_txid_bytes(text: Seq<char>) -> Option<Seq<u8>> {
    match spec_hex_decode(text) {
        Some(bytes) => if bytes.len() == 32 {
            Some(bytes.reverse())
        } else {
            None
        },
        None => None,
    }
}

/// Parses with `bitcoin::Txid::from_str`, which takes exactly 64
/// hexadecimal digits of either case, and gives the id's 32 bytes.
#[verifier::external_body]
pub(crate) fn txid_bytes(text: &str) -> (bytes: Option<Vec<u8>>)
    ensures
        match bytes {
            Some(b) => spec_txid_bytes(text@) == Some(b@) && b@.len() == 32,
            None => spec_txid_bytes(text@) is None,
        },
{
    let txid = text.parse::<bitcoin::Txid>().ok()?;
    Some(txid[..].to_vec())
}

/// The transaction that `raw` encodes, or `None` where it encodes none.
pub uninterp spec fn spec_decode_transaction(raw: Seq<u8>) -> Option<TxView>;

/// Decodes with `bitcoin::consensus::encode::deserialize` and copies out the
/// version, the spent outpoints with their signature scripts, sequence
/// numbers and witness stacks, the outputs and the lock time.
#[verifier::external_body]
pub(crate) fn decode_transaction(raw: &[u8]) -> (tx: Option<Tx>)
    ensures
        match tx {
            Some(t) => spec_decode_transaction(raw@) == Some(t@),
            None => spec_decode_transaction(raw@) is None,
        },
{
    let tx = bitcoin::consensus::deserialize::<bitcoin::Transaction>(raw).ok()?;
    let inputs = tx.input.iter().map(|i| TxInput {
        txid: i.previous_output.txid.to_string(),
        vout: i.previous_output.vout,
        script_sig: i.script_sig.to_bytes(),
        sequence: i.sequence.0,
        witness: i.witness.to_vec(),
    }).collect();
    let outputs = tx.output.iter().map(|o| TxOutput {
        value: o.value,
        script_pubkey: o.script_pubkey.to_bytes(),
    }).collect();
    Some(Tx { version: tx.version, inputs, outputs, lock_time: tx.lock_time.to_consensus_u32() })
}

/// The virtual size of the transaction that `raw` encodes.
pub uninterp spec fn spec_transaction_vsize(raw: Seq<u8>) -> Option<u64>;

/// Decodes with `bitcoin::consensus::encode::deserialize` and measures with
/// `Transaction::vsize`.
#[verifier::external_body]
pub(crate) fn transaction_vsize(raw: &[u8]) -> (vsize: Option<u64>)
    ensures
        vsize == spec_transaction_vsize(raw@),
{
    let tx: bitcoin::Transaction = bitcoin::consensus::encode::deserialize(raw).ok()?;
    Some(tx.vsize() as u64)
}

/// The BIP341 key-spend signature hash of input number `input` of the
/// transaction that `raw` encodes, for the hash type `hash_type`, where the
/// transaction's only input spends an output of `value` satoshis locked by
/// `script`.
pub uninterp spec fn spec_sighash(
    raw: Seq<u8>,
    input: u32,
    value: u64,
    script: Seq<u8>,
    hash_type: u8,
) -> Option<Seq<u8>>;

/// Computes the hash with `SighashCache::taproot_key_spend_signature_hash`
/// and `Prevouts::All` of the one spent output, which fails unless the
/// transaction has exactly one input; the hash type is read with
/// `TapSighashType::from_consensus_u8`; a hash has 32 bytes.
#[verifier::external_body]
pub(crate) fn sighash(raw: &[u8], input: u32, value: u64, script: &[u8], hash_type: u8) -> (hash:
    Option<Vec<u8>>)
    ensures
        match hash {
            Some(h) => spec_sighash(raw@, input, value, script@, hash_type) == Some(h@) && h@.len()
                == 32,
            None => spec_sighash(raw@, input, value, script@, hash_type) is None,
        },
{
    let tx: bitcoin::Transaction = bitcoin::consensus::encode::deserialize(raw).ok()?;
    let spent = bitcoin::TxOut { value, script_pubkey: bitcoin::ScriptBuf::from_bytes(script.to_vec()) };
    let hash = bitcoin::sighash::SighashCache::new(&tx).taproot_key_spend_signature_hash(
        input as usize,
        &bitcoin::sighash::Prevouts::All(&[spent]),
        bitcoin::sighash::TapSighashType::from_consensus_u8(hash_type).ok()?,
    ).ok()?;
    Some(bitcoin::hashes::Hash::to_byte_array(hash).to_vec())
}

/// The hash type that signs all of a transaction: the default.
pub const SIGHASH_DEFAULT: u8 = 0;

/// The key-spend signature hash, with the default hash type, of the only
/// input of the transaction that `raw` encodes.
pub open spec fn spec_taproot_sighash(raw: Seq<u8>, value: u64, script: Seq<u8>) -> Option<Seq<u8>> {
    spec_sighash(raw, 0, value, script, SIGHASH_DEFAULT)
}

/// The signature hash that this wallet's transactions are signed for:
/// their first input, all of the transaction.
pub(crate) fn taproot_sighash(raw: &[u8], value: u64, script: &[u8]) -> (hash: Option<Vec<u8>>)
    ensures
        match hash {
            Some(h) => spec_taproot_sighash(raw@, value, script@) == Some(h@) && h@.len() == 32,
            None => spec_taproot_sighash(raw@, value, script@) is None,
        },
{
    sighash(raw, 0, value, script, SIGHASH_DEFAULT)
}

/// The encoding of a transaction, or `None` where an input names no
/// transaction id.
pub uninterp spec fn spec_serialize_transaction(tx: TxView) -> Option<Seq<u8>>;

/// Whether `decoded` is the transaction `tx`: the same version, lock time
/// and outputs, and input for input the same outpoint, signature script,
/// sequence number and witness. The ids of the spent transactions may
/// differ in the case of their digits.
pub open spec fn spec_same_transaction(tx: TxView, decoded: Option<TxView>) -> bool {
    &&& decoded matches Some(d)
    &&& d.version == tx.version
    &&& d.lock_time == tx.lock_time
    &&& d.outputs == tx.outputs
    &&& d.inputs.len() == tx.inputs.len()
    &&& forall|i: int|
        0 <= i < tx.inputs.len() ==> {
            &&& spec_txid_bytes((#[trigger] d.inputs[i]).txid) == spec_txid_bytes(tx.inputs[i].txid)
            &&& d.inputs[i].vout == tx.inputs[i].vout
            &&& d.inputs[i].script_sig == tx.inputs[i].script_sig
            &&& d.inputs[i].sequence == tx.inputs[i].sequence
            &&& d.inputs[i].witness == tx.inputs[i].witness
        }
}

/// Whether every input of `tx` names a transaction id.
pub open spec fn spec_inputs_named(tx: TxView) -> bool {
    forall|i: int| 0 <= i < tx.inputs.len() ==> spec_txid_bytes((#[trigger] tx.inputs[i]).txid) is Some
}

/// Whether every input of `tx` has no witness or that of a key-path spend:
/// one element of at most 65 bytes.
pub open spec fn spec_key_path_witnesses(tx: TxView) -> bool {
    forall|i: int|
        0 <= i < tx.inputs.len() ==> (#[trigger] tx.inputs[i]).witness.len() == 0 || (
        tx.inputs[i].witness.len() == 1 && tx.inputs[i].witness[0].len() <= 65)
}

/// Fills a `bitcoin::Transaction` with the fields of `tx` and encodes it with
/// `bitcoin::consensus::encode::serialize`. A transaction with an input
/// decodes again to what was encoded; this is claimed for witnesses of
/// key-path spends only, since the decoder refuses a witness of more than
/// four million bytes.
#[verifier::external_body]
pub(crate) fn serialize_transaction(tx: &Tx) -> (raw: Option<Vec<u8>>)
    ensures
        raw is Some <==> spec_inputs_named(tx@),
        raw matches Some(r) ==> spec_serialize_transaction(tx@) == Some(r@),
        raw is None ==> spec_serialize_transaction(tx@) is None,
        raw matches Some(r) ==> (tx.inputs@.len() >= 1 && spec_key_path_witnesses(tx@)
            ==> spec_same_transaction(tx@, spec_decode_transaction(r@))),
{
    let input = tx.inputs.iter().map(|i| Some(bitcoin::TxIn {
        previous_output: bitcoin::OutPoint { txid: i.txid.parse().ok()?, vout: i.vout },
        script_sig: i.script_sig.clone().into(),
        sequence: bitcoin::Sequence(i.sequence),
        witness: bitcoin::Witness::from_slice(&i.witness),
    })).collect::<Option<Vec<_>>>()?;
    let output = tx.outputs.iter().map(|o| bitcoin::TxOut {
        value: o.value,
        script_pubkey: o.script_pubkey.clone().into(),
    }).collect();
    let lock_time = bitcoin::absolute::LockTime::from_consensus(tx.lock_time);
    Some(bitcoin::consensus::serialize(&bitcoin::Transaction { version: tx.version, lock_time, input, output }))
}

/// The 32 bytes of the secret key that `wif` holds in wallet import format.
pub uninterp spec fn spec_secret_key_from_wif(wif: Seq<char>) -> Option<Seq<u8>>;

/// Parses with `bitcoin::PrivateKey::from_wif` and gives the bytes of the
/// secret key inside; a secret key has 32 bytes.
#[verifier::external_body]
pub(crate) fn secret_key_from_wif(wif: &str) -> (key: Option<Vec<u8>>)
    ensures
        match key {
            Some(k) => spec_secret_key_from_wif(wif@) == Some(k@) && k@.len() == 32,
            None => spec_secret_key_from_wif(wif@) is None,
        },
{
    let key = bitcoin::PrivateKey::from_wif(wif).ok()?;
    Some(key.inner.secret_bytes().to_vec())
}

/// The difference `minuend - subtrahend` of two scalars modulo the curve's
/// group order, as 32 big-endian bytes; `None` where the subtrahend is no
/// secret key, the minuend no scalar, or the difference is zero.
pub uninterp spec fn spec_scalar_difference(minuend: Seq<u8>, subtrahend: Seq<u8>) -> Option<
    Seq<u8>,
>;

/// Negates the subtrahend with `SecretKey::negate` and adds the minuend to
/// it with `SecretKey::add_tweak`.
#[verifier::external_body]
pub(crate) fn scalar_difference(minuend: &[u8], subtrahend: &[u8]) -> (difference: Option<Vec<u8>>)
    ensures
        match difference {
            Some(d) => spec_scalar_difference(minuend@, subtrahend@) == Some(d@) && d@.len() == 32,
            None => spec_scalar_difference(minuend@, subtrahend@) is None,
        },
{
    let key = secp256k1_zkp::SecretKey::from_slice(subtrahend).ok()?;
    let tweak = secp256k1_zkp::Scalar::from_be_bytes(minuend.try_into().ok()?).ok()?;
    Some(key.negate().add_tweak(&tweak).ok()?.secret_bytes().to_vec())
}

/// The private key, in wallet import format, at `path` below the master key
/// of `seed` on `network`; a path element with its highest bit set is a
/// hardened step.
pub uninterp spec fn spec_derive_private_key(seed: Seq<u8>, network: Network, path: Seq<u32>) -> Option<
    Seq<char>,
>;

/// Derives with `bitcoin::bip32::ExtendedPrivKey::new_master` and
/// `derive_priv`, and prints the key with `PrivateKey::to_wif`. The depth of
/// a key is held in a byte, so the path is kept below 256 steps; a step
/// whose digest is no valid scalar, which the library treats as
/// statistically impossible, is not accounted for.
#[verifier::external_body]
pub(crate) fn derive_private_key(seed: &[u8], network: Network, path: &[u32]) -> (key: Option<String>)
    requires
        path@.len() <= 255,
    ensures
        match key {
            Some(k) => spec_derive_private_key(seed@, network, path@) == Some(k@),
            None => spec_derive_private_key(seed@, network, path@) is None,
        },
{
    let secp = secp256k1_zkp::Secp256k1::new();
    let net = match network {
        Network::Bitcoin => bitcoin::Network::Bitcoin,
        Network::Testnet => bitcoin::Network::Testnet,
        Network::Signet => bitcoin::Network::Signet,
        Network::Regtest => bitcoin::Network::Regtest,
    };
    let steps: Vec<bitcoin::bip32::ChildNumber> = path.iter().map(|n| (*n).into()).collect();
    let master = bitcoin::bip32::ExtendedPrivKey::new_master(net, seed).ok()?;
    Some(master.derive_priv(&secp, &steps).ok()?.to_priv().to_wif())
}

/// The public key, in hex, of the private key that `wif` holds in wallet
/// import format.
pub uninterp spec fn spec_public_key_of(wif: Seq<char>) -> Option<Seq<char>>;

/// Parses with `bitcoin::PrivateKey::from_wif`, derives the public key with
/// `PrivateKey::public_key` and prints its compressed form as
/// `secp256k1::PublicKey`'s `Display` does.
#[verifier::external_body]
pub(crate) fn public_key_of(wif: &str) -> (key: Option<String>)
    ensures
        match key {
            Some(k) => spec_public_key_of(wif@) == Some(k@),
            None => spec_public_key_of(wif@) is None,
        },
{
    let secp = secp256k1_zkp::Secp256k1::new();
    let key = bitcoin::PrivateKey::from_wif(wif).ok()?;
    Some(key.public_key(&secp).inner.to_string())
}

/// Decrypts with `ecies::decrypt`. What comes back depends on that
/// library's process-wide configuration besides the arguments, so nothing is
/// claimed of it.
#[verifier::external_body]
pub(crate) fn ecies_decrypt(secret_key: &[u8], ciphertext: &[u8]) -> (plaintext: Option<Vec<u8>>) {
    ecies::decrypt(secret_key, ciphertext).ok()
}

/// Reads bytes as text with `String::from_utf8`, which succeeds exactly on
/// valid UTF-8 and then holds the characters that the bytes encode.
#[verifier::external_body]
pub(crate) fn string_from_utf8(bytes: Vec<u8>) -> (text: Option<String>)
    ensures
        match text {
            Some(t) => vstd::utf8::valid_utf8(bytes@) && t@ == vstd::utf8::decode_utf8(bytes@),
            None => !vstd::utf8::valid_utf8(bytes@),
        },
{
    String::from_utf8(bytes).ok()
}

/// The id, in hex, of the transaction that `raw` encodes.
pub uninterp spec fn spec_transaction_txid(raw: Seq<u8>) -> Option<Seq<char>>;

/// Decodes with `bitcoin::consensus::encode::deserialize` and prints
/// `Transaction::txid` as `Txid`'s `Display` does.
#[verifier::external_body]
pub(crate) fn transaction_txid(raw: &[u8]) -> (txid: Option<String>)
    ensures
        match txid {
            Some(t) => spec_transaction_txid(raw@) == Some(t@),
            None => spec_transaction_txid(raw@) is None,
        },
{
    let tx: bitcoin::Transaction = bitcoin::consensus::encode::deserialize(raw).ok()?;
    Some(tx.txid().to_string())
}

/// The x-only output key of the taproot output that the private key `wif`
/// spends by the key path, given the merkle root of the output's script
/// tree, if it has one; `None` where `wif` holds no key or the root is not
/// 32 bytes.
pub uninterp spec fn spec_key_spend_key(wif: Seq<char>, merkle_root: Option<Seq<u8>>) -> Option<
    Seq<u8>,
>;

/// Tweaks the key pair of the private key with `TapTweak::tap_tweak` and
/// gives the x-only public key of the result. The tweak, which that library
/// expects never to fail, is not accounted for.
#[verifier::external_body]
pub(crate) fn key_spend_key(wif: &str, merkle_root: Option<&[u8]>) -> (key: Option<Vec<u8>>)
    ensures
        key matches Some(k) ==> spec_key_spend_key(wif@, slice_view(merkle_root)) == Some(k@)
            && k@.len() == 32,
        key is None ==> spec_key_spend_key(wif@, slice_view(merkle_root)) is None,
{
    let secp = secp256k1_zkp::Secp256k1::new();
    let key = bitcoin::PrivateKey::from_wif(wif).ok()?;
    let root = match merkle_root {
        Some(m) => Some(<bitcoin::taproot::TapNodeHash as bitcoin::hashes::Hash>::from_slice(m).ok()?),
        None => None,
    };
    let keypair = secp256k1_zkp::KeyPair::from_secret_key(&secp, &key.inner);
    let tweaked = bitcoin::key::TapTweak::tap_tweak(keypair, &secp, root);
    Some(tweaked.to_inner().x_only_public_key().0.serialize().to_vec())
}

/// Signs the 32-byte `digest` for a taproot key spend: the key pair of the
/// private key is tweaked with `TapTweak::tap_tweak`, then
/// `Secp256k1::sign_schnorr` signs, drawing fresh randomness, so the
/// signature is not named. It is always made where the key, the root and
/// the digest are well formed, it has 64 bytes, and it verifies under the
/// output key. The tweak, which that library expects never to fail, is not
/// accounted for.
#[verifier::external_body]
pub(crate) fn sign_key_spend(wif: &str, merkle_root: Option<&[u8]>, digest: &[u8]) -> (signature:
    Option<Vec<u8>>)
    ensures
        match spec_key_spend_key(wif@, slice_view(merkle_root)) {
            Some(key) => if digest@.len() == 32 {
                signature matches Some(s) && s@.len() == 64 && spec_schnorr_verify(s@, digest@, key)
            } else {
                signature is None
            },
            None => signature is None,
        },
{
    let secp = secp256k1_zkp::Secp256k1::new();
    let key = bitcoin::PrivateKey::from_wif(wif).ok()?;
    let root = match merkle_root {
        Some(m) => Some(<bitcoin::taproot::TapNodeHash as bitcoin::hashes::Hash>::from_slice(m).ok()?),
        None => None,
    };
    let keypair = secp256k1_zkp::KeyPair::from_secret_key(&secp, &key.inner);
    let tweaked = bitcoin::key::TapTweak::tap_tweak(keypair, &secp, root);
    let message = secp256k1_zkp::Message::from_slice(digest).ok()?;
    Some(secp.sign_schnorr(&message, &tweaked.to_inner()).as_ref().to_vec())
}

/// The sum of a secret key and a scalar modulo the curve's group order, as
/// 32 big-endian bytes; `None` where the first is no secret key, the second
/// no scalar, or the sum is zero.
pub uninterp spec fn spec_scalar_sum(secret: Seq<u8>, tweak: Seq<u8>) -> Option<Seq<u8>>;

/// Adds with `SecretKey::add_tweak`.
#[verifier::external_body]
pub(crate) fn scalar_sum(secret: &[u8], tweak: &[u8]) -> (sum: Option<Vec<u8>>)
    ensures
        match sum {
            Some(s) => spec_scalar_sum(secret@, tweak@) == Some(s@) && s@.len() == 32,
            None => spec_scalar_sum(secret@, tweak@) is None,
        },
{
    let key = secp256k1_zkp::SecretKey::from_slice(secret).ok()?;
    let scalar = secp256k1_zkp::Scalar::from_be_bytes(tweak.try_into().ok()?).ok()?;
    Some(key.add_tweak(&scalar).ok()?.secret_bytes().to_vec())
}

} // verus!
