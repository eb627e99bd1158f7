//! Keys of a coin: their derivation from the wallet's seed, the addresses
//! made of them, and signatures under the authentication key.

use vstd::prelude::*;
use vstd::string::StringExecFns;
use vstd::string::StrSliceExecFns;
use crate::error::{CryptoItem, Error};
use crate::primitives::{
    derive_private_key, p2tr_address, public_key_of, schnorr_sign, sha256,
    spec_derive_private_key, spec_p2tr_address, spec_public_key_of, spec_schnorr_verify,
    spec_sha256, spec_signature_bytes, spec_x_only_public_key,
};
use crate::status::CoinStatus;
use crate::tx::Network;
use crate::wallet::{
    coin_views, spec_coins_distinct, spec_indices_below, Coin, CoinView, Wallet,
};

verus! {

/// The bit that marks a hardened derivation step.
pub const HARDENED: u32 = 0x8000_0000;

/// The purpose under which the keys of coins are derived.
pub const PURPOSE: u32 = 86;

/// The branch of the keys that share in a coin.
pub const USER_BRANCH: u32 = 0;

/// The branch of the keys that authenticate to the statechain entity.
pub const AUTH_BRANCH: u32 = 1;

/// The number of characters of a public key in hex.
pub const PUBLIC_KEY_CHARS: usize = 66;

/// The derivation path of a coin's key on `branch` at `index`.
pub open spec fn spec_key_path(branch: u32, index: u32) -> Seq<u32> {
    seq![(PURPOSE + HARDENED) as u32, HARDENED, HARDENED, branch, index]
}

fn key_path(branch: u32, index: u32) -> (path: Vec<u32>)
    ensures
        path@ == spec_key_path(branch, index),
{
    let mut path: Vec<u32> = Vec::new();
    path.push(PURPOSE + HARDENED);
    path.push(HARDENED);
    path.push(HARDENED);
    path.push(branch);
    path.push(index);
    assert(path@ =~= spec_key_path(branch, index));
    path
}

/// The address at which a coin receives a transfer: its key share followed
/// by its authentication key, both in hex.
pub open spec fn spec_transfer_address(user_pubkey: Seq<char>, auth_pubkey: Seq<char>) -> Seq<char> {
    user_pubkey + auth_pubkey
}

/// The two keys that a transfer address holds: its first and its second 66
/// characters, or `None` where it is not 132 characters long.
pub open spec fn spec_parse_transfer_address(address: Seq<char>) -> Option<(Seq<char>, Seq<char>)> {
    if address.len() == 2 * PUBLIC_KEY_CHARS {
        Some(
            (
                address.subrange(0, PUBLIC_KEY_CHARS as int),
                address.subrange(PUBLIC_KEY_CHARS as int, 2 * PUBLIC_KEY_CHARS),
            ),
        )
    } else {
        None
    }
}

/// The transfer address made of a key share and an authentication key.
pub fn transfer_address(user_pubkey: &String, auth_pubkey: &String) -> (address: String)
    ensures
        address@ == spec_transfer_address(user_pubkey@, auth_pubkey@),
{
    user_pubkey.clone().concat(auth_pubkey.as_str())
}

/// The receiver's key share and authentication key that a transfer address
/// holds.
pub fn parse_transfer_address(address: &String) -> (keys: Option<(String, String)>)
    ensures
        match keys {
            Some((user, auth)) => spec_parse_transfer_address(address@) == Some((user@, auth@)),
            None => spec_parse_transfer_address(address@) is None,
        },
{
    let text = address.as_str();
    if text.unicode_len() != 2 * PUBLIC_KEY_CHARS {
        return None;
    }
    let user = text.substring_char(0, PUBLIC_KEY_CHARS).to_owned();
    let auth = text.substring_char(PUBLIC_KEY_CHARS, 2 * PUBLIC_KEY_CHARS).to_owned();
    Some((user, auth))
}

/// A transfer address made of two keys of 66 characters gives both back.
pub proof fn lemma_transfer_address_round_trip(user_pubkey: Seq<char>, auth_pubkey: Seq<char>)
    requires
        user_pubkey.len() == PUBLIC_KEY_CHARS,
        auth_pubkey.len() == PUBLIC_KEY_CHARS,
    ensures
        spec_parse_transfer_address(spec_transfer_address(user_pubkey, auth_pubkey)) == Some(
            (user_pubkey, auth_pubkey),
        ),
{
    let address = spec_transfer_address(user_pubkey, auth_pubkey);
    assert(address.subrange(0, PUBLIC_KEY_CHARS as int) =~= user_pubkey);
    assert(address.subrange(PUBLIC_KEY_CHARS as int, 2 * PUBLIC_KEY_CHARS) =~= auth_pubkey);
}

/// The coin that a wallet with `seed` on `network` derives at `index`: its
/// key share from the user branch, its authentication key from the other,
/// its backup address from the key share, and nothing else set. `None`
/// where the index is a hardened one or a derivation fails.
pub open spec fn spec_new_coin(seed: Seq<u8>, network: Network, index: u32) -> Option<CoinView> {
    if index >= HARDENED {
        None
    } else {
        match (
            spec_derive_private_key(seed, network, spec_key_path(USER_BRANCH, index)),
            spec_derive_private_key(seed, network, spec_key_path(AUTH_BRANCH, index)),
        ) {
            (Some(user_privkey), Some(auth_privkey)) => match (
                spec_public_key_of(user_privkey),
                spec_public_key_of(auth_privkey),
            ) {
                (Some(user_pubkey), Some(auth_pubkey)) => match spec_p2tr_address(
                    user_pubkey,
                    network,
                ) {
                    Some(backup_address) => Some(
                        CoinView {
                            index,
                            user_privkey,
                            user_pubkey,
                            auth_privkey,
                            auth_pubkey,
                            address: spec_transfer_address(user_pubkey, auth_pubkey),
                            backup_address,
                            server_pubkey: None,
                            aggregated_pubkey: None,
                            aggregated_address: None,
                            utxo_txid: None,
                            utxo_vout: None,
                            amount: None,
                            statechain_id: None,
                            signed_statechain_id: None,
                            locktime: None,
                            tx_cpfp: None,
                            status: CoinStatus::Initialised,
                        },
                    ),
                    None => None,
                },
                _ => None,
            },
            _ => None,
        }
    }
}

/// The view of an optional coin.
pub open spec fn opt_coin(coin: Option<Coin>) -> Option<CoinView> {
    match coin {
        Some(c) => Some(c@),
        None => None,
    }
}

/// Derives the coin of derivation index `index` from `seed`.
pub fn derive_coin(seed: &Vec<u8>, network: Network, index: u32) -> (coin: Option<Coin>)
    ensures
        opt_coin(coin) == spec_new_coin(seed@, network, index),
{
    if index >= HARDENED {
        return None;
    }
    let user_path = key_path(USER_BRANCH, index);
    let auth_path = key_path(AUTH_BRANCH, index);
    let user_privkey = match derive_private_key(seed.as_slice(), network, user_path.as_slice()) {
        Some(key) => key,
        None => { return None; },
    };
    let auth_privkey = match derive_private_key(seed.as_slice(), network, auth_path.as_slice()) {
        Some(key) => key,
        None => { return None; },
    };
    let user_pubkey = match public_key_of(user_privkey.as_str()) {
        Some(key) => key,
        None => { return None; },
    };
    let auth_pubkey = match public_key_of(auth_privkey.as_str()) {
        Some(key) => key,
        None => { return None; },
    };
    let backup_address = match p2tr_address(user_pubkey.as_str(), network) {
        Some(address) => address,
        None => { return None; },
    };
    let address = transfer_address(&user_pubkey, &auth_pubkey);
    Some(
        Coin {
            index,
            user_privkey,
            user_pubkey,
            auth_privkey,
            auth_pubkey,
            address,
            backup_address,
            server_pubkey: None,
            aggregated_pubkey: None,
            aggregated_address: None,
            utxo_txid: None,
            utxo_vout: None,
            amount: None,
            statechain_id: None,
            signed_statechain_id: None,
            locktime: None,
            tx_cpfp: None,
            status: CoinStatus::Initialised,
        },
    )
}

impl Wallet {
    /// Derives the wallet's next coin, at the derivation index that the
    /// wallet's counter holds. The wallet itself is not changed.
    ///
    /// Fails with `CryptoInvalid` for the private key where the counter has
    /// run out or a derivation fails.
    pub fn get_new_coin(&self) -> (coin: Result<Coin, Error>)
        ensures
            match coin {
                Ok(c) => spec_new_coin(self.seed@, self.network, self.next_index) == Some(c@),
                Err(e) => spec_new_coin(self.seed@, self.network, self.next_index) is None && e
                    == (Error::CryptoInvalid { which: CryptoItem::PrivateKey }),
            },
    {
        match derive_coin(&self.seed, self.network, self.next_index) {
            Some(coin) => Ok(coin),
            None => Err(Error::CryptoInvalid { which: CryptoItem::PrivateKey }),
        }
    }
}

/// Adds a fresh coin to the wallet and gives the address at which it
/// receives a transfer. The coin takes the wallet's next derivation index
/// and the counter advances with it; on failure the wallet is unchanged.
pub fn new_transfer_address(wallet: &mut Wallet) -> (address: Result<String, Error>)
    ensures
        match address {
            Ok(a) => {
                &&& spec_new_coin(old(wallet).seed@, old(wallet).network, old(wallet).next_index)
                    matches Some(coin)
                &&& a@ == coin.address
                &&& coin_views(final(wallet).coins@) == coin_views(old(wallet).coins@).push(coin)
                &&& final(wallet).next_index == old(wallet).next_index + 1
                &&& final(wallet).seed == old(wallet).seed
                &&& final(wallet).network == old(wallet).network
                &&& final(wallet).name == old(wallet).name
                &&& final(wallet).activities == old(wallet).activities
                &&& final(wallet).tokens == old(wallet).tokens
            },
            Err(e) => *final(wallet) == *old(wallet) && e == (Error::CryptoInvalid {
                which: CryptoItem::PrivateKey,
            }) && spec_new_coin(old(wallet).seed@, old(wallet).network, old(wallet).next_index)
                is None,
        },
{
    let coin = match wallet.get_new_coin() {
        Ok(coin) => coin,
        Err(error) => { return Err(error); },
    };
    let address = coin.address.clone();
    let ghost before = coin_views(wallet.coins@);
    let ghost added = coin@;
    wallet.coins.push(coin);
    wallet.next_index = wallet.next_index + 1;
    assert(coin_views(wallet.coins@) =~= before.push(added));
    Ok(address)
}

/// Adding a freshly derived coin keeps a wallet's coins distinct and their
/// derivation indices below the counter, and the new coin shares its index
/// with none of the others.
pub proof fn lemma_new_coin_keeps_wallet_valid(coins: Seq<CoinView>, next_index: u32, coin: CoinView)
    requires
        spec_coins_distinct(coins),
        spec_indices_below(coins, next_index),
        coin.index == next_index,
        coin.statechain_id is None,
        next_index < u32::MAX,
    ensures
        spec_coins_distinct(coins.push(coin)),
        spec_indices_below(coins.push(coin), (next_index + 1) as u32),
        forall|i: int| 0 <= i < coins.len() ==> (#[trigger] coins[i]).index != coin.index,
{
    let after = coins.push(coin);
    assert forall|i: int, j: int|
        0 <= i < j < after.len() && (#[trigger] after[i]).statechain_id is Some
            && after[i].statechain_id == (#[trigger] after[j]).statechain_id implies after[i].user_pubkey
        != after[j].user_pubkey by {
        if j < coins.len() {
            assert(after[i] == coins[i] && after[j] == coins[j]);
        }
    }
    assert forall|i: int| 0 <= i < after.len() implies (#[trigger] after[i]).index < next_index
        + 1 by {
        if i < coins.len() {
            assert(after[i] == coins[i]);
        }
    }
}

/// Whether `signature` is, in hex, a Schnorr signature of the 32-byte
/// `digest` that verifies under the public key of the private key
/// `privkey`, taken in its x-only form.
pub open spec fn spec_digest_signed_by(privkey: Seq<char>, digest: Seq<u8>, signature: Seq<char>) -> bool {
    &&& spec_public_key_of(privkey) matches Some(public)
    &&& spec_x_only_public_key(public) matches Some(key)
    &&& spec_signature_bytes(signature) matches Some(bytes)
    &&& spec_schnorr_verify(bytes, digest, key)
}

/// Whether `signature` is, in hex, a Schnorr signature of the SHA-256
/// digest of the bytes of `message` that verifies under the public key of
/// the private key `privkey`.
pub open spec fn spec_signed_by(privkey: Seq<char>, message: Seq<char>, signature: Seq<char>) -> bool {
    spec_digest_signed_by(privkey, spec_sha256(vstd::utf8::encode_utf8(message)), signature)
}

/// Signs the 32-byte digest `digest` under the private key `privkey`.
///
/// Fails with `CryptoInvalid` for the private key exactly where the key is
/// not in wallet import format; else the signature is made and verifies.
pub fn sign_digest(privkey: &String, digest: &[u8]) -> (signature: Result<String, Error>)
    requires
        digest@.len() == 32,
    ensures
        match signature {
            Ok(s) => spec_digest_signed_by(privkey@, digest@, s@),
            Err(e) => spec_public_key_of(privkey@) is None && e == (Error::CryptoInvalid {
                which: CryptoItem::PrivateKey,
            }),
        },
{
    match schnorr_sign(privkey.as_str(), digest) {
        Some(signature) => Ok(signature),
        None => Err(Error::CryptoInvalid { which: CryptoItem::PrivateKey }),
    }
}

/// Signs `message` under the authentication key of `coin`: a Schnorr
/// signature, in hex, of the SHA-256 digest of the message's bytes.
///
/// Fails with `CryptoInvalid` for the private key exactly where the coin's
/// authentication key is not in wallet import format; else the signature is
/// made, and it verifies under the authentication key.
pub fn sign_message(message: &String, coin: &Coin) -> (signature: Result<String, Error>)
    ensures
        match signature {
            Ok(s) => spec_signed_by(coin.auth_privkey@, message@, s@),
            Err(e) => spec_public_key_of(coin.auth_privkey@) is None && e == (
            Error::CryptoInvalid { which: CryptoItem::PrivateKey }),
        },
{
    let digest = sha256(message.as_str().as_bytes());
    sign_digest(&coin.auth_privkey, digest.as_slice())
}

} // verus!
