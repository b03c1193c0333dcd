//! Identities: key files, the public key of a seed, addresses as text, and
//! the first-time setup from a twelve-word phrase.

use vstd::prelude::*;
use std::str::FromStr;
use solana_sdk::signer::{SeedDerivable, Signer};
use vstd::string::StringSliceAdditionalSpecFns;
use crate::address::Address;
use crate::context::Config;
use crate::error::ClientError;

verus! {

/// The record that a key file holds.
#[derive(Clone, Debug, PartialEq, Eq)]
pub struct KeyFile {
    /// The seed, or the seed followed by the public key: 32 or 64 bytes.
    pub private_key: Vec<u8>,
    /// The public key as text.
    pub pubkey: String,
}

/// A signing identity: its seed and its public key.
#[derive(Clone, Copy, Debug, PartialEq, Eq)]
pub struct Identity {
    pub seed: [u8; 32],
    pub pubkey: Address,
}

/// The public key of the signing key that a 32-byte seed gives.
pub uninterp spec fn public_key_of(seed: Seq<u8>) -> Seq<u8>;

/// The base-58 text of an address.
pub uninterp spec fn address_text(bytes: Seq<u8>) -> Seq<char>;

/// The address that a base-58 text stands for, or `None` where it stands
/// for none.
pub uninterp spec fn decoded_address(text: Seq<char>) -> Option<Seq<u8>>;

/// The 64 bytes that the key-stretching function gives for a seed phrase
/// and a passphrase.
pub uninterp spec fn phrase_seed(phrase: Seq<char>, passphrase: Seq<char>) -> Seq<u8>;

/// Calls `solana_sdk::signature::Keypair::from_seed` and reads the public
/// key of the result. Trusted: a seed of 32 bytes always gives a key, and
/// its public key is a function of the seed alone, named `public_key_of`.
#[verifier::external_body]
fn keypair_public_key(seed: &[u8; 32]) -> (r: Option<Address>)
    ensures
        r.is_some(),
        r.unwrap()@ == public_key_of(seed@),
{
    match solana_sdk::signature::Keypair::from_seed(seed) {
        Ok(pair) => Some(Address { bytes: pair.pubkey().to_bytes() }),
        Err(_) => None,
    }
}

/// Calls `to_string` of `solana_sdk::pubkey::Pubkey`. Trusted: the text is
/// a function of the 32 bytes alone, named `address_text`.
#[verifier::external_body]
fn pubkey_string(address: &Address) -> (s: String)
    ensures
        s@ == address_text(address@),
{
    solana_sdk::pubkey::Pubkey::new_from_array(address.bytes).to_string()
}

/// Calls `from_str` of `solana_sdk::pubkey::Pubkey`. Trusted: the result is
/// a function of the text alone, named `decoded_address`; an error of the
/// call becomes `None`.
#[verifier::external_body]
fn parse_pubkey(text: &str) -> (r: Option<Address>)
    ensures
        r.is_some() == decoded_address(text@).is_some(),
        r.is_some() ==> r.unwrap()@ == decoded_address(text@).unwrap(),
{
    match solana_sdk::pubkey::Pubkey::from_str(text) {
        Ok(key) => Some(Address { bytes: key.to_bytes() }),
        Err(_) => None,
    }
}

/// Calls `solana_sdk::signature::generate_seed_from_seed_phrase_and_passphrase`.
/// Trusted: the 64 bytes returned are a function of the phrase and the
/// passphrase alone, named `phrase_seed`.
#[verifier::external_body]
fn stretch_phrase(phrase: &str, passphrase: &str) -> (v: Vec<u8>)
    ensures
        v@ == phrase_seed(phrase@, passphrase@),
        v@.len() == 64,
{
    solana_sdk::signature::generate_seed_from_seed_phrase_and_passphrase(phrase, passphrase)
}

/// Reads an address from its base-58 text.
pub fn parse_address(text: &str) -> (r: Result<Address, ClientError>)
    ensures
        match decoded_address(text@) {
            Some(bytes) => r.is_ok() && r.unwrap()@ == bytes,
            None => r == Err::<Address, ClientError>(ClientError::ConfigError),
        },
{
    match parse_pubkey(text) {
        Some(address) => Ok(address),
        None => Err(ClientError::ConfigError),
    }
}

/// Whether every one of the texts stands for an address.
pub open spec fn all_decode(texts: Seq<Seq<char>>) -> bool {
    forall|i: int| 0 <= i < texts.len() ==> (#[trigger] decoded_address(texts[i])).is_some()
}

impl Config {
    /// Reads a deployment's constants from their base-58 texts. One text
    /// that stands for no address makes the whole configuration malformed.
    pub fn from_text(
        vm_program: &str,
        timelock_program: &str,
        vm_state: &str,
        mint: &str,
        vm_authority: &str,
        lock_duration: u8,
    ) -> (r: Result<Config, ClientError>)
        ensures
            all_decode(
                seq![vm_program@, timelock_program@, vm_state@, mint@, vm_authority@],
            ) ==> {
                &&& r.is_ok()
                &&& r.unwrap().vm_program@ == decoded_address(vm_program@).unwrap()
                &&& r.unwrap().timelock_program@ == decoded_address(timelock_program@).unwrap()
                &&& r.unwrap().vm_state@ == decoded_address(vm_state@).unwrap()
                &&& r.unwrap().mint@ == decoded_address(mint@).unwrap()
                &&& r.unwrap().vm_authority@ == decoded_address(vm_authority@).unwrap()
                &&& r.unwrap().lock_duration == lock_duration
            },
            !all_decode(
                seq![vm_program@, timelock_program@, vm_state@, mint@, vm_authority@],
            ) ==> r == Err::<Config, ClientError>(ClientError::ConfigError),
    {
        let ghost texts = seq![vm_program@, timelock_program@, vm_state@, mint@, vm_authority@];
        assert(texts[0] == vm_program@ && texts[1] == timelock_program@ && texts[2] == vm_state@
            && texts[3] == mint@ && texts[4] == vm_authority@);
        let vm_program = match parse_address(vm_program) {
            Ok(a) => a,
            Err(e) => { return Err(e); },
        };
        let timelock_program = match parse_address(timelock_program) {
            Ok(a) => a,
            Err(e) => { return Err(e); },
        };
        let vm_state = match parse_address(vm_state) {
            Ok(a) => a,
            Err(e) => { return Err(e); },
        };
        let mint = match parse_address(mint) {
            Ok(a) => a,
            Err(e) => { return Err(e); },
        };
        let vm_authority = match parse_address(vm_authority) {
            Ok(a) => a,
            Err(e) => { return Err(e); },
        };
        Ok(Config { vm_program, timelock_program, vm_state, mint, vm_authority, lock_duration })
    }
}

/// Whether a key file's fields agree with the public key and the text that
/// its seed gives: the private key is the seed alone, or the seed followed
/// by that public key, and the recorded text is that key's text.
pub open spec fn file_agrees(
    private_key: Seq<u8>,
    pubkey: Seq<char>,
    public: Seq<u8>,
    text: Seq<char>,
) -> bool {
    &&& private_key.len() == 32 || (private_key.len() == 64 && private_key.subrange(32, 64)
        == public)
    &&& pubkey == text
}

/// Seed and public key that a key file stands for, or `ConfigError` where
/// the file is malformed.
pub open spec fn key_of_file(private_key: Seq<u8>, pubkey: Seq<char>) -> Result<
    (Seq<u8>, Seq<u8>),
    ClientError,
> {
    if private_key.len() < 32 {
        Err(ClientError::ConfigError)
    } else {
        let seed = private_key.subrange(0, 32);
        let public = public_key_of(seed);
        if file_agrees(private_key, pubkey, public, address_text(public)) {
            Ok((seed, public))
        } else {
            Err(ClientError::ConfigError)
        }
    }
}

/// Whether `file` is the record written for `seed`.
pub open spec fn is_key_file_of(seed: Seq<u8>, private_key: Seq<u8>, pubkey: Seq<char>) -> bool {
    &&& seed.len() == 32
    &&& private_key == seed
    &&& pubkey == address_text(public_key_of(seed))
}

/// Checks a key file against the public key and the text that were
/// computed from its seed.
pub fn check_key_file(file: &KeyFile, public: &Address, text: &String) -> (r: bool)
    ensures
        r == file_agrees(file.private_key@, file.pubkey@, public@, text@),
{
    let len: usize = file.private_key.len();
    if len != 32 && len != 64 {
        return false;
    }
    if len == 64 {
        let tail = Address::read(file.private_key.as_slice(), 32);
        if !tail.same_as(public) {
            return false;
        }
    }
    *text == file.pubkey
}

/// Loads the identity that a key file records.
pub fn load_keypair_from_file(file: &KeyFile) -> (r: Result<Identity, ClientError>)
    ensures
        match key_of_file(file.private_key@, file.pubkey@) {
            Ok(key) => r.is_ok() && r.unwrap().seed@ == key.0 && r.unwrap().pubkey@ == key.1,
            Err(e) => r == Err::<Identity, ClientError>(e),
        },
{
    if file.private_key.len() < 32 {
        return Err(ClientError::ConfigError);
    }
    let seed: [u8; 32] = Address::read(file.private_key.as_slice(), 0).bytes;
    match keypair_public_key(&seed) {
        Some(pubkey) => {
            let text = pubkey_string(&pubkey);
            if check_key_file(file, &pubkey, &text) {
                Ok(Identity { seed, pubkey })
            } else {
                Err(ClientError::ConfigError)
            }
        },
        None => Err(ClientError::ConfigError),
    }
}

/// The record to write for a new identity with this seed.
pub fn make_key_file(seed: &[u8; 32]) -> (r: Result<KeyFile, ClientError>)
    ensures
        r.is_ok(),
        is_key_file_of(seed@, r.unwrap().private_key@, r.unwrap().pubkey@),
{
    match keypair_public_key(seed) {
        Some(pubkey) => Ok(
            KeyFile { private_key: Address { bytes: *seed }.to_vec(), pubkey: pubkey_string(&pubkey) },
        ),
        None => Err(ClientError::ConfigError),
    }
}

/// A key file written for a seed loads again, to the same seed and to the
/// public key whose text the file records.
pub proof fn key_file_round_trip(seed: Seq<u8>, private_key: Seq<u8>, pubkey: Seq<char>)
    requires
        is_key_file_of(seed, private_key, pubkey),
    ensures
        key_of_file(private_key, pubkey) == Ok::<(Seq<u8>, Seq<u8>), ClientError>(
            (seed, public_key_of(seed)),
        ),
        address_text(key_of_file(private_key, pubkey).unwrap().1) == pubkey,
{
    assert(private_key.subrange(0, 32) =~= seed);
}

/// Whether a byte is a lowercase ASCII letter.
pub open spec fn is_lower(b: u8) -> bool {
    97 <= b <= 122
}

/// Whether a word starts at index `i`: a letter that no letter precedes.
pub open spec fn starts_word(text: Seq<u8>, i: int) -> bool {
    is_lower(text[i]) && (i == 0 || !is_lower(text[i - 1]))
}

/// The number of words that start before index `n`.
pub open spec fn words_before(text: Seq<u8>, n: int) -> nat
    decreases n,
{
    if n <= 0 {
        0
    } else if starts_word(text, n - 1) {
        words_before(text, n - 1) + 1
    } else {
        words_before(text, n - 1)
    }
}

/// A setup phrase is made of lowercase letters and spaces only, and has
/// exactly twelve words.
pub open spec fn is_valid_phrase(text: Seq<u8>) -> bool {
    &&& forall|i: int| 0 <= i < text.len() ==> is_lower(#[trigger] text[i]) || text[i] == 32
    &&& words_before(text, text.len() as int) == 12
}

/// Checks a setup phrase.
pub fn validate_phrase(text: &[u8]) -> (r: bool)
    ensures
        r == is_valid_phrase(text@),
{
    let len: usize = text.len();
    let mut words: usize = 0;
    let mut in_word: bool = false;
    let mut i: usize = 0;
    while i < len
        invariant
            i <= len,
            len == text@.len(),
            words == words_before(text@, i as int),
            words <= i,
            in_word == (i > 0 && is_lower(text@[i - 1])),
            forall|j: int| 0 <= j < i ==> is_lower(#[trigger] text@[j]) || text@[j] == 32,
        decreases len - i,
    {
        let b: u8 = text[i];
        let lower: bool = 97 <= b && b <= 122;
        if !lower && b != 32 {
            return false;
        }
        if lower && !in_word {
            words += 1;
        }
        in_word = lower;
        i += 1;
    }
    words == 12
}

/// The first 32 bytes of the phrase stretched with an empty passphrase:
/// the seed of the new identity.
pub open spec fn seed_of_phrase(phrase: Seq<char>) -> Seq<u8> {
    phrase_seed(phrase, Seq::empty()).subrange(0, 32)
}

/// First-time setup: the key file of the identity that a phrase gives. A
/// phrase that is not valid is refused.
pub fn key_file_from_phrase(phrase: &str) -> (r: Result<KeyFile, ClientError>)
    ensures
        is_valid_phrase(phrase.spec_bytes()) ==> r.is_ok() && is_key_file_of(
            seed_of_phrase(phrase@),
            r.unwrap().private_key@,
            r.unwrap().pubkey@,
        ),
        !is_valid_phrase(phrase.spec_bytes()) ==> r == Err::<KeyFile, ClientError>(
            ClientError::ConfigError,
        ),
{
    if !validate_phrase(phrase.as_bytes()) {
        return Err(ClientError::ConfigError);
    }
    let empty: &str = "";
    proof {
        reveal_strlit("");
        assert(empty@ =~= Seq::<char>::empty());
    }
    let stretched = stretch_phrase(phrase, empty);
    let seed: [u8; 32] = Address::read(stretched.as_slice(), 0).bytes;
    make_key_file(&seed)
}

} // verus!
