//! Key pairs for the root certificate and for leaf identities.

use crate::bytes::{fits_openssl, MAX_INPUT};
use crate::crypto::{
    key_algorithm, key_bits, parsed_public_key, pending_errors, pkey_algorithm, pkey_bits,
    pkey_from_rsa, pkey_public_eq, public_components_equal, public_key_algorithm,
    public_key_bits, public_key_from_pem, public_pkey_algorithm, public_pkey_bits, rsa_generate,
    rsa_public_key_to_pem,
};
use openssl::error::ErrorStack;
use openssl::pkey::{PKey, Private, Public};
use vstd::prelude::*;

verus! {

/// Modulus size, in bits, of every key the library generates.
pub const KEY_BITS: u32 = 4096;

/// OpenSSL's number for the RSA algorithm.
pub const RSA: i32 = 6;

/// The two keys are a pair as the library makes them: both are RSA keys of
/// [`KEY_BITS`] bits, and OpenSSL finds the public components of the two
/// equal.
pub open spec fn key_pair(private_key: PKey<Private>, public_key: PKey<Public>) -> bool {
    &&& key_bits(private_key) == KEY_BITS
    &&& public_key_bits(public_key) == KEY_BITS
    &&& key_algorithm(private_key) == RSA
    &&& public_key_algorithm(public_key) == RSA
    &&& public_components_equal(private_key, public_key)
}

/// What OpenSSL says of two keys when asked: the size and the algorithm of
/// each, and whether their public components are equal.
pub struct KeyReading {
    pub bits: u32,
    pub public_bits: u32,
    pub algorithm: i32,
    pub public_algorithm: i32,
    pub matches: bool,
}

impl KeyReading {
    /// The reading is what OpenSSL says of these two keys.
    pub open spec fn reads(self, private_key: PKey<Private>, public_key: PKey<Public>) -> bool {
        &&& self.bits == key_bits(private_key)
        &&& self.public_bits == public_key_bits(public_key)
        &&& self.algorithm == key_algorithm(private_key)
        &&& self.public_algorithm == public_key_algorithm(public_key)
        &&& self.matches == public_components_equal(private_key, public_key)
    }
}

/// Generates a fresh RSA key pair of [`KEY_BITS`] bits and returns its
/// private key together with the matching public key.
///
/// The public key is obtained by writing the public half out as PEM and
/// reading it back, which gives a key that holds public components only.
/// Before the pair is handed out OpenSSL is asked for the size and the
/// algorithm of both keys and to compare them, and [`key_pair_decided`]
/// refuses a pair that is not what was asked for. Every failure inside
/// OpenSSL is returned as it is.
pub fn generate_key() -> (r: Result<(PKey<Private>, PKey<Public>), ErrorStack>)
    ensures
        r matches Ok((private_key, public_key)) ==> key_pair(private_key, public_key),
{
    let key = rsa_generate(KEY_BITS)?;
    let pem = rsa_public_key_to_pem(&key)?;
    let public_key = parse_public_key(pem.as_slice())?;
    let private_key = pkey_from_rsa(key)?;
    let reading = KeyReading {
        bits: pkey_bits(&private_key),
        public_bits: public_pkey_bits(&public_key),
        algorithm: pkey_algorithm(&private_key),
        public_algorithm: public_pkey_algorithm(&public_key),
        matches: pkey_public_eq(&private_key, &public_key),
    };
    key_pair_decided(private_key, public_key, reading)
}

/// Decides on two keys by what OpenSSL says of them: they are handed out
/// exactly if they are a pair as the library makes them.
pub fn key_pair_decided(
    private_key: PKey<Private>,
    public_key: PKey<Public>,
    reading: KeyReading,
) -> (r: Result<(PKey<Private>, PKey<Public>), ErrorStack>)
    requires
        reading.reads(private_key, public_key),
    ensures
        r is Ok <==> key_pair(private_key, public_key),
        r matches Ok(pair) ==> pair == (private_key, public_key),
{
    if reading.bits == KEY_BITS && reading.public_bits == KEY_BITS && reading.algorithm == RSA
        && reading.public_algorithm == RSA && reading.matches {
        Ok((private_key, public_key))
    } else {
        Err(pending_errors())
    }
}

/// Reads a public key from its PEM-encoded SubjectPublicKeyInfo.
///
/// Input that is longer than OpenSSL takes is refused without being handed
/// to OpenSSL; whether any other input is a public key is for OpenSSL to
/// say. What is returned is what OpenSSL reads out of these very bytes.
pub fn parse_public_key(pem: &[u8]) -> (r: Result<PKey<Public>, ErrorStack>)
    ensures
        !fits_openssl(pem@.len()) ==> r is Err,
        r matches Ok(key) ==> key == parsed_public_key(pem@),
{
    if pem.len() > MAX_INPUT {
        return Err(pending_errors());
    }
    public_key_from_pem(pem)
}

} // verus!
