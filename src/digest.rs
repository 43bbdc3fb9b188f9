use vstd::prelude::*;

use crate::text::{hex_of, lemma_hex_len, to_hex};

verus! {

/// The digest algorithms an accumulator can be bound to.
#[derive(Clone, Copy, Debug, PartialEq, Eq, Structural)]
pub enum Algorithm {
    Md5,
    Sha1,
    Sha224,
    Sha256,
    Sha384,
    Sha512,
}

/// What MD5 returns for `data`.
pub uninterp spec fn md5_of(data: Seq<u8>) -> Seq<u8>;

/// What SHA-1 returns for `data`.
pub uninterp spec fn sha1_of(data: Seq<u8>) -> Seq<u8>;

/// What SHA-224 returns for `data`.
pub uninterp spec fn sha224_of(data: Seq<u8>) -> Seq<u8>;

/// What SHA-256 returns for `data`.
pub uninterp spec fn sha256_of(data: Seq<u8>) -> Seq<u8>;

/// What SHA-384 returns for `data`.
pub uninterp spec fn sha384_of(data: Seq<u8>) -> Seq<u8>;

/// What SHA-512 returns for `data`.
pub uninterp spec fn sha512_of(data: Seq<u8>) -> Seq<u8>;

/// The digest of `data` under `alg`.
pub open spec fn digest_of(alg: Algorithm, data: Seq<u8>) -> Seq<u8> {
    match alg {
        Algorithm::Md5 => md5_of(data),
        Algorithm::Sha1 => sha1_of(data),
        Algorithm::Sha224 => sha224_of(data),
        Algorithm::Sha256 => sha256_of(data),
        Algorithm::Sha384 => sha384_of(data),
        Algorithm::Sha512 => sha512_of(data),
    }
}

/// The fixed output length, in bytes, of `alg`.
pub open spec fn digest_len(alg: Algorithm) -> nat {
    match alg {
        Algorithm::Md5 => 16,
        Algorithm::Sha1 => 20,
        Algorithm::Sha224 => 28,
        Algorithm::Sha256 => 32,
        Algorithm::Sha384 => 48,
        Algorithm::Sha512 => 64,
    }
}

/// Relies on md-5's `Md5::digest`: the 16-byte MD5 digest of `data`.
#[verifier::external_body]
fn md5_digest(data: &[u8]) -> (r: Vec<u8>)
    ensures
        r@ == md5_of(data@),
        r@.len() == 16,
{
    <md5::Md5 as md5::Digest>::digest(data).to_vec()
}

/// Relies on sha1's `Sha1::digest`: the 20-byte SHA-1 digest of `data`.
#[verifier::external_body]
fn sha1_digest(data: &[u8]) -> (r: Vec<u8>)
    ensures
        r@ == sha1_of(data@),
        r@.len() == 20,
{
    <sha1::Sha1 as sha1::Digest>::digest(data).to_vec()
}

/// Relies on sha2's `Sha224::digest`: the 28-byte SHA-224 digest of `data`.
#[verifier::external_body]
fn sha224_digest(data: &[u8]) -> (r: Vec<u8>)
    ensures
        r@ == sha224_of(data@),
        r@.len() == 28,
{
    <sha2::Sha224 as sha2::Digest>::digest(data).to_vec()
}

/// Relies on sha2's `Sha256::digest`: the 32-byte SHA-256 digest of `data`.
#[verifier::external_body]
fn sha256_digest(data: &[u8]) -> (r: Vec<u8>)
    ensures
        r@ == sha256_of(data@),
        r@.len() == 32,
{
    <sha2::Sha256 as sha2::Digest>::digest(data).to_vec()
}

/// Relies on sha2's `Sha384::digest`: the 48-byte SHA-384 digest of `data`.
#[verifier::external_body]
fn sha384_digest(data: &[u8]) -> (r: Vec<u8>)
    ensures
        r@ == sha384_of(data@),
        r@.len() == 48,
{
    <sha2::Sha384 as sha2::Digest>::digest(data).to_vec()
}

/// Relies on sha2's `Sha512::digest`: the 64-byte SHA-512 digest of `data`.
#[verifier::external_body]
fn sha512_digest(data: &[u8]) -> (r: Vec<u8>)
    ensures
        r@ == sha512_of(data@),
        r@.len() == 64,
{
    <sha2::Sha512 as sha2::Digest>::digest(data).to_vec()
}

/// A digest accumulator bound to one algorithm.
///
/// It holds the bytes fed to it since it was made or last reset, and keeps
/// its buffer's capacity across resets, so that one accumulator serves a
/// whole run without a fresh allocation per member.
pub struct DigestState {
    algorithm: Algorithm,
    buffer: Vec<u8>,
}

impl DigestState {
    /// The algorithm this accumulator is bound to.
    pub closed spec fn alg(&self) -> Algorithm {
        self.algorithm
    }

    /// The bytes fed since construction or the last reset.
    pub closed spec fn fed(&self) -> Seq<u8> {
        self.buffer@
    }

    /// The hex digest that finalizing now would give.
    pub open spec fn current_hex(&self) -> Seq<char> {
        hex_of(digest_of(self.alg(), self.fed()))
    }

    /// A fresh accumulator for `algorithm`.
    pub fn new(algorithm: Algorithm) -> (r: DigestState)
        ensures
            r.alg() == algorithm,
            r.fed() == Seq::<u8>::empty(),
    {
        DigestState { algorithm, buffer: Vec::new() }
    }

    pub fn algorithm(&self) -> (r: Algorithm)
        ensures
            r == self.alg(),
    {
        self.algorithm
    }

    /// Feeds `bytes` to the accumulator.
    pub fn update(&mut self, bytes: &[u8])
        ensures
            final(self).alg() == old(self).alg(),
            final(self).fed() == old(self).fed() + bytes@,
    {
        self.buffer.extend_from_slice(bytes);
    }

    /// Returns the accumulator to the state of a fresh one of the same algorithm.
    pub fn reset(&mut self)
        ensures
            final(self).alg() == old(self).alg(),
            final(self).fed() == Seq::<u8>::empty(),
    {
        self.buffer.clear();
    }

    /// The digest of the bytes fed so far.
    pub fn finalize(&self) -> (r: Vec<u8>)
        ensures
            r@ == digest_of(self.alg(), self.fed()),
            r@.len() == digest_len(self.alg()),
    {
        let data = self.buffer.as_slice();
        match self.algorithm {
            Algorithm::Md5 => md5_digest(data),
            Algorithm::Sha1 => sha1_digest(data),
            Algorithm::Sha224 => sha224_digest(data),
            Algorithm::Sha256 => sha256_digest(data),
            Algorithm::Sha384 => sha384_digest(data),
            Algorithm::Sha512 => sha512_digest(data),
        }
    }

    /// The digest of the bytes fed so far, as lowercase hex.
    pub fn finalize_to_hex(&self) -> (r: String)
        ensures
            r@ == self.current_hex(),
            r@.len() == 2 * digest_len(self.alg()),
    {
        let d = self.finalize();
        proof {
            lemma_hex_len(d@);
        }
        to_hex(d.as_slice())
    }
}

} // verus!
