//! Finite-field Diffie-Hellman key exchange over big-endian byte strings.
//!
//! The TLS profiles that offer FFDHE groups need a key-exchange primitive
//! that default crypto providers omit.  This module does the number theory
//! on plain byte strings: an ephemeral scalar `x` gives the public value
//! `g^x mod p`, and a peer's public value `y` gives the shared secret
//! `y^x mod p`; every value is serialized big-endian, left-padded with zero
//! bytes to the exact byte length of the group prime `p`.  The modular
//! exponentiation itself is done by an arbitrary-precision integer library
//! behind one trusted wrapper.

use vstd::prelude::*;

verus! {

/// The natural number a big-endian byte string denotes.
pub open spec fn be_nat(s: Seq<u8>) -> nat
    decreases s.len(),
{
    if s.len() == 0 {
        0
    } else {
        (be_nat(s.drop_last()) * 256 + s.last()) as nat
    }
}

/// `b` raised to the power `e`.
pub open spec fn pow_nat(b: nat, e: nat) -> nat
    decreases e,
{
    if e == 0 {
        1
    } else {
        b * pow_nat(b, (e - 1) as nat)
    }
}

/// A power of 256 is positive.
pub proof fn lemma_pow256_pos(e: nat)
    ensures
        pow_nat(256, e) >= 1,
    decreases e,
{
    if e > 0 {
        lemma_pow256_pos((e - 1) as nat);
    }
}

/// Powers of 256 grow with the exponent.
pub proof fn lemma_pow256_mono(a: nat, b: nat)
    requires
        a <= b,
    ensures
        pow_nat(256, a) <= pow_nat(256, b),
    decreases b,
{
    if a < b {
        lemma_pow256_mono(a, (b - 1) as nat);
        lemma_pow256_pos((b - 1) as nat);
    }
}

/// A byte string of length `l` denotes a value below `256^l`.
pub proof fn lemma_be_nat_bound(s: Seq<u8>)
    ensures
        be_nat(s) < pow_nat(256, s.len()),
    decreases s.len(),
{
    if s.len() > 0 {
        lemma_be_nat_bound(s.drop_last());
    }
}

/// A byte string with a nonzero leading byte denotes at least
/// `256^(length - 1)`.
pub proof fn lemma_be_nat_lower(s: Seq<u8>)
    requires
        s.len() > 0,
        s[0] != 0,
    ensures
        be_nat(s) >= pow_nat(256, (s.len() - 1) as nat),
    decreases s.len(),
{
    if s.len() > 1 {
        assert(s.drop_last()[0] == s[0]);
        lemma_be_nat_lower(s.drop_last());
    }
}

/// Leading zero bytes do not change the denoted value.
pub proof fn lemma_be_nat_leading_zeros(z: Seq<u8>, s: Seq<u8>)
    requires
        forall|i: int| 0 <= i < z.len() ==> z[i] == 0,
    ensures
        be_nat(z + s) == be_nat(s),
    decreases s.len(),
{
    if s.len() == 0 {
        assert(z + s =~= z);
        lemma_be_nat_all_zeros(z);
    } else {
        assert((z + s).drop_last() =~= z + s.drop_last());
        assert((z + s).last() == s.last());
        lemma_be_nat_leading_zeros(z, s.drop_last());
    }
}

/// A byte string of zero bytes denotes zero.
pub proof fn lemma_be_nat_all_zeros(z: Seq<u8>)
    requires
        forall|i: int| 0 <= i < z.len() ==> z[i] == 0,
    ensures
        be_nat(z) == 0,
    decreases z.len(),
{
    if z.len() > 0 {
        lemma_be_nat_all_zeros(z.drop_last());
    }
}

/// A minimally encoded value below the modulus fits in the modulus's byte
/// length.
pub proof fn lemma_minimal_fits(r: Seq<u8>, m: Seq<u8>)
    requires
        r.len() >= 1,
        r.len() > 1 ==> r[0] != 0,
        be_nat(r) < be_nat(m),
    ensures
        r.len() <= m.len(),
{
    if r.len() > m.len() {
        if r.len() == 1 {
            assert(m.len() == 0);
            assert(be_nat(m) == 0);
        } else {
            lemma_be_nat_lower(r);
            lemma_be_nat_bound(m);
            lemma_pow256_mono(m.len(), (r.len() - 1) as nat);
        }
    }
}

/// Computes `base ^ exp mod modulus` over big-endian byte strings, with
/// the result in its minimal big-endian encoding.
///
/// Relies on `num_bigint::BigUint`: `from_bytes_be` reads big-endian
/// bytes, `modpow` returns `self ^ exponent % modulus` (and panics only on
/// a zero modulus, which the precondition rules out), and `to_bytes_be`
/// writes the minimal big-endian encoding, a single zero byte for zero.
#[verifier::external_body]
fn modpow_be(base: &Vec<u8>, exp: &Vec<u8>, modulus: &Vec<u8>) -> (r: Vec<u8>)
    requires
        be_nat(modulus@) > 0,
    ensures
        be_nat(r@) == pow_nat(be_nat(base@), be_nat(exp@)) % be_nat(modulus@),
        r@.len() >= 1,
        r@.len() > 1 ==> r@[0] != 0,
{
    let b = num_bigint::BigUint::from_bytes_be(base);
    let e = num_bigint::BigUint::from_bytes_be(exp);
    let m = num_bigint::BigUint::from_bytes_be(modulus);
    b.modpow(&e, &m).to_bytes_be()
}

/// Reencodes a big-endian value to exactly `len_bytes` bytes: left-padded
/// with zero bytes when it is shorter, keeping only the low bytes when it
/// is longer.
pub fn to_bytes_be_with_len(n: &Vec<u8>, len_bytes: usize) -> (r: Vec<u8>)
    ensures
        r@.len() == len_bytes,
        n@.len() <= len_bytes ==> r@ == Seq::new((len_bytes - n@.len()) as nat, |i: int| 0u8)
            + n@,
        n@.len() > len_bytes ==> r@ == n@.subrange(
            n@.len() - len_bytes,
            n@.len() as int,
        ),
{
    let mut r: Vec<u8> = Vec::new();
    if n.len() <= len_bytes {
        let pad = len_bytes - n.len();
        let mut i: usize = 0;
        while i < pad
            invariant
                i <= pad,
                r@.len() == i,
                forall|j: int| 0 <= j < i ==> r@[j] == 0u8,
            decreases pad - i,
        {
            r.push(0u8);
            i = i + 1;
        }
        let mut k: usize = 0;
        while k < n.len()
            invariant
                k <= n@.len(),
                pad == len_bytes - n@.len(),
                r@.len() == pad + k,
                forall|j: int| 0 <= j < pad ==> r@[j] == 0u8,
                forall|j: int| 0 <= j < k ==> r@[pad + j] == n@[j],
            decreases n@.len() - k,
        {
            r.push(n[k]);
            k = k + 1;
        }
        proof {
            assert(r@ =~= Seq::new((len_bytes - n@.len()) as nat, |i: int| 0u8) + n@);
        }
    } else {
        let start = n.len() - len_bytes;
        let mut k: usize = 0;
        while k < len_bytes
            invariant
                k <= len_bytes,
                len_bytes < n@.len(),
                n@.len() <= usize::MAX,
                start == n@.len() - len_bytes,
                r@.len() == k,
                forall|j: int| 0 <= j < k ==> r@[j] == n@[start + j],
            decreases len_bytes - k,
        {
            r.push(n[start + k]);
            k = k + 1;
        }
        proof {
            assert(r@ =~= n@.subrange(n@.len() - len_bytes, n@.len() as int));
        }
    }
    r
}

/// An FFDHE key exchange in flight: the secret scalar, the group prime and
/// the fixed-width public value derived from them.
pub struct ActiveFfdheKx {
    x_pub: Vec<u8>,
    x: Vec<u8>,
    p: Vec<u8>,
}

impl ActiveFfdheKx {
    /// The group prime, as big-endian bytes.
    pub closed spec fn spec_p(&self) -> Seq<u8> {
        self.p@
    }

    /// The secret scalar, as big-endian bytes.
    pub closed spec fn spec_x(&self) -> Seq<u8> {
        self.x@
    }

    /// The public value, as fixed-width big-endian bytes.
    pub closed spec fn spec_pub_key(&self) -> Seq<u8> {
        self.x_pub@
    }

    /// The group prime is a positive number.
    pub closed spec fn wf(&self) -> bool {
        be_nat(self.p@) > 0
    }

    /// The public value `g^x mod p`, exactly as many bytes as the prime.
    pub fn pub_key(&self) -> (r: &Vec<u8>)
        ensures
            r@ == self.spec_pub_key(),
    {
        &self.x_pub
    }

    /// Finishes the exchange with the peer's public value: the shared
    /// secret `y^x mod p`, left-padded to exactly the prime's byte length.
    pub fn complete(&self, peer_pub_key: &Vec<u8>) -> (r: Vec<u8>)
        requires
            self.wf(),
        ensures
            r@.len() == self.spec_p().len(),
            be_nat(r@) == pow_nat(be_nat(peer_pub_key@), be_nat(self.spec_x())) % be_nat(
                self.spec_p(),
            ),
    {
        let secret = modpow_be(peer_pub_key, &self.x, &self.p);
        proof {
            lemma_minimal_fits(secret@, self.p@);
        }
        let r = to_bytes_be_with_len(&secret, self.p.len());
        proof {
            lemma_be_nat_leading_zeros(
                Seq::new((self.p@.len() - secret@.len()) as nat, |i: int| 0u8),
                secret@,
            );
        }
        r
    }
}

/// Starts an FFDHE key exchange: from the group parameters `p` and `g` and
/// an ephemeral scalar `x`, computes the public value `g^x mod p`,
/// left-padded to exactly the prime's byte length.
pub fn ffdhe_start(p: &Vec<u8>, g: &Vec<u8>, x: Vec<u8>) -> (r: ActiveFfdheKx)
    requires
        be_nat(p@) > 0,
    ensures
        r.wf(),
        r.spec_p() == p@,
        r.spec_x() == x@,
        r.spec_pub_key().len() == p@.len(),
        be_nat(r.spec_pub_key()) == pow_nat(be_nat(g@), be_nat(x@)) % be_nat(p@),
{
    let raw = modpow_be(g, &x, p);
    proof {
        lemma_minimal_fits(raw@, p@);
    }
    let x_pub = to_bytes_be_with_len(&raw, p.len());
    proof {
        lemma_be_nat_leading_zeros(Seq::new((p@.len() - raw@.len()) as nat, |i: int| 0u8), raw@);
    }
    let mut p_copy: Vec<u8> = Vec::new();
    let mut i: usize = 0;
    while i < p.len()
        invariant
            i <= p@.len(),
            p_copy@ =~= p@.subrange(0, i as int),
        decreases p@.len() - i,
    {
        p_copy.push(p[i]);
        i = i + 1;
    }
    proof {
        assert(p_copy@ =~= p@);
    }
    ActiveFfdheKx { x_pub, x, p: p_copy }
}

} // verus!
