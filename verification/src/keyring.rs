//! The key ring: the immutable mapping from key identifier to RSA
//! verification key, built once at startup from the fetched key set and read
//! concurrently thereafter.
//!
//! A key is held as its two base64url components, modulus and exponent, as
//! the key-discovery document delivers them; both are checked once at build
//! time, so that every key the ring serves is well-formed.

use vstd::prelude::*;
use crate::errors::AuthError;

verus! {

/// A public verification key: a key identifier and the RSA components.
#[derive(Debug, Clone)]
pub struct VerificationKey {
    /// Key identifier, as carried in token headers.
    pub kid: String,
    /// RSA modulus, base64url.
    pub modulus: String,
    /// RSA exponent, base64url.
    pub exponent: String,
}

/// Whether jsonwebtoken accepts `modulus` and `exponent` as RSA key
/// components; a function of the two strings alone.
pub uninterp spec fn rsa_components_valid(modulus: Seq<char>, exponent: Seq<char>) -> bool;

/// Relies on jsonwebtoken's `DecodingKey::from_rsa_components`: whether it
/// accepts the components depends on the two strings alone.
#[verifier::external_body]
fn rsa_components_ok(modulus: &str, exponent: &str) -> (r: bool)
    ensures
        r == rsa_components_valid(modulus@, exponent@),
{
    jsonwebtoken::DecodingKey::from_rsa_components(modulus, exponent).is_ok()
}

/// The first key in `keys` whose identifier is `kid`, if any.
pub open spec fn ring_lookup(keys: Seq<VerificationKey>, kid: Seq<char>) -> Option<VerificationKey>
    decreases keys.len(),
{
    if keys.len() == 0 {
        None
    } else if keys[0].kid@ == kid {
        Some(keys[0])
    } else {
        ring_lookup(keys.drop_first(), kid)
    }
}

/// `keys` with `k` inserted: the first key with the same identifier is
/// replaced, or `k` is appended where none exists.
pub open spec fn ring_insert(keys: Seq<VerificationKey>, k: VerificationKey) -> Seq<
    VerificationKey,
>
    decreases keys.len(),
{
    if keys.len() == 0 {
        seq![k]
    } else if keys[0].kid@ == k.kid@ {
        seq![k] + keys.drop_first()
    } else {
        seq![keys[0]] + ring_insert(keys.drop_first(), k)
    }
}

/// The ring built by inserting each fetched entry in order; a later entry
/// with a repeated identifier replaces the earlier one.
pub open spec fn ring_of(entries: Seq<VerificationKey>) -> Seq<VerificationKey>
    decreases entries.len(),
{
    if entries.len() == 0 {
        Seq::empty()
    } else {
        ring_insert(ring_of(entries.drop_last()), entries.last())
    }
}

/// No two keys share an identifier.
pub open spec fn kids_unique(keys: Seq<VerificationKey>) -> bool {
    forall|i: int, j: int| 0 <= i < j < keys.len() ==> keys[i].kid@ != keys[j].kid@
}

/// Every key has components jsonwebtoken accepts.
pub open spec fn keys_valid(keys: Seq<VerificationKey>) -> bool {
    forall|i: int|
        0 <= i < keys.len() ==> rsa_components_valid(keys[i].modulus@, keys[i].exponent@)
}

proof fn lemma_ring_insert_unique(keys: Seq<VerificationKey>, k: VerificationKey)
    requires
        kids_unique(keys),
    ensures
        kids_unique(ring_insert(keys, k)),
        forall|i: int|
            0 <= i < ring_insert(keys, k).len() ==> ring_insert(keys, k)[i].kid@ == k.kid@
                || (exists|j: int| 0 <= j < keys.len() && ring_insert(keys, k)[i] == keys[j]),
    decreases keys.len(),
{
    if keys.len() == 0 {
    } else if keys[0].kid@ == k.kid@ {
        assert(forall|i: int|
            1 <= i < ring_insert(keys, k).len() ==> ring_insert(keys, k)[i] == keys[i]);
    } else {
        lemma_ring_insert_unique(keys.drop_first(), k);
        let r = ring_insert(keys, k);
        let rr = ring_insert(keys.drop_first(), k);
        assert(forall|i: int| 1 <= i < r.len() ==> r[i] == rr[i - 1]);
        assert forall|i: int, j: int| 0 <= i < j < r.len() implies r[i].kid@ != r[j].kid@ by {
            if i == 0 {
                if rr[j - 1].kid@ == k.kid@ {
                } else {
                    let w = choose|w: int|
                        0 <= w < keys.drop_first().len() && rr[j - 1] == keys.drop_first()[w];
                    assert(keys[0].kid@ != keys[w + 1].kid@);
                }
            }
        }
    }
}

proof fn lemma_ring_insert_valid(keys: Seq<VerificationKey>, k: VerificationKey)
    requires
        keys_valid(keys),
        rsa_components_valid(k.modulus@, k.exponent@),
    ensures
        keys_valid(ring_insert(keys, k)),
    decreases keys.len(),
{
    if keys.len() == 0 {
    } else if keys[0].kid@ == k.kid@ {
        assert(forall|i: int|
            1 <= i < ring_insert(keys, k).len() ==> ring_insert(keys, k)[i] == keys[i]);
    } else {
        lemma_ring_insert_valid(keys.drop_first(), k);
        assert(forall|i: int|
            1 <= i < ring_insert(keys, k).len() ==> ring_insert(keys, k)[i] == ring_insert(
                keys.drop_first(),
                k,
            )[i - 1]);
    }
}

proof fn lemma_ring_insert_skip(keys: Seq<VerificationKey>, k: VerificationKey, j: int)
    requires
        0 <= j <= keys.len(),
        forall|t: int| 0 <= t < j ==> keys[t].kid@ != k.kid@,
    ensures
        ring_insert(keys, k) == keys.take(j) + ring_insert(keys.skip(j), k),
    decreases j,
{
    if j == 0 {
        assert(keys.skip(0) =~= keys);
        assert(keys.take(0) + ring_insert(keys, k) =~= ring_insert(keys, k));
    } else {
        lemma_ring_insert_skip(keys.drop_first(), k, j - 1);
        assert(keys.drop_first().take(j - 1) =~= keys.take(j).drop_first());
        assert(keys.drop_first().skip(j - 1) =~= keys.skip(j));
        assert(seq![keys[0]] + (keys.drop_first().take(j - 1) + ring_insert(
            keys.drop_first().skip(j - 1),
            k,
        )) =~= keys.take(j) + ring_insert(keys.skip(j), k));
    }
}

proof fn lemma_ring_lookup_skip(keys: Seq<VerificationKey>, kid: Seq<char>, j: int)
    requires
        0 <= j <= keys.len(),
        forall|t: int| 0 <= t < j ==> keys[t].kid@ != kid,
    ensures
        ring_lookup(keys, kid) == ring_lookup(keys.skip(j), kid),
    decreases j,
{
    if j == 0 {
        assert(keys.skip(0) =~= keys);
    } else {
        lemma_ring_lookup_skip(keys.drop_first(), kid, j - 1);
        assert(keys.drop_first().skip(j - 1) =~= keys.skip(j));
    }
}

/// Insert `k` into the vector as `ring_insert` describes.
fn ring_insert_exec(keys: &mut Vec<VerificationKey>, k: VerificationKey)
    ensures
        final(keys)@ == ring_insert(old(keys)@, k),
{
    let n = keys.len();
    let mut j: usize = 0;
    while j < n
        invariant
            j <= n,
            n == keys@.len(),
            keys@ == old(keys)@,
            forall|t: int| 0 <= t < j ==> keys@[t].kid@ != k.kid@,
        decreases n - j,
    {
        if keys[j].kid == k.kid {
            proof {
                lemma_ring_insert_skip(keys@, k, j as int);
                assert(keys@.skip(j as int)[0] == keys@[j as int]);
                assert(keys@.skip(j as int).drop_first() =~= keys@.skip(j + 1));
                assert(keys@.take(j as int) + (seq![k] + keys@.skip(j + 1)) =~= keys@.update(
                    j as int,
                    k,
                ));
            }
            keys.set(j, k);
            return ;
        }
        j = j + 1;
    }
    proof {
        lemma_ring_insert_skip(keys@, k, n as int);
        assert(keys@.skip(n as int) =~= Seq::<VerificationKey>::empty());
        assert(keys@.take(n as int) + seq![k] =~= keys@.push(k));
    }
    keys.push(k);
}

/// The in-memory set of verification keys, indexed by key identifier,
/// together with the publishable identifier the process was configured
/// with.  Built once before traffic is served; read-only thereafter.
pub struct ClerkJwks {
    keys: Vec<VerificationKey>,
    publishable_key: String,
}

impl ClerkJwks {
    /// The keys the ring holds.
    pub closed spec fn ring(self) -> Seq<VerificationKey> {
        self.keys@
    }

    /// The publishable identifier the ring was configured with.
    pub closed spec fn spec_publishable_key(self) -> Seq<char> {
        self.publishable_key@
    }

    /// Well-formedness: identifiers are unique and every key was accepted.
    pub closed spec fn wf(self) -> bool {
        kids_unique(self.keys@) && keys_valid(self.keys@)
    }

    /// Build the ring from the fetched key entries.  Fails with
    /// `KeyParseError` exactly where some entry's components are rejected;
    /// otherwise the ring holds each entry, a later duplicate identifier
    /// replacing an earlier one.
    pub fn new(publishable_key: String, entries: Vec<VerificationKey>) -> (r: Result<
        Self,
        AuthError,
    >)
        ensures
            r is Ok <==> keys_valid(entries@),
            r is Ok ==> r->Ok_0.wf() && r->Ok_0.ring() == ring_of(entries@)
                && r->Ok_0.spec_publishable_key() == publishable_key@,
            r is Err ==> r->Err_0 == AuthError::KeyParseError,
    {
        let mut keys: Vec<VerificationKey> = Vec::new();
        let n = entries.len();
        let mut i: usize = 0;
        while i < n
            invariant
                i <= n,
                n == entries@.len(),
                keys@ == ring_of(entries@.take(i as int)),
                kids_unique(keys@),
                keys_valid(keys@),
                forall|t: int|
                    0 <= t < i ==> rsa_components_valid(
                        entries@[t].modulus@,
                        entries@[t].exponent@,
                    ),
            decreases n - i,
        {
            let entry = VerificationKey {
                kid: entries[i].kid.clone(),
                modulus: entries[i].modulus.clone(),
                exponent: entries[i].exponent.clone(),
            };
            proof {
                assert(entry == entries@[i as int]);
            }
            if !rsa_components_ok(entry.modulus.as_str(), entry.exponent.as_str()) {
                return Err(AuthError::KeyParseError);
            }
            proof {
                lemma_ring_insert_unique(keys@, entry);
                lemma_ring_insert_valid(keys@, entry);
                assert(entries@.take(i + 1).drop_last() =~= entries@.take(i as int));
                assert(entries@.take(i + 1).last() == entries@[i as int]);
            }
            ring_insert_exec(&mut keys, entry);
            i = i + 1;
        }
        proof {
            assert(entries@.take(n as int) =~= entries@);
        }
        Ok(Self { keys, publishable_key })
    }

    /// The key the ring holds for `kid`, or nothing.
    pub fn lookup(&self, kid: &String) -> (r: Option<&VerificationKey>)
        ensures
            match r {
                Some(k) => ring_lookup(self.ring(), kid@) == Some(*k),
                None => ring_lookup(self.ring(), kid@) is None,
            },
    {
        let n = self.keys.len();
        let mut j: usize = 0;
        while j < n
            invariant
                j <= n,
                n == self.keys@.len(),
                forall|t: int| 0 <= t < j ==> self.keys@[t].kid@ != kid@,
            decreases n - j,
        {
            if self.keys[j].kid == *kid {
                proof {
                    lemma_ring_lookup_skip(self.keys@, kid@, j as int);
                    assert(self.keys@.skip(j as int)[0] == self.keys@[j as int]);
                }
                return Some(&self.keys[j]);
            }
            j = j + 1;
        }
        proof {
            lemma_ring_lookup_skip(self.keys@, kid@, n as int);
            assert(self.keys@.skip(n as int) =~= Seq::<VerificationKey>::empty());
        }
        None
    }

    /// The publishable identifier the ring was configured with.
    pub fn publishable_key(&self) -> (r: &String)
        ensures
            r@ == self.spec_publishable_key(),
    {
        &self.publishable_key
    }

    /// How many keys the ring holds.
    pub fn key_count(&self) -> (r: usize)
        ensures
            r == self.ring().len(),
    {
        self.keys.len()
    }
}

} // verus!
