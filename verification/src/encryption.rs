//! The framing of encrypted entries. The cipher itself runs outside: this
//! module says what it is asked to seal and to open, derives the key that an
//! entry is stored under from the sealed form of its plain key, and lays out
//! and takes apart the stored envelope, `ciphertext || tag || nonce`.

use crate::bytes::{append_bytes, copy_bytes, copy_range};
use crate::store::Store;
use sha2::{Digest, Sha512_256};
use vstd::prelude::*;

verus! {

/// Size in bytes of the key that the cipher takes.
pub const KEY_SIZE: usize = 32;

/// Size in bytes of the nonce that the cipher takes.
pub const NONCE_SIZE: usize = 15;

/// Size in bytes of the tag that the cipher appends to what it seals.
pub const TAG_SIZE: usize = 16;

/// The byte that every key of an encrypted entry starts with. It keeps these
/// keys apart from those of the ledger, of the epoch and of the nonces.
pub const ENCRYPTED_KEY_PREFIX: u8 = 0x01;

/// The SHA-512/256 digest of `data`.
pub uninterp spec fn sha512_256(data: Seq<u8>) -> Seq<u8>;

/// The nonce of all zeros, under which plain keys are sealed.
pub open spec fn zero_nonce() -> Seq<u8> {
    Seq::new(NONCE_SIZE as nat, |i: int| 0u8)
}

/// The key that an entry is stored under, given its plain key sealed under
/// the nonce of all zeros.
pub open spec fn encrypted_key(sealed_key: Seq<u8>) -> Seq<u8> {
    seq![ENCRYPTED_KEY_PREFIX] + sealed_key
}

/// The envelope that is stored for a sealed value: the sealed value, which
/// ends with its tag, then the nonce.
pub open spec fn envelope(sealed_value: Seq<u8>, nonce: Seq<u8>) -> Seq<u8> {
    sealed_value + nonce
}

/// An envelope taken apart: what is to be opened, and the nonce to open it
/// under. An envelope too short to hold a tag and a nonce gives `None`.
pub open spec fn split_envelope(envelope: Seq<u8>) -> Option<(Seq<u8>, Seq<u8>)> {
    if envelope.len() < TAG_SIZE + NONCE_SIZE {
        None
    } else {
        Some(
            (
                envelope.subrange(0, envelope.len() - NONCE_SIZE),
                envelope.subrange(envelope.len() - NONCE_SIZE, envelope.len() as int),
            ),
        )
    }
}

/// What the cipher is asked to seal.
#[derive(Debug, PartialEq, Eq)]
pub struct SealRequest {
    /// The key to seal under.
    pub key: [u8; KEY_SIZE],
    /// The nonce to seal under.
    pub nonce: [u8; NONCE_SIZE],
    /// What to seal.
    pub plaintext: Vec<u8>,
}

/// What the cipher is asked to open.
#[derive(Debug, PartialEq, Eq)]
pub struct OpenRequest {
    /// The key to open under.
    pub key: [u8; KEY_SIZE],
    /// The nonce to open under.
    pub nonce: [u8; NONCE_SIZE],
    /// What to open: a ciphertext that ends with its tag.
    pub ciphertext: Vec<u8>,
}

/// The request to open what `stored` holds under `key`, if it holds an
/// envelope long enough.
pub open spec fn open_request_for(key: Seq<u8>, stored: Option<Seq<u8>>) -> Option<
    (Seq<u8>, Seq<u8>, Seq<u8>),
> {
    match stored {
        Some(envelope) => match split_envelope(envelope) {
            Some((ciphertext, nonce)) => Some((key, nonce, ciphertext)),
            None => None,
        },
        None => None,
    }
}

/// An optional request to open, as contracts speak of it: the key, the nonce
/// and the ciphertext.
pub open spec fn open_view(request: Option<OpenRequest>) -> Option<(Seq<u8>, Seq<u8>, Seq<u8>)> {
    match request {
        Some(r) => Some((r.key@, r.nonce@, r.ciphertext@)),
        None => None,
    }
}

/// Computes the SHA-512/256 digest of `data`.
///
/// Calls `sha2::Sha512_256::digest`, which is a function of the bytes alone
/// and whose output type has 32 bytes. The contract gives its result a name
/// and claims its length, nothing else.
#[verifier::external_body]
fn digest_bytes(data: &[u8]) -> (digest: Vec<u8>)
    ensures
        digest@ == sha512_256(data@),
        digest@.len() == 32,
{
    Sha512_256::digest(data).to_vec()
}

/// The identifier of the key pair that protects the entry of `plain_key`: the
/// digest of the plain key.
pub fn key_pair_id(plain_key: &[u8]) -> (id: Vec<u8>)
    ensures
        id@ == sha512_256(plain_key@),
        id@.len() == 32,
{
    digest_bytes(plain_key)
}

/// The nonce that values are sealed under unless the caller supplies one.
pub fn placeholder_nonce() -> (nonce: [u8; NONCE_SIZE])
    ensures
        nonce@ == zero_nonce(),
{
    let nonce = [0u8; 15];
    proof {
        assert(nonce@ =~= zero_nonce());
    }
    nonce
}

/// The key of the store's encrypted entries, for one key space.
#[derive(Debug, PartialEq, Eq)]
pub struct EncryptionContext {
    key: [u8; KEY_SIZE],
}

impl EncryptionContext {
    /// The key material.
    pub closed spec fn key(&self) -> Seq<u8> {
        self.key@
    }

    /// A context for the given key, which must have the cipher's key size.
    pub fn new(key: &[u8]) -> (ctx: EncryptionContext)
        requires
            key@.len() == KEY_SIZE,
        ensures
            ctx.key() == key@,
    {
        let mut raw_key = [0u8; 32];
        let mut i: usize = 0;
        while i < KEY_SIZE
            invariant
                i <= KEY_SIZE,
                key@.len() == KEY_SIZE,
                forall|j: int| 0 <= j < i ==> raw_key@[j] == key@[j],
            decreases KEY_SIZE - i,
        {
            raw_key[i] = key[i];
            i += 1;
        }
        proof {
            assert(raw_key@ =~= key@);
        }
        EncryptionContext { key: raw_key }
    }

    /// Copies a nonce into the fixed size that the cipher takes.
    pub fn derive_nonce(nonce: &[u8]) -> (n: [u8; NONCE_SIZE])
        requires
            nonce@.len() == NONCE_SIZE,
        ensures
            n@ == nonce@,
    {
        let mut n = [0u8; 15];
        let mut i: usize = 0;
        while i < NONCE_SIZE
            invariant
                i <= NONCE_SIZE,
                nonce@.len() == NONCE_SIZE,
                forall|j: int| 0 <= j < i ==> n@[j] == nonce@[j],
            decreases NONCE_SIZE - i,
        {
            n[i] = nonce[i];
            i += 1;
        }
        proof {
            assert(n@ =~= nonce@);
        }
        n
    }

    /// What the cipher is asked to seal to obscure `plain_key`: the plain key,
    /// under the nonce of all zeros, so that the same plain key always gives
    /// the same stored key.
    pub fn key_request(&self, plain_key: &[u8]) -> (request: SealRequest)
        ensures
            request.key@ == self.key(),
            request.nonce@ == zero_nonce(),
            request.plaintext@ == plain_key@,
    {
        SealRequest { key: self.key, nonce: placeholder_nonce(), plaintext: copy_bytes(plain_key) }
    }

    /// What the cipher is asked to seal to protect `value` under the nonce
    /// that the caller supplies. The nonce must have the cipher's nonce size.
    pub fn value_request(&self, value: &[u8], nonce: &[u8]) -> (request: SealRequest)
        requires
            nonce@.len() == NONCE_SIZE,
        ensures
            request.key@ == self.key(),
            request.nonce@ == nonce@,
            request.plaintext@ == value@,
    {
        SealRequest {
            key: self.key,
            nonce: Self::derive_nonce(nonce),
            plaintext: copy_bytes(value),
        }
    }

    /// The key that an entry is stored under, given its plain key as the
    /// cipher sealed it under the nonce of all zeros.
    pub fn derive_encrypted_key(sealed_key: &[u8]) -> (pkey: Vec<u8>)
        ensures
            pkey@ == encrypted_key(sealed_key@),
    {
        let mut pkey: Vec<u8> = Vec::new();
        pkey.push(ENCRYPTED_KEY_PREFIX);
        proof {
            assert(pkey@ =~= seq![ENCRYPTED_KEY_PREFIX]);
        }
        append_bytes(&mut pkey, sealed_key);
        pkey
    }

    /// The envelope to store for a value as the cipher sealed it under
    /// `nonce`.
    pub fn seal_envelope(sealed_value: Vec<u8>, nonce: &[u8; NONCE_SIZE]) -> (enveloped: Vec<u8>)
        ensures
            enveloped@ == envelope(sealed_value@, nonce@),
    {
        let mut ciphertext = sealed_value;
        append_bytes(&mut ciphertext, nonce.as_slice());
        ciphertext
    }

    /// Takes a stored envelope apart and says what the cipher is asked to
    /// open. Gives `None` where the envelope is too short to hold a tag and a
    /// nonce.
    pub fn open(&self, stored: &[u8]) -> (request: Option<OpenRequest>)
        ensures
            open_view(request) == open_request_for(self.key(), Some(stored@)),
    {
        // ciphertext || tag || nonce.
        if stored.len() < TAG_SIZE + NONCE_SIZE {
            return None;
        }
        let nonce_offset = stored.len() - NONCE_SIZE;
        let nonce = Self::derive_nonce(copy_range(stored, nonce_offset, stored.len()).as_slice());
        let ciphertext = copy_range(stored, 0, nonce_offset);
        Some(OpenRequest { key: self.key, nonce, ciphertext })
    }

    /// Reads the entry stored under the key derived from `sealed_key` and says
    /// what the cipher is asked to open to get its value.
    pub fn get(&self, store: &Store, sealed_key: &[u8]) -> (request: Option<OpenRequest>)
        ensures
            open_view(request) == open_request_for(
                self.key(),
                store@.get(encrypted_key(sealed_key@)),
            ),
    {
        let key = Self::derive_encrypted_key(sealed_key);
        let ciphertext = match store.get(key.as_slice()) {
            Some(ciphertext) => ciphertext,
            None => {
                return None;
            },
        };
        self.open(ciphertext.as_slice())
    }

    /// Stores the sealed value, in its envelope, under the key derived from
    /// `sealed_key`, and says what the cipher is asked to open to get the
    /// value that was there before.
    pub fn insert(
        &self,
        store: &mut Store,
        sealed_key: &[u8],
        sealed_value: Vec<u8>,
        nonce: &[u8],
    ) -> (request: Option<OpenRequest>)
        requires
            nonce@.len() == NONCE_SIZE,
        ensures
            final(store)@ == old(store)@.insert(
                encrypted_key(sealed_key@),
                envelope(sealed_value@, nonce@),
            ),
            open_view(request) == open_request_for(
                self.key(),
                old(store)@.get(encrypted_key(sealed_key@)),
            ),
    {
        let nonce = Self::derive_nonce(nonce);
        let ciphertext = Self::seal_envelope(sealed_value, &nonce);
        let key = Self::derive_encrypted_key(sealed_key);
        let ciphertext = match store.insert(key.as_slice(), ciphertext.as_slice()) {
            Some(ciphertext) => ciphertext,
            None => {
                return None;
            },
        };
        self.open(ciphertext.as_slice())
    }

    /// Removes the entry stored under the key derived from `sealed_key` and
    /// says what the cipher is asked to open to get the value that it held.
    pub fn remove(&self, store: &mut Store, sealed_key: &[u8]) -> (request: Option<OpenRequest>)
        ensures
            final(store)@ == old(store)@.remove(encrypted_key(sealed_key@)),
            open_view(request) == open_request_for(
                self.key(),
                old(store)@.get(encrypted_key(sealed_key@)),
            ),
    {
        let key = Self::derive_encrypted_key(sealed_key);
        let ciphertext = match store.remove(key.as_slice()) {
            Some(ciphertext) => ciphertext,
            None => {
                return None;
            },
        };
        self.open(ciphertext.as_slice())
    }
}

} // verus!
