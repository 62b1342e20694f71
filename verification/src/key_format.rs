//! Fixed-width storage keys: one prefix byte that names the kind of record,
//! then the record's atoms, each a big-endian integer.

use crate::bytes::append_bytes;
use crate::endian::{
    be_bytes, be_value, lemma_be_bytes_len, lemma_be_bytes_of_value, lemma_be_value_bound,
    lemma_be_value_of_bytes, lemma_pow256_widths, read_u32_be, read_u64_be, write_u32_be,
    write_u64_be,
};
use vstd::prelude::*;
use vstd::slice::slice_subrange;

verus! {

/// The byte strings that a list of encoded atoms holds.
pub open spec fn atoms_of(atoms: Seq<Vec<u8>>) -> Seq<Seq<u8>> {
    atoms.map_values(|a: Vec<u8>| a@)
}

/// The atoms one after the other.
pub open spec fn concat(atoms: Seq<Seq<u8>>) -> Seq<u8>
    decreases atoms.len(),
{
    if atoms.len() == 0 {
        Seq::empty()
    } else {
        concat(atoms.drop_last()) + atoms.last()
    }
}

/// The encoding of `key` cut after its first `count` atoms: the prefix byte,
/// then those atoms. A `count` beyond the number of atoms takes them all.
pub open spec fn encoded_partial<K: KeyFormat>(key: K, count: nat) -> Seq<u8> {
    let atoms = key.spec_atoms();
    let n = if count < atoms.len() { count as int } else { atoms.len() as int };
    seq![K::spec_prefix()] + concat(atoms.take(n))
}

/// The encoding of `key`: the prefix byte, then every atom.
pub open spec fn encoded<K: KeyFormat>(key: K) -> Seq<u8> {
    seq![K::spec_prefix()] + concat(key.spec_atoms())
}

/// The key that `data` encodes in the format `K`, if it encodes one: `data`
/// must start with the format's prefix byte and have exactly the format's
/// length.
pub open spec fn decoded<K: KeyFormat>(data: Seq<u8>) -> Option<K> {
    if data.len() == 1 + K::spec_size() && data[0] == K::spec_prefix() {
        Some(K::spec_from_atoms(data.skip(1)))
    } else {
        None
    }
}

/// A kind of storage key with a prefix byte of its own and atoms of fixed
/// total width.
pub trait KeyFormat: Sized {
    /// The byte that every key of this kind starts with.
    spec fn spec_prefix() -> u8;

    /// The number of bytes that the atoms of a key of this kind take.
    spec fn spec_size() -> nat;

    /// The encoded atoms of a key, in order.
    spec fn spec_atoms(&self) -> Seq<Seq<u8>>;

    /// The key whose atoms, one after the other, are `data`.
    spec fn spec_from_atoms(data: Seq<u8>) -> Self;

    /// The atoms of a key fill the format's width, and decoding them gives
    /// the key back.
    proof fn lemma_atoms_decode(&self)
        ensures
            concat(self.spec_atoms()).len() == Self::spec_size(),
            Self::spec_from_atoms(concat(self.spec_atoms())) == *self,
    ;

    /// Every byte string of the format's width is the atoms of the key that it
    /// decodes to.
    proof fn lemma_decode_atoms(data: Seq<u8>)
        requires
            data.len() == Self::spec_size(),
        ensures
            concat(Self::spec_from_atoms(data).spec_atoms()) == data,
    ;

    /// The byte that every key of this kind starts with.
    fn prefix() -> (p: u8)
        ensures
            p == Self::spec_prefix(),
    ;

    /// The number of bytes that the atoms of a key of this kind take.
    fn size() -> (n: usize)
        ensures
            n == Self::spec_size(),
    ;

    /// Appends the encoded atoms of the key to `atoms`.
    fn encode_atoms(self, atoms: &mut Vec<Vec<u8>>)
        ensures
            atoms_of(final(atoms)@) == atoms_of(old(atoms)@) + self.spec_atoms(),
    ;

    /// Decodes a key from its atoms, which `data` starts with.
    fn decode_atoms(data: &[u8]) -> (key: Self)
        requires
            data@.len() >= Self::spec_size(),
        ensures
            key == Self::spec_from_atoms(data@.subrange(0, Self::spec_size() as int)),
    ;

    /// Encodes the prefix byte and the first `count` atoms of the key: a
    /// prefix to seek to when a namespace is scanned. With `count` zero only
    /// the prefix byte comes out.
    fn encode_partial(self, count: usize) -> (key: Vec<u8>)
        ensures
            key@ == seq![Self::spec_prefix()] + concat(
                self.spec_atoms().take(
                    if count < self.spec_atoms().len() {
                        count as int
                    } else {
                        self.spec_atoms().len() as int
                    },
                ),
            ),
    {
        let ghost all = self.spec_atoms();
        let mut v: Vec<u8> = Vec::new();
        v.push(Self::prefix());
        if count == 0 {
            proof {
                assert(all.take(0) =~= Seq::<Seq<u8>>::empty());
                assert(v@ =~= seq![Self::spec_prefix()] + concat(all.take(0)));
            }
            return v;
        }
        let mut atoms: Vec<Vec<u8>> = Vec::new();
        self.encode_atoms(&mut atoms);
        proof {
            assert(atoms_of(atoms@) =~= all);
        }
        let mut included: usize = 0;
        while included < atoms.len() && included < count
            invariant
                included <= atoms.len(),
                included <= count,
                atoms_of(atoms@) == all,
                v@ == seq![Self::spec_prefix()] + concat(all.take(included as int)),
            decreases atoms.len() - included,
        {
            append_bytes(&mut v, atoms[included].as_slice());
            proof {
                let next = all.take(included as int + 1);
                assert(next.drop_last() =~= all.take(included as int));
                assert(next.last() == atoms@[included as int]@);
                assert(v@ =~= seq![Self::spec_prefix()] + concat(next));
            }
            included += 1;
        }
        v
    }

    /// Encodes the key: the prefix byte, then every atom.
    fn encode(self) -> (key: Vec<u8>)
        ensures
            key@ == seq![Self::spec_prefix()] + concat(self.spec_atoms()),
    {
        let ghost all = self.spec_atoms();
        let mut v: Vec<u8> = Vec::new();
        v.push(Self::prefix());
        let mut atoms: Vec<Vec<u8>> = Vec::new();
        self.encode_atoms(&mut atoms);
        proof {
            assert(atoms_of(atoms@) =~= all);
        }
        let mut included: usize = 0;
        while included < atoms.len()
            invariant
                included <= atoms.len(),
                atoms_of(atoms@) == all,
                v@ == seq![Self::spec_prefix()] + concat(all.take(included as int)),
            decreases atoms.len() - included,
        {
            append_bytes(&mut v, atoms[included].as_slice());
            proof {
                let next = all.take(included as int + 1);
                assert(next.drop_last() =~= all.take(included as int));
                assert(next.last() == atoms@[included as int]@);
                assert(v@ =~= seq![Self::spec_prefix()] + concat(next));
            }
            included += 1;
        }
        proof {
            assert(all.take(all.len() as int) =~= all);
        }
        v
    }

    /// Decodes a key of this kind. Gives `None` where `data` does not start
    /// with the kind's prefix byte or has not the kind's length.
    fn decode(data: &[u8]) -> (key: Option<Self>)
        ensures
            key == if data@.len() == 1 + Self::spec_size() && data@[0] == Self::spec_prefix() {
                Some(Self::spec_from_atoms(data@.skip(1)))
            } else {
                None
            },
    {
        if data.len() == 0 {
            return None;
        }
        if data[0] != Self::prefix() {
            return None;
        }
        if data.len() - 1 != Self::size() {
            return None;
        }
        let rest = slice_subrange(data, 1, data.len());
        let key = Self::decode_atoms(rest);
        proof {
            assert(rest@.subrange(0, Self::spec_size() as int) =~= data@.skip(1));
        }
        Some(key)
    }
}

} // verus!

verus! {

/// Key of the record that holds the metadata of one pending message.
#[derive(Clone, Copy, Debug, PartialEq, Eq, Structural)]
pub struct PendingMessagesKeyFormat {
    /// The index that the message was emitted under.
    pub index: u32,
}

impl KeyFormat for PendingMessagesKeyFormat {
    open spec fn spec_prefix() -> u8 {
        0x00
    }

    open spec fn spec_size() -> nat {
        4
    }

    open spec fn spec_atoms(&self) -> Seq<Seq<u8>> {
        seq![be_bytes(self.index as nat, 4)]
    }

    open spec fn spec_from_atoms(data: Seq<u8>) -> Self {
        PendingMessagesKeyFormat { index: be_value(data.subrange(0, 4)) as u32 }
    }

    proof fn lemma_atoms_decode(&self) {
        let atom = be_bytes(self.index as nat, 4);
        lemma_pow256_widths();
        lemma_be_bytes_len(self.index as nat, 4);
        lemma_be_value_of_bytes(self.index as nat, 4);
        lemma_concat_one(atom);
        assert(atom.subrange(0, 4) =~= atom);
    }

    proof fn lemma_decode_atoms(data: Seq<u8>) {
        lemma_pow256_widths();
        lemma_be_value_bound(data);
        lemma_be_bytes_of_value(data);
        assert(data.subrange(0, 4) =~= data);
        lemma_concat_one(data);
    }

    fn prefix() -> (p: u8) {
        0x00
    }

    fn size() -> (n: usize) {
        4
    }

    fn encode_atoms(self, atoms: &mut Vec<Vec<u8>>) {
        let mut index: Vec<u8> = Vec::with_capacity(4);
        write_u32_be(&mut index, self.index);
        atoms.push(index);
        proof {
            assert(index@ =~= be_bytes(self.index as nat, 4));
            assert(atoms_of(atoms@) =~= atoms_of(old(atoms)@) + self.spec_atoms());
        }
    }

    fn decode_atoms(data: &[u8]) -> (key: Self) {
        let index = read_u32_be(data);
        proof {
            let atoms = data@.subrange(0, 4);
            assert(atoms.subrange(0, 4) =~= atoms);
        }
        PendingMessagesKeyFormat { index }
    }
}

/// Key of the record that marks a transaction nonce as used.
#[derive(Clone, Copy, Debug, PartialEq, Eq, Structural)]
pub struct NonceKeyFormat {
    /// The nonce.
    pub nonce: u64,
}

impl KeyFormat for NonceKeyFormat {
    open spec fn spec_prefix() -> u8 {
        0xFF
    }

    open spec fn spec_size() -> nat {
        8
    }

    open spec fn spec_atoms(&self) -> Seq<Seq<u8>> {
        seq![be_bytes(self.nonce as nat, 8)]
    }

    open spec fn spec_from_atoms(data: Seq<u8>) -> Self {
        NonceKeyFormat { nonce: be_value(data.subrange(0, 8)) as u64 }
    }

    proof fn lemma_atoms_decode(&self) {
        let atom = be_bytes(self.nonce as nat, 8);
        lemma_pow256_widths();
        lemma_be_bytes_len(self.nonce as nat, 8);
        lemma_be_value_of_bytes(self.nonce as nat, 8);
        lemma_concat_one(atom);
        assert(atom.subrange(0, 8) =~= atom);
    }

    proof fn lemma_decode_atoms(data: Seq<u8>) {
        lemma_pow256_widths();
        lemma_be_value_bound(data);
        lemma_be_bytes_of_value(data);
        assert(data.subrange(0, 8) =~= data);
        lemma_concat_one(data);
    }

    fn prefix() -> (p: u8) {
        0xFF
    }

    fn size() -> (n: usize) {
        8
    }

    fn encode_atoms(self, atoms: &mut Vec<Vec<u8>>) {
        let mut nonce: Vec<u8> = Vec::with_capacity(8);
        write_u64_be(&mut nonce, self.nonce);
        atoms.push(nonce);
        proof {
            assert(nonce@ =~= be_bytes(self.nonce as nat, 8));
            assert(atoms_of(atoms@) =~= atoms_of(old(atoms)@) + self.spec_atoms());
        }
    }

    fn decode_atoms(data: &[u8]) -> (key: Self) {
        let nonce = read_u64_be(data);
        proof {
            let atoms = data@.subrange(0, 8);
            assert(atoms.subrange(0, 8) =~= atoms);
        }
        NonceKeyFormat { nonce }
    }
}

/// A single atom, concatenated, is itself.
pub proof fn lemma_concat_one(atom: Seq<u8>)
    ensures
        concat(seq![atom]) == atom,
{
    let atoms = seq![atom];
    assert(atoms.drop_last() =~= Seq::<Seq<u8>>::empty());
    assert(concat(atoms.drop_last()) =~= Seq::<u8>::empty());
    assert(concat(atoms) =~= atom);
}

/// Decoding an encoded key gives the key back.
pub proof fn lemma_decode_encoded<K: KeyFormat>(key: K)
    ensures
        decoded::<K>(encoded(key)) == Some(key),
{
    key.lemma_atoms_decode();
    assert(encoded(key).skip(1) =~= concat(key.spec_atoms()));
}

/// Whatever decodes as a key is the encoding of that key.
pub proof fn lemma_encode_decoded<K: KeyFormat>(data: Seq<u8>)
    requires
        decoded::<K>(data) is Some,
    ensures
        encoded(decoded::<K>(data)->0) == data,
{
    K::lemma_decode_atoms(data.skip(1));
    assert(seq![data[0]] + data.skip(1) =~= data);
}

/// Two keys of one kind with the same encoding are the same key.
pub proof fn lemma_encoded_injective<K: KeyFormat>(a: K, b: K)
    requires
        encoded(a) == encoded(b),
    ensures
        a == b,
{
    lemma_decode_encoded(a);
    lemma_decode_encoded(b);
}

/// Kinds with different prefix bytes share no key: an encoded key of one kind
/// is the encoding of no key of the other, and does not decode as one.
pub proof fn lemma_kinds_disjoint<K1: KeyFormat, K2: KeyFormat>(a: K1, b: K2)
    requires
        K1::spec_prefix() != K2::spec_prefix(),
    ensures
        encoded(a) != encoded(b),
        decoded::<K2>(encoded(a)) is None,
{
    assert(encoded(a)[0] == K1::spec_prefix());
    assert(encoded(b)[0] == K2::spec_prefix());
}

/// The encoding cut after no atom is the prefix byte alone, and cut after
/// all the atoms, or more, it is the whole encoding.
pub proof fn lemma_encoded_partial_ends<K: KeyFormat>(key: K, count: nat)
    ensures
        encoded_partial(key, 0) == seq![K::spec_prefix()],
        count >= key.spec_atoms().len() ==> encoded_partial(key, count) == encoded(key),
{
    let all = key.spec_atoms();
    assert(all.take(0) =~= Seq::<Seq<u8>>::empty());
    assert(concat(all.take(0)) =~= Seq::<u8>::empty());
    assert(seq![K::spec_prefix()] + Seq::<u8>::empty() =~= seq![K::spec_prefix()]);
    assert(all.take(all.len() as int) =~= all);
}

} // verus!
