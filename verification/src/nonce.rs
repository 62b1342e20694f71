//! Replay protection: a nonce is accepted once. The proof that it was used is
//! a record under its key, and nothing else.

use crate::context::TxnContext;
use crate::key_format::{encoded, KeyFormat, NonceKeyFormat};
use crate::store::Store;
use crate::types::{CallError, CallErrorView};
use vstd::prelude::*;

verus! {

/// The key of the record that marks `nonce` as used.
pub open spec fn nonce_key(nonce: u64) -> Seq<u8> {
    encoded(NonceKeyFormat { nonce })
}

/// What the record of a used nonce holds: one byte.
pub open spec fn nonce_marker() -> Seq<u8> {
    seq![0x01u8]
}

/// Whether the store holds `nonce` as used.
pub open spec fn nonce_used(store: Map<Seq<u8>, Seq<u8>>, nonce: u64) -> bool {
    store.contains_key(nonce_key(nonce))
}

/// The store after a call with `nonce` passed the check: marked as used
/// where the batch executes, untouched where it only checks.
pub open spec fn nonce_reserved(
    store: Map<Seq<u8>, Seq<u8>>,
    nonce: u64,
    check_only: bool,
) -> Map<Seq<u8>, Seq<u8>> {
    if check_only {
        store
    } else {
        store.insert(nonce_key(nonce), nonce_marker())
    }
}

/// Checks that `nonce` was not used before, and marks it as used unless the
/// batch only checks.
pub fn check_nonce(nonce: u64, ctx: &TxnContext, store: &mut Store) -> (r: Result<(), CallError>)
    ensures
        nonce_used(old(store)@, nonce) ==> {
            &&& r matches Err(e)
            &&& e.deep_view() == (CallErrorView::DuplicateNonce { nonce })
            &&& final(store)@ == old(store)@
        },
        !nonce_used(old(store)@, nonce) ==> {
            &&& r is Ok
            &&& final(store)@ == nonce_reserved(old(store)@, nonce, ctx.check_only)
        },
{
    let nonce_key = NonceKeyFormat { nonce }.encode();
    match store.get(nonce_key.as_slice()) {
        Some(_) => Err(CallError::DuplicateNonce { nonce }),
        None => {
            if !ctx.check_only {
                let mut marker: Vec<u8> = Vec::new();
                marker.push(0x01);
                proof {
                    assert(marker@ =~= nonce_marker());
                }
                store.insert(nonce_key.as_slice(), marker.as_slice());
            }
            Ok(())
        },
    }
}

} // verus!
