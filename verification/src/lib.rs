//! Transaction-processing core of a confidential key/value runtime: key
//! formats, replay protection, the ledger of pending consensus messages, the
//! framing of encrypted entries, and the dispatch of batches of calls.

pub mod bytes;
pub mod endian;
pub mod key_format;
pub mod store;
pub mod context;
pub mod ledger;
pub mod nonce;
pub mod types;
pub mod encryption;
pub mod methods;
pub mod abort;
pub mod dispatcher;
pub mod noop;
pub mod laws;
pub mod text;
