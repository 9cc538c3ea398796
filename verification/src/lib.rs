//! A mutual-exclusion container that encodes to, and decodes from, a record
//! with the single field `inner`.
//!
//! Encoding takes a held lock, hands out the record of the protected value
//! and gives the lock back. Decoding reads a record and makes a new, unlocked
//! mutex of the value of `inner`. A record is refused where `inner` stands in
//! it twice, where `inner` is missing, and where it holds a field of any other
//! name: a name that is not known is not passed over.
//!
//! Nothing here depends on a format. A serializer is driven by the record
//! that `mutex::Mutex::encode_with` hands out; a deserializer drives
//! `visitor::MutexVisitor`, field by field.
//!
//! Nothing here waits for a lock. The caller takes it on the primitive, and
//! `sync::recovered` gives the guard, also where a holder of the lock has
//! panicked.

pub mod codec;
pub mod error;
pub mod field;
pub mod mutex;
pub mod record;
pub mod sync;
pub mod text;
pub mod visitor;
