//! A uniform interface to a range-keyed table store: the value types that cross
//! it (address ranges, bitmaps, wire instructions and answers), the error type,
//! and the logic that turns per-range query results and server answers into the
//! `(query range, stored range, data)` triples that readers receive.

pub mod client;
pub mod error;
pub mod iter;
pub mod range;

pub use client::{Bitmap, DBAnswer, DBInstruction, WriteAccess};
pub use error::{from_obj_decoding, from_obj_encoding, DBInterfaceError, DBResult};
pub use iter::{open_query, IterStep, ManyRangeIter};
pub use range::{range, Range};
