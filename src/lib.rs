//! Bit-precision collections: sequences of individual bits packed into bytes,
//! with indexing, slicing, bitwise logic, and binary / hexadecimal text codecs.

pub mod buffer;
pub mod codec;
pub mod collection;
pub mod error;
pub mod immutable;
pub mod iterator;
pub mod laws;
pub mod mutibs;
pub mod ops;
pub mod text;

pub use buffer::BitBuffer;
pub use collection::{bit_count, combine, same_bits, BitCollection};
pub use error::BitsError;
pub use immutable::Tibs;
pub use iterator::{BoolIterator, ChunksIterator, FindAllIterator};
pub use mutibs::Mutibs;
pub use ops::BitOp;
