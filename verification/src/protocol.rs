//! The incremental field-decoding protocol: a state machine consumes one
//! printable symbol at a time and either continues, completes with its
//! product, or fails naming the acceptable symbols.

mod builder;
mod error;
mod target;

pub use builder::Builder;
pub use builder::Transition;
pub use error::Error;
pub use error::dot_bytes;
pub use error::flag_bytes;
pub use error::integer_leading_bytes;
pub use error::space_bytes;
pub use error::two_or_three_bytes;
pub use error::v_bytes;
pub use error::zero_bytes;
pub use target::Target;
