//! The fixed-width field types and their decoding state machines.

mod fixed_count;
mod fixed_integer;
mod fixed_real;
mod line;
mod natural;
mod sequence;

pub use fixed_count::FixedCount;
pub use fixed_count::FixedCountBuilder;
pub use fixed_count::FixedCountBuilderV;
pub use fixed_count::FixedCountV;
pub use fixed_count::fixed_count_finish;
pub use fixed_count::fixed_count_step;
pub use fixed_integer::FixedInteger;
pub use fixed_integer::FixedIntegerBuilder;
pub use fixed_integer::FixedIntegerBuilderV;
pub use fixed_integer::FixedIntegerV;
pub use fixed_integer::fixed_integer_finish;
pub use fixed_integer::fixed_integer_step;
pub use fixed_real::FixedReal;
pub use fixed_real::FixedRealBuilder;
pub use fixed_real::FixedRealBuilderV;
pub use fixed_real::FixedRealV;
pub use fixed_real::fixed_real_finish;
pub use fixed_real::fixed_real_step;
pub use line::Line;
pub use line::LineBuilder;
pub use line::line_finish;
pub use line::line_from_bytes;
pub use line::line_step;
pub use natural::Natural;
pub use sequence::Sequence;
pub use sequence::SequenceBuilder;
pub use sequence::sequence_finish;
pub use sequence::sequence_step;
