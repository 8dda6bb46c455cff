//! The streaming reader that drives field machines over a byte input while
//! tracking exact positions for diagnostics.

mod error;
mod fixed_format;
mod header;
mod laws;
mod reader;
mod scan;

pub use error::Error;
pub use error::ErrorV;
pub use reader::Reader;
pub use reader::ReaderV;
pub use reader::spec_next_line;
pub use reader::spec_read;
pub use reader::spec_read_line;
pub use reader::spec_read_line_st;
pub use reader::spec_read_st;
pub use fixed_format::fixed_format_allowed;
pub use fixed_format::fixed_format_value;
pub use fixed_format::fortran_float_opt_model;
pub use fixed_format::fortran_int_opt_model;
pub use fixed_format::integer_or_zero;
pub use fixed_format::spec_blank_tail;
pub use fixed_format::spec_fixed_format_fraction;
pub use fixed_format::spec_fixed_format_int;
pub use fixed_format::spec_fixed_format_real;
pub use header::header;
pub use scan::first_full_match;
pub use scan::spec_scan_line_excluding;
pub use scan::step_matchers;
pub use header::spec_header;
pub use header::spec_header_rest;
pub use header::spec_parameters;
pub use laws::advanced;
pub use laws::blanks;
pub use laws::byte_of_digit;
pub use laws::chars_of_digits;
pub use laws::fixed_integer_fits;
pub use laws::fixed_integer_value;
pub use laws::int_rendering;
pub use laws::int_model_of;
pub use laws::lemma_fixed_integer_decodes_rendering;
pub use laws::lemma_fixed_real_decodes_rendering;
pub use laws::lemma_fixed_real_short_fraction_fails;
pub use laws::lemma_fixed_real_early_end_fails;
pub use laws::lemma_fixed_real_exact_width;
pub use laws::lemma_fixed_real_extra_column_overflows;
pub use laws::lemma_fixed_real_width_from_start;
pub use laws::int_consumed;
pub use laws::int_model_wf;
pub use laws::real_consumed;
pub use laws::real_model_wf;
