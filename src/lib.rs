//! A regular-expression extraction function for a SQL engine: given a
//! pattern, a subject and an optional capture-group index, it yields the
//! text that the group matched in the leftmost-first match, or null.

mod engine;
mod error;
mod extract;
mod laws;
mod value;

pub use engine::{leftmost_captures, regex_compile_error, utf8_lossy};
pub use error::{ArgumentRole, ExtractError, ExtractFailure, PatternFault};
pub use extract::{
    captures_view, group_arg, group_index, group_span, outcome, regex_extract, spec_extract,
    spec_group_index, spec_group_span, spec_group_text, spec_text_of_bytes,
};
pub use laws::{
    lemma_bad_subject_fails, lemma_extract_is_deterministic, lemma_group_zero_is_whole_match,
    lemma_missing_group_is_null, lemma_non_text_pattern_fails, lemma_null_subject_is_null,
    pattern_compiles, same_value, search, text_of,
};
pub use value::{type_of, SqlValue, ValueType};
