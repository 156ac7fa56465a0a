//! Properties of the extraction function, stated over its model and proved.
use vstd::prelude::*;
use vstd::utf8::{decode_utf8, valid_utf8};

use crate::engine::{leftmost_captures, regex_compile_error};
use crate::error::{ArgumentRole, ExtractFailure};
use crate::extract::{group_arg, spec_extract, spec_text_of_bytes};
use crate::value::{type_of, SqlValue};

verus! {

/// The bytes of a text value; empty for any other value.
pub open spec fn text_of(v: SqlValue) -> Seq<u8> {
    match v {
        SqlValue::Text(b) => b@,
        _ => Seq::empty(),
    }
}

/// The first argument is text that decodes and compiles.
pub open spec fn pattern_compiles(args: Seq<SqlValue>) -> bool {
    &&& args[0] is Text
    &&& valid_utf8(text_of(args[0]))
    &&& regex_compile_error(decode_utf8(text_of(args[0]))) is None
}

/// The search outcome of the pattern in the subject of `args`.
pub open spec fn search(args: Seq<SqlValue>) -> Option<Seq<Option<(usize, usize)>>> {
    leftmost_captures(decode_utf8(text_of(args[0])), text_of(args[1]))
}

/// Two argument values of the same type and the same contents.
pub open spec fn same_value(x: SqlValue, y: SqlValue) -> bool {
    match (x, y) {
        (SqlValue::Null, SqlValue::Null) => true,
        (SqlValue::Integer(i), SqlValue::Integer(j)) => i == j,
        (SqlValue::Real, SqlValue::Real) => true,
        (SqlValue::Text(a), SqlValue::Text(b)) => a@ == b@,
        (SqlValue::Blob(a), SqlValue::Blob(b)) => a@ == b@,
        _ => false,
    }
}

/// With group 0 (given or left out), a search that matches yields the
/// whole match: the subject's bytes over the match span, decoded (exactly
/// their characters where they are valid UTF-8).
pub proof fn lemma_group_zero_is_whole_match(args: Seq<SqlValue>)
    requires
        2 <= args.len() <= 3,
        pattern_compiles(args),
        args[1] is Text,
        group_arg(args) is None || group_arg(args) == Some(SqlValue::Integer(0)),
        search(args) matches Some(groups) && groups.len() >= 1 && groups[0] is Some,
    ensures
        ({
            let whole = search(args)->Some_0[0]->Some_0;
            spec_extract(args) == Ok::<_, ExtractFailure>(
                Some(spec_text_of_bytes(text_of(args[1]).subrange(whole.0 as int, whole.1 as int))),
            )
        }),
{
}

/// A null subject yields null once the pattern compiles, whatever the
/// capture group.
pub proof fn lemma_null_subject_is_null(args: Seq<SqlValue>)
    requires
        2 <= args.len() <= 3,
        pattern_compiles(args),
        args[1] is Null,
    ensures
        spec_extract(args) == Ok::<Option<Seq<char>>, ExtractFailure>(None),
{
}

/// A capture group `g >= 0` (given, or 0 when left out) that the pattern
/// lacks, or that took no part in the match, yields null and no failure; so
/// does a search without a match.
pub proof fn lemma_missing_group_is_null(args: Seq<SqlValue>, g: int)
    requires
        2 <= args.len() <= 3,
        pattern_compiles(args),
        args[1] is Text,
        match group_arg(args) {
            None => g == 0,
            Some(v) => v matches SqlValue::Integer(i) && i == g && i >= 0,
        },
        match search(args) {
            None => true,
            Some(groups) => g >= groups.len() || groups[g] is None,
        },
    ensures
        spec_extract(args) == Ok::<Option<Seq<char>>, ExtractFailure>(None),
{
}

/// A pattern that is not text fails as an argument of the wrong type,
/// whatever the other arguments hold.
pub proof fn lemma_non_text_pattern_fails(args: Seq<SqlValue>)
    requires
        2 <= args.len() <= 3,
        !(args[0] is Text),
    ensures
        spec_extract(args) == Err::<Option<Seq<char>>, ExtractFailure>(
            ExtractFailure::InvalidArgumentType {
                argument: ArgumentRole::Pattern,
                found: type_of(args[0]),
            },
        ),
{
}

/// A subject that is neither text nor null fails as an argument of the
/// wrong type, whatever the text of the pattern and the capture group.
pub proof fn lemma_bad_subject_fails(args: Seq<SqlValue>)
    requires
        2 <= args.len() <= 3,
        args[0] is Text,
        !(args[1] is Text),
        !(args[1] is Null),
    ensures
        spec_extract(args) == Err::<Option<Seq<char>>, ExtractFailure>(
            ExtractFailure::InvalidArgumentType {
                argument: ArgumentRole::Subject,
                found: type_of(args[1]),
            },
        ),
{
}

/// The result depends on the arguments' types and contents alone: two
/// calls with the same arguments give the same result.
pub proof fn lemma_extract_is_deterministic(a: Seq<SqlValue>, b: Seq<SqlValue>)
    requires
        2 <= a.len() <= 3,
        a.len() == b.len(),
        forall|i: int| 0 <= i < a.len() ==> same_value(#[trigger] a[i], b[i]),
    ensures
        spec_extract(a) == spec_extract(b),
{
    assert(same_value(a[0], b[0]));
    assert(same_value(a[1], b[1]));
    if a.len() > 2 {
        assert(same_value(a[2], b[2]));
    }
}

} // verus!
