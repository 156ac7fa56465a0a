use vstd::prelude::*;
use vstd::slice::slice_subrange;
use vstd::utf8::{decode_utf8, valid_utf8};

use crate::engine::{
    captures, decode_lossy, leftmost_captures, regex_compile_error, utf8_lossy, utf8_text,
    CompiledPattern,
};
use crate::error::{ArgumentRole, ExtractError, ExtractFailure, PatternFault};
use crate::value::{type_of, SqlValue, ValueType};

verus! {

/// The capture-group index that the optional third argument asks for:
/// 0 when it is absent, else a non-negative integer.
pub open spec fn spec_group_index(arg: Option<SqlValue>) -> Result<u64, ExtractFailure> {
    match arg {
        None => Ok(0),
        Some(SqlValue::Integer(i)) => {
            if 0 <= i {
                Ok(i as u64)
            } else {
                Err(
                    ExtractFailure::InvalidArgumentType {
                        argument: ArgumentRole::CaptureGroup,
                        found: ValueType::Integer,
                    },
                )
            }
        },
        Some(v) => Err(
            ExtractFailure::InvalidArgumentType {
                argument: ArgumentRole::CaptureGroup,
                found: type_of(v),
            },
        ),
    }
}

/// The span of group `g` in a search outcome: none where nothing matched,
/// where the pattern has no group `g`, or where group `g` did not take part.
pub open spec fn spec_group_span(caps: Option<Seq<Option<(usize, usize)>>>, g: u64) -> Option<
    (usize, usize),
> {
    match caps {
        None => None,
        Some(groups) => if g < groups.len() {
            groups[g as int]
        } else {
            None
        },
    }
}

/// The search outcome that a `captures` result stands for.
pub open spec fn captures_view(caps: Option<Vec<Option<(usize, usize)>>>) -> Option<
    Seq<Option<(usize, usize)>>,
> {
    match caps {
        Some(v) => Some(v@),
        None => None,
    }
}

/// The third argument, where there is one.
pub open spec fn group_arg(args: Seq<SqlValue>) -> Option<SqlValue> {
    if args.len() > 2 {
        Some(args[2])
    } else {
        None
    }
}

/// The text of bytes `b`: their characters where they are valid UTF-8,
/// else their lossy decoding.
pub open spec fn spec_text_of_bytes(b: Seq<u8>) -> Seq<char> {
    if valid_utf8(b) {
        decode_utf8(b)
    } else {
        utf8_lossy(b)
    }
}

/// The text of group `g` of the leftmost-first match of `p` in `s`.
pub open spec fn spec_group_text(p: Seq<char>, s: Seq<u8>, g: u64) -> Option<Seq<char>> {
    match spec_group_span(leftmost_captures(p, s), g) {
        None => None,
        Some(span) => Some(spec_text_of_bytes(s.subrange(span.0 as int, span.1 as int))),
    }
}

/// What one call with arguments `args` (pattern, subject and, optionally,
/// capture group) yields. The checks come in this order: the pattern's
/// type, the subject's type, the pattern's decoding, its compilation, a
/// null subject (which ends here with a null result), the capture group.
pub open spec fn spec_extract(args: Seq<SqlValue>) -> Result<Option<Seq<char>>, ExtractFailure> {
    if !(args[0] is Text) {
        Err(
            ExtractFailure::InvalidArgumentType { argument: ArgumentRole::Pattern, found: type_of(args[0]) },
        )
    } else if !(args[1] is Text || args[1] is Null) {
        Err(
            ExtractFailure::InvalidArgumentType { argument: ArgumentRole::Subject, found: type_of(args[1]) },
        )
    } else {
        let pb = args[0]->Text_0@;
        if !valid_utf8(pb) {
            Err(ExtractFailure::PatternNotUtf8)
        } else {
            let p = decode_utf8(pb);
            match regex_compile_error(p) {
                Some(m) => Err(ExtractFailure::PatternRejected(m)),
                None => match args[1] {
                    SqlValue::Text(sb) => match spec_group_index(group_arg(args)) {
                        Err(e) => Err(e),
                        Ok(g) => Ok(spec_group_text(p, sb@, g)),
                    },
                    _ => Ok(None),
                },
            }
        }
    }
}

/// The model of a result of `regex_extract`.
pub open spec fn outcome(r: Result<Option<String>, ExtractError>) -> Result<
    Option<Seq<char>>,
    ExtractFailure,
> {
    match r {
        Ok(Some(t)) => Ok(Some(t@)),
        Ok(None) => Ok(None),
        Err(e) => Err(e@),
    }
}

/// Reads the capture-group argument: absent means group 0.
pub fn group_index(arg: Option<&SqlValue>) -> (r: Result<u64, ExtractError>)
    ensures
        match (r, spec_group_index(
            match arg {
                Some(v) => Some(*v),
                None => None,
            },
        )) {
            (Ok(g), Ok(h)) => g == h,
            (Err(e), Err(f)) => e@ == f,
            _ => false,
        },
{
    match arg {
        None => Ok(0),
        Some(SqlValue::Integer(i)) => {
            if *i >= 0 {
                Ok(*i as u64)
            } else {
                Err(
                    ExtractError::InvalidArgumentType {
                        argument: ArgumentRole::CaptureGroup,
                        found: ValueType::Integer,
                    },
                )
            }
        },
        Some(v) => Err(
            ExtractError::InvalidArgumentType {
                argument: ArgumentRole::CaptureGroup,
                found: v.value_type(),
            },
        ),
    }
}

/// The span of group `group` in the outcome `caps` of a search.
pub fn group_span(caps: &Option<Vec<Option<(usize, usize)>>>, group: u64) -> (r: Option<
    (usize, usize),
>)
    ensures
        r == spec_group_span(captures_view(*caps), group),
{
    match caps {
        None => None,
        Some(groups) => if group < groups.len() as u64 {
            groups[group as usize]
        } else {
            None
        },
    }
}

/// Decodes the bytes of the pattern into text.
fn pattern_text(pb: &Vec<u8>) -> (r: Result<&str, ExtractError>)
    ensures
        valid_utf8(pb@) ==> (r matches Ok(p) && p@ == decode_utf8(pb@)),
        !valid_utf8(pb@) ==> (r matches Err(e) && e@ == ExtractFailure::PatternNotUtf8),
{
    match utf8_text(pb.as_slice()) {
        Some(p) => Ok(p),
        None => Err(ExtractError::PatternCompileError(PatternFault::InvalidUtf8)),
    }
}

/// The extraction function: `args` holds the pattern, the subject and,
/// optionally, the capture-group index. The result is the text of that
/// group in the leftmost-first match, or null where nothing matched, where
/// the group does not exist or did not take part, or where the subject is
/// null.
pub fn regex_extract(args: &[SqlValue]) -> (r: Result<Option<String>, ExtractError>)
    requires
        2 <= args@.len() <= 3,
    ensures
        outcome(r) == spec_extract(args@),
{
    let pb = match &args[0] {
        SqlValue::Text(pb) => pb,
        v => {
            return Err(
                ExtractError::InvalidArgumentType {
                    argument: ArgumentRole::Pattern,
                    found: v.value_type(),
                },
            )
        },
    };
    match &args[1] {
        SqlValue::Text(_) | SqlValue::Null => {},
        v => {
            return Err(
                ExtractError::InvalidArgumentType {
                    argument: ArgumentRole::Subject,
                    found: v.value_type(),
                },
            )
        },
    }
    let p = match pattern_text(pb) {
        Ok(p) => p,
        Err(e) => return Err(e),
    };
    let pattern = match CompiledPattern::compile(p) {
        Ok(c) => c,
        Err(m) => return Err(ExtractError::PatternCompileError(PatternFault::Rejected(m))),
    };
    let subject = match &args[1] {
        SqlValue::Text(sb) => sb,
        _ => return Ok(None),
    };
    let group = match group_index(if args.len() > 2 { Some(&args[2]) } else { None }) {
        Ok(g) => g,
        Err(e) => return Err(e),
    };
    let caps = captures(&pattern, subject.as_slice());
    match group_span(&caps, group) {
        None => Ok(None),
        Some(span) => {
            proof {
                let groups = caps->Some_0@;
                assert(groups[group as int] is Some);
            }
            let bytes = slice_subrange(subject.as_slice(), span.0, span.1);
            Ok(Some(decode_lossy(bytes)))
        },
    }
}

} // verus!
