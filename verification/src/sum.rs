//! Summation of integers given one per line of text, with the failures of
//! each step reported through the error framework: a malformed line is a
//! `Parse` error wrapped with its position, a sum leaving the 32-bit range
//! is a `Validation` error.

use vstd::prelude::*;

use crate::error::ErrorValue;
use crate::error::ID_PARSE;
use crate::error::ID_VALIDATION;
use crate::error::Kind;
use crate::error::SourceContext;
use crate::text::bad_number_note;
use crate::text::int_literal_val;
use crate::text::is_i32_literal;
use crate::text::parse_i32;
use crate::text::trim;
use crate::text::trim_view;

verus! {

/// What processing the lines front to back runs into first: the finished
/// sum, a line that is no integer, or a running sum leaving the range.
pub enum SumOutcome {
    Done(int),
    BadLine(int),
    Overflow(int),
}

/// The views of the elements of a vector of strings.
pub open spec fn line_views(lines: Seq<String>) -> Seq<Seq<char>> {
    Seq::new(lines.len(), |i: int| lines[i]@)
}

/// Processes the lines from index `i` on with running sum `acc`.
pub open spec fn sum_step(lines: Seq<Seq<char>>, i: int, acc: int) -> SumOutcome
    decreases lines.len() - i,
    when 0 <= i <= lines.len()
{
    if i == lines.len() {
        SumOutcome::Done(acc)
    } else if !is_i32_literal(trim_view(lines[i])) {
        SumOutcome::BadLine(i)
    } else if !(i32::MIN <= acc + int_literal_val(trim_view(lines[i])) <= i32::MAX) {
        SumOutcome::Overflow(i)
    } else {
        sum_step(lines, i + 1, acc + int_literal_val(trim_view(lines[i])))
    }
}

/// What summing the lines front to back, starting from zero, runs into.
pub open spec fn sum_outcome(lines: Seq<Seq<char>>) -> SumOutcome {
    sum_step(lines, 0, 0)
}

/// The message of the wrapping error on a malformed line.
pub open spec fn bad_line_note() -> Seq<char> {
    "invalid number"@
}

/// The message of the error reported when the sum leaves the range.
pub open spec fn overflow_note() -> Seq<char> {
    "sum does not fit in a 32-bit integer"@
}

/// Sums the integers written one per line, each trimmed of surrounding
/// whitespace first. A line that is no 32-bit integer stops the walk with a
/// `Parse` error wrapped with the line's position; a running sum that
/// leaves the 32-bit range stops it with a `Validation` error.
pub fn sum_lines(lines: &Vec<String>, capture: bool) -> (r: Result<i32, ErrorValue>)
    ensures
        r is Ok <==> sum_outcome(line_views(lines@)) is Done,
        r matches Ok(v) ==> sum_outcome(line_views(lines@)) == SumOutcome::Done(v as int),
        r matches Err(e) ==> {
            &&& e.wf()
            &&& match sum_outcome(line_views(lines@)) {
                SumOutcome::BadLine(i) => {
                    &&& e@.len() == 2
                    &&& e@[0].kind == Kind::Parse
                    &&& e@[0].type_id == ID_PARSE
                    &&& e@[0].message == bad_line_note()
                    &&& e@[0].context == Some(SourceContext { line: (i + 1) as u64, column: 1 })
                    &&& e@[0].backtrace is None
                    &&& e@[1].kind == Kind::Parse
                    &&& e@[1].message == bad_number_note()
                    &&& (e@[1].backtrace is Some <==> capture)
                },
                SumOutcome::Overflow(_) => {
                    &&& e@.len() == 1
                    &&& e@[0].kind == Kind::Validation
                    &&& e@[0].type_id == ID_VALIDATION
                    &&& e@[0].message == overflow_note()
                    &&& e@[0].context is None
                    &&& (e@[0].backtrace is Some <==> capture)
                },
                SumOutcome::Done(_) => false,
            }
        },
{
    let ghost views = line_views(lines@);
    let mut acc: i32 = 0;
    let mut i: usize = 0;
    while i < lines.len()
        invariant
            i <= lines@.len(),
            views == line_views(lines@),
            sum_outcome(views) == sum_step(views, i as int, acc as int),
        decreases lines@.len() - i,
    {
        let trimmed = trim(lines[i].as_str());
        match parse_i32(trimmed, capture) {
            Ok(v) => {
                let wide: i64 = acc as i64 + v as i64;
                if wide < -2147483648i64 || wide > 2147483647i64 {
                    proof {
                        reveal_strlit("sum does not fit in a 32-bit integer");
                        assert(sum_step(views, i as int, acc as int) == SumOutcome::Overflow(
                            i as int,
                        ));
                    }
                    return Err(
                        ErrorValue::new(
                            Kind::Validation,
                            String::from_str("sum does not fit in a 32-bit integer"),
                            None,
                            capture,
                        ),
                    );
                }
                proof {
                    assert(sum_step(views, i as int, acc as int) == sum_step(
                        views,
                        i + 1,
                        acc as int + v as int,
                    ));
                }
                acc = wide as i32;
            },
            Err(inner) => {
                proof {
                    reveal_strlit("invalid number");
                    assert(sum_step(views, i as int, acc as int) == SumOutcome::BadLine(i as int));
                }
                let w = ErrorValue::wrap(
                    inner,
                    Kind::Parse,
                    String::from_str("invalid number"),
                    Some(SourceContext { line: (i + 1) as u64, column: 1 }),
                );
                return Err(w);
            },
        }
        i = i + 1;
    }
    Ok(acc)
}

} // verus!
