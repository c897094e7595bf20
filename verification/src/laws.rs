//! Chain-level laws of the framework, stated over the mathematical view of a
//! cause chain. `ErrorValue::wrap` guarantees `r@ == seq![r@[0]] + cause@`,
//! so the view of a chain built by wrapping a terminal error any number of
//! times is the sequence of wrapped nodes followed by the terminal's single
//! node; these laws speak of chains in that shape.

use vstd::prelude::*;

use crate::error::ErrorNode;
use crate::render::backtrace_note;
use crate::render::joined;
use crate::render::lemma_joined_newlines;
use crate::render::lemma_line_newline_free;
use crate::render::lines_view;
use crate::render::render_view;
use crate::text::count_char;
use crate::text::lemma_count_char_concat;

verus! {

/// Law: wrapping a terminal error `n` times yields a chain of `n + 1` links
/// whose last link is still the terminal node, so `root_cause` (which
/// returns the last link) recovers it, and the rendering (one line per
/// link) has exactly `n + 1` lines.
pub proof fn lemma_wrapped_chain_shape(added: Seq<ErrorNode>, terminal: Seq<ErrorNode>)
    requires
        terminal.len() == 1,
    ensures
        (added + terminal).len() == added.len() + 1,
        (added + terminal).last() == terminal[0],
        lines_view(added + terminal).len() == added.len() + 1,
{
}

/// Law, one wrap at a time: any pair of values in the relation that
/// `ErrorValue::wrap` ensures between its result and its argument — one
/// link longer, trailing links unchanged — has the same last link, so the
/// root cause is preserved, and one rendered line more. Applied along a
/// chain of wraps this gives the shape law above step by step.
pub proof fn lemma_wrap_step(cause: Seq<ErrorNode>, wrapped: Seq<ErrorNode>)
    requires
        cause.len() >= 1,
        wrapped.len() == cause.len() + 1,
        wrapped.skip(1) == cause,
    ensures
        wrapped.last() == cause.last(),
        lines_view(wrapped).len() == lines_view(cause).len() + 1,
{
    assert(wrapped.last() == wrapped.skip(1).last());
}

/// Law, down to the rendered text: a chain of `n + 1` links whose messages
/// are single-line and whose root carries no snapshot renders to a string
/// with exactly `n` newlines — `n + 1` lines.
pub proof fn lemma_rendered_line_count(chain: Seq<ErrorNode>)
    requires
        chain.len() >= 1,
        forall|i: int| 0 <= i < chain.len() ==> count_char((#[trigger] chain[i]).message, '\n')
            == 0,
        chain.last().backtrace is None,
    ensures
        count_char(render_view(chain), '\n') == chain.len() - 1,
{
    assert forall|i: int| 0 <= i < lines_view(chain).len() implies count_char(
        #[trigger] lines_view(chain)[i],
        '\n',
    ) == 0 by {
        lemma_line_newline_free(chain[i], i == 0);
    }
    lemma_joined_newlines(lines_view(chain));
    lemma_count_char_concat(joined(lines_view(chain)), backtrace_note(chain), '\n');
}

/// Law: the call stack snapshot a rendering shows is exactly the one taken
/// when the terminal node was constructed. Wrapping neither captures a new
/// snapshot nor drops the old one, and since a chain is immutable once
/// built, changing the capture flag afterwards cannot remove it;
/// `ErrorValue::new` guarantees the terminal holds a snapshot exactly when
/// capture was enabled at that moment.
pub proof fn lemma_rendered_backtrace(added: Seq<ErrorNode>, terminal: Seq<ErrorNode>)
    requires
        terminal.len() == 1,
    ensures
        backtrace_note(added + terminal) == backtrace_note(terminal),
        backtrace_note(added + terminal).len() > 0 <==> terminal[0].backtrace is Some,
{
    assert((added + terminal).last() == terminal[0]);
    assert(terminal.last() == terminal[0]);
}

} // verus!
