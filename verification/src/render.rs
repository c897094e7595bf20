//! Deterministic, human-readable rendering of a cause chain: one line per
//! link, outermost first, root cause last, followed by the root cause's call
//! stack snapshot if one was taken.

use vstd::prelude::*;

use crate::error::ErrorNode;
use crate::error::ErrorValue;
use crate::error::Kind;
use crate::error::SourceContext;
use crate::error::lemma_chain_nonempty;
use crate::text::count_char;
use crate::text::dec_str;
use crate::text::lemma_count_char_absent;
use crate::text::lemma_count_char_concat;
use crate::text::lemma_dec_str_digits;
use crate::text::u64_string;

verus! {

/// The label a rendered line opens with for each kind.
pub open spec fn kind_label(kind: Kind) -> Seq<char> {
    match kind {
        Kind::Io => "io error"@,
        Kind::Parse => "parse error"@,
        Kind::Validation => "validation error"@,
        Kind::Custom => "error"@,
    }
}

/// The positional note a rendered line ends with, empty without context.
pub open spec fn context_note(context: Option<SourceContext>) -> Seq<char> {
    match context {
        Some(c) => " (line "@ + dec_str(c.line as nat) + ", column "@ + dec_str(c.column as nat)
            + ")"@,
        None => Seq::<char>::empty(),
    }
}

/// The rendered line for one link; every link but the outermost is prefixed
/// to show that it is the cause of the one above it.
pub open spec fn line_view(n: ErrorNode, first: bool) -> Seq<char> {
    (if first {
        Seq::<char>::empty()
    } else {
        "caused by: "@
    }) + kind_label(n.kind) + ": "@ + n.message + context_note(n.context)
}

/// The rendered lines of a whole chain, one per link, outermost first.
pub open spec fn lines_view(chain: Seq<ErrorNode>) -> Seq<Seq<char>> {
    Seq::new(chain.len(), |i: int| line_view(chain[i], i == 0))
}

/// Lines joined with a single newline between them.
pub open spec fn joined(lines: Seq<Seq<char>>) -> Seq<char>
    decreases lines.len(),
{
    if lines.len() == 0 {
        Seq::<char>::empty()
    } else if lines.len() == 1 {
        lines[0]
    } else {
        joined(lines.drop_last()) + seq!['\n'] + lines.last()
    }
}

/// The trailing snapshot section: the root cause's captured call stack, the
/// diagnostically relevant one, or nothing if none was taken there.
pub open spec fn backtrace_note(chain: Seq<ErrorNode>) -> Seq<char> {
    match chain.last().backtrace {
        Some(bt) => seq!['\n'] + "backtrace:"@ + seq!['\n'] + bt,
        None => Seq::<char>::empty(),
    }
}

/// The full rendering of a chain.
pub open spec fn render_view(chain: Seq<ErrorNode>) -> Seq<char> {
    joined(lines_view(chain)) + backtrace_note(chain)
}

proof fn lemma_fixed_parts_newline_free()
    ensures
        count_char("caused by: "@, '\n') == 0,
        count_char("io error"@, '\n') == 0,
        count_char("parse error"@, '\n') == 0,
        count_char("validation error"@, '\n') == 0,
        count_char("error"@, '\n') == 0,
        count_char(": "@, '\n') == 0,
        count_char(" (line "@, '\n') == 0,
        count_char(", column "@, '\n') == 0,
        count_char(")"@, '\n') == 0,
{
    reveal_strlit("caused by: ");
    reveal_strlit("io error");
    reveal_strlit("parse error");
    reveal_strlit("validation error");
    reveal_strlit("error");
    reveal_strlit(": ");
    reveal_strlit(" (line ");
    reveal_strlit(", column ");
    reveal_strlit(")");
    lemma_count_char_absent("caused by: "@, '\n');
    lemma_count_char_absent("io error"@, '\n');
    lemma_count_char_absent("parse error"@, '\n');
    lemma_count_char_absent("validation error"@, '\n');
    lemma_count_char_absent("error"@, '\n');
    lemma_count_char_absent(": "@, '\n');
    lemma_count_char_absent(" (line "@, '\n');
    lemma_count_char_absent(", column "@, '\n');
    lemma_count_char_absent(")"@, '\n');
}

proof fn lemma_dec_str_newline_free(n: nat)
    ensures
        count_char(dec_str(n), '\n') == 0,
{
    lemma_dec_str_digits(n);
    lemma_count_char_absent(dec_str(n), '\n');
}

/// A rendered line holds no newline as long as the link's message holds
/// none: the label, the separators and the decimal position numbers are all
/// single-line.
pub proof fn lemma_line_newline_free(n: ErrorNode, first: bool)
    requires
        count_char(n.message, '\n') == 0,
    ensures
        count_char(line_view(n, first), '\n') == 0,
{
    lemma_fixed_parts_newline_free();
    let prefix: Seq<char> = if first {
        Seq::<char>::empty()
    } else {
        "caused by: "@
    };
    let note = context_note(n.context);
    match n.context {
        Some(c) => {
            lemma_dec_str_newline_free(c.line as nat);
            lemma_dec_str_newline_free(c.column as nat);
            lemma_count_char_concat(" (line "@, dec_str(c.line as nat), '\n');
            lemma_count_char_concat(" (line "@ + dec_str(c.line as nat), ", column "@, '\n');
            lemma_count_char_concat(
                " (line "@ + dec_str(c.line as nat) + ", column "@,
                dec_str(c.column as nat),
                '\n',
            );
            lemma_count_char_concat(
                " (line "@ + dec_str(c.line as nat) + ", column "@ + dec_str(c.column as nat),
                ")"@,
                '\n',
            );
        },
        None => {},
    }
    assert(count_char(note, '\n') == 0);
    lemma_count_char_concat(prefix, kind_label(n.kind), '\n');
    lemma_count_char_concat(prefix + kind_label(n.kind), ": "@, '\n');
    lemma_count_char_concat(prefix + kind_label(n.kind) + ": "@, n.message, '\n');
    lemma_count_char_concat(prefix + kind_label(n.kind) + ": "@ + n.message, note, '\n');
}

/// Joining single-line texts puts exactly one newline between neighbours.
pub proof fn lemma_joined_newlines(lines: Seq<Seq<char>>)
    requires
        lines.len() >= 1,
        forall|i: int| 0 <= i < lines.len() ==> count_char(#[trigger] lines[i], '\n') == 0,
    ensures
        count_char(joined(lines), '\n') == lines.len() - 1,
    decreases lines.len(),
{
    if lines.len() > 1 {
        assert(forall|i: int|
            0 <= i < lines.drop_last().len() ==> count_char(
                #[trigger] lines.drop_last()[i],
                '\n',
            ) == 0);
        lemma_joined_newlines(lines.drop_last());
        let nl: Seq<char> = seq!['\n'];
        assert(nl.drop_last() =~= Seq::<char>::empty());
        assert(count_char(Seq::<char>::empty(), '\n') == 0);
        assert(count_char(nl, '\n') == 1);
        lemma_count_char_concat(joined(lines.drop_last()), seq!['\n'], '\n');
        lemma_count_char_concat(joined(lines.drop_last()) + seq!['\n'], lines.last(), '\n');
    }
}

fn kind_label_str(kind: Kind) -> (r: &'static str)
    ensures
        r@ == kind_label(kind),
{
    match kind {
        Kind::Io => "io error",
        Kind::Parse => "parse error",
        Kind::Validation => "validation error",
        Kind::Custom => "error",
    }
}

fn line_string(cur: &ErrorValue, first: bool) -> (r: String)
    requires
        cur.wf(),
    ensures
        r@ == line_view(cur@[0], first),
{
    proof {
        lemma_chain_nonempty(*cur);
    }
    let mut s = String::new();
    if !first {
        s.append("caused by: ");
    }
    s.append(kind_label_str(cur.kind()));
    s.append(": ");
    s.append(cur.message());
    match cur.context() {
        Some(c) => {
            s.append(" (line ");
            s.append(u64_string(c.line).as_str());
            s.append(", column ");
            s.append(u64_string(c.column).as_str());
            s.append(")");
        },
        None => {},
    }
    proof {
        assert(s@ =~= line_view(cur@[0], first));
    }
    s
}

impl ErrorValue {
    /// The rendered lines of the chain: one per link, outermost first, the
    /// root cause last.
    pub fn render_lines(&self) -> (r: Vec<String>)
        requires
            self.wf(),
        ensures
            r@.len() == self@.len(),
            forall|i: int| 0 <= i < r@.len() ==> (#[trigger] r@[i])@ == lines_view(self@)[i],
    {
        proof {
            lemma_chain_nonempty(*self);
        }
        let mut out: Vec<String> = Vec::new();
        let mut cur: &ErrorValue = self;
        let mut done = false;
        proof {
            assert(self@.skip(0) =~= self@);
        }
        while !done
            invariant
                self.wf(),
                cur.wf(),
                !done ==> out@.len() < self@.len() && cur@ == self@.skip(out@.len() as int),
                done ==> out@.len() == self@.len(),
                forall|j: int| 0 <= j < out@.len() ==> (#[trigger] out@[j])@ == line_view(
                    self@[j],
                    j == 0,
                ),
            decreases self@.len() - out@.len() + (if done {
                0int
            } else {
                1int
            }),
        {
            let ghost i = out@.len() as int;
            proof {
                lemma_chain_nonempty(*cur);
                assert(cur@[0] == self@[i]);
            }
            let first = out.len() == 0;
            out.push(line_string(cur, first));
            match cur.source() {
                Some(c) => {
                    proof {
                        lemma_chain_nonempty(*c);
                        assert(self@.skip(i).skip(1) =~= self@.skip(i + 1));
                    }
                    cur = c;
                },
                None => {
                    proof {
                        assert(cur@.len() == 1);
                    }
                    done = true;
                },
            }
        }
        proof {
            assert(forall|j: int|
                0 <= j < out@.len() ==> (#[trigger] out@[j])@ == lines_view(self@)[j]);
        }
        out
    }

    /// Produces the deterministic rendering of the full chain: one line per
    /// link, outermost first, root cause last, then the root cause's call
    /// stack snapshot if one was captured.
    pub fn render(&self) -> (r: String)
        requires
            self.wf(),
        ensures
            r@ == render_view(self@),
    {
        proof {
            lemma_chain_nonempty(*self);
        }
        let lines = self.render_lines();
        let mut s = String::new();
        let mut i: usize = 0;
        while i < lines.len()
            invariant
                self.wf(),
                lines@.len() == self@.len() >= 1,
                i <= lines@.len(),
                forall|j: int| 0 <= j < lines@.len() ==> (#[trigger] lines@[j])@ == lines_view(
                    self@,
                )[j],
                s@ == joined(lines_view(self@).take(i as int)),
            decreases lines@.len() - i,
        {
            if i > 0 {
                s.append("\n");
            }
            s.append(lines[i].as_str());
            proof {
                reveal_strlit("\n");
                let lv = lines_view(self@);
                assert(lv.take(i + 1).drop_last() =~= lv.take(i as int));
                assert(lv.take(i + 1).last() == lv[i as int]);
                if i == 0 {
                    assert(s@ =~= joined(lv.take(1)));
                } else {
                    assert(s@ =~= joined(lv.take(i as int)) + seq!['\n'] + lv[i as int]);
                }
            }
            i = i + 1;
        }
        proof {
            assert(lines_view(self@).take(self@.len() as int) =~= lines_view(self@));
        }
        let root = self.root_cause();
        match root.backtrace() {
            Some(bt) => {
                s.append("\n");
                s.append("backtrace:");
                s.append("\n");
                s.append(bt);
                proof {
                    reveal_strlit("\n");
                    assert(s@ =~= render_view(self@));
                }
            },
            None => {
                proof {
                    assert(s@ =~= render_view(self@));
                }
            },
        }
        s
    }
}

} // verus!
