use vstd::prelude::*;

verus! {

use vstd::string::StringExecFns;

/// A whitespace character: the Unicode `White_Space` set, which is what
/// `char::is_whitespace` and `str::split_whitespace` go by.
pub open spec fn is_space(c: char) -> bool {
    ||| c == ' '
    ||| c == '\t'
    ||| c == '\n'
    ||| c == '\u{b}'
    ||| c == '\u{c}'
    ||| c == '\r'
    ||| c == '\u{85}'
    ||| c == '\u{a0}'
    ||| c == '\u{1680}'
    ||| ('\u{2000}' <= c && c <= '\u{200a}')
    ||| c == '\u{2028}'
    ||| c == '\u{2029}'
    ||| c == '\u{202f}'
    ||| c == '\u{205f}'
    ||| c == '\u{3000}'
}

/// The whitespace-separated tokens of `s`, with `cur` the partial token read
/// so far: maximal runs of non-whitespace characters, in order, never empty.
pub open spec fn tokens_acc(s: Seq<char>, cur: Seq<char>) -> Seq<Seq<char>>
    decreases s.len(),
{
    if s.len() == 0 {
        if cur.len() == 0 {
            Seq::empty()
        } else {
            seq![cur]
        }
    } else if is_space(s[0]) {
        if cur.len() == 0 {
            tokens_acc(s.drop_first(), Seq::empty())
        } else {
            seq![cur] + tokens_acc(s.drop_first(), Seq::empty())
        }
    } else {
        tokens_acc(s.drop_first(), cur.push(s[0]))
    }
}

/// The whitespace-separated tokens of `s`.
pub open spec fn tokens_of(s: Seq<char>) -> Seq<Seq<char>> {
    tokens_acc(s, Seq::empty())
}

/// A listing from the provider, split into independent name tokens.
///
/// Relies on `str::split_whitespace`: it yields the maximal runs of
/// non-whitespace characters of the text, in order, with no empty token.
#[verifier::external_body]
pub(crate) fn parse_names(text: &str) -> (r: Vec<String>)
    ensures
        r.deep_view() == tokens_of(text@),
{
    text.split_whitespace().map(|s| s.to_string()).collect()
}

/// A line as `str::lines` yields one that a newline ended: a carriage return
/// just before the newline is removed.
pub open spec fn chop_cr(l: Seq<char>) -> Seq<char> {
    if l.len() > 0 && l.last() == '\r' {
        l.drop_last()
    } else {
        l
    }
}

/// The lines of `s`, split at newlines, with `cur` the partial line read so
/// far. A final line that no newline ends is kept as it stands.
pub open spec fn lines_acc(s: Seq<char>, cur: Seq<char>) -> Seq<Seq<char>>
    decreases s.len(),
{
    if s.len() == 0 {
        if cur.len() == 0 {
            Seq::empty()
        } else {
            seq![cur]
        }
    } else if s[0] == '\n' {
        seq![chop_cr(cur)] + lines_acc(s.drop_first(), Seq::empty())
    } else {
        lines_acc(s.drop_first(), cur.push(s[0]))
    }
}

/// The lines of `s`.
pub open spec fn lines_of(s: Seq<char>) -> Seq<Seq<char>> {
    lines_acc(s, Seq::empty())
}

/// Lines rejoined with a single newline between each pair.
pub open spec fn join_lines(ls: Seq<Seq<char>>) -> Seq<char>
    decreases ls.len(),
{
    if ls.len() == 0 {
        Seq::empty()
    } else if ls.len() == 1 {
        ls[0]
    } else {
        join_lines(ls.drop_last()) + seq!['\n'] + ls.last()
    }
}

/// A connect report as it is shown: its lines rejoined with newlines, which
/// drops a trailing newline and turns each carriage-return-newline pair into
/// a bare newline.
pub open spec fn display_of(s: Seq<char>) -> Seq<char> {
    join_lines(lines_of(s))
}

/// Relies on `str::lines`: it yields the text split at newlines, without the
/// newlines, a carriage return just before a newline removed, and a final
/// line that no newline ends kept as it stands.
#[verifier::external_body]
fn split_lines(text: &str) -> (r: Vec<String>)
    ensures
        r.deep_view() == lines_of(text@),
{
    text.lines().map(|s| s.to_string()).collect()
}

/// The display form of a provider's connect report: its lines rejoined with
/// newlines.
pub fn display_text(text: &str) -> (r: String)
    ensures
        r@ == display_of(text@),
{
    let lines = split_lines(text);
    let mut out = String::new();
    let mut i: usize = 0;
    while i < lines.len()
        invariant
            i <= lines.len(),
            lines.deep_view() == lines_of(text@),
            out@ == join_lines(lines.deep_view().take(i as int)),
        decreases lines.len() - i,
    {
        if i > 0 {
            out.push('\n');
        }
        out.append(lines[i].as_str());
        proof {
            let lv = lines.deep_view();
            assert(lv.take(i + 1).drop_last() =~= lv.take(i as int));
            assert(lv.take(i + 1).last() == lv[i as int]);
            if i == 0 {
                assert(out@ =~= join_lines(lv.take(1)));
            }
        }
        i += 1;
    }
    proof {
        assert(lines.deep_view().take(lines.len() as int) =~= lines.deep_view());
    }
    out
}

} // verus!
