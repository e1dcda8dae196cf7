//! The URL-list input: newline-delimited URLs, one per line, surrounding
//! whitespace trimmed, blank lines ignored.
//!
//! Reading the file is outside work; turning its text into the list of
//! URLs, in input order, is verified here against a functional
//! specification of the format.

use vstd::prelude::*;
use vstd::string::*;

verus! {

/// The characters trimmed from the ends of a line. A newline never occurs
/// inside a line, so listing it here is not needed.
pub open spec fn is_space_char(c: char) -> bool {
    c == ' ' || c == '\t' || c == '\r'
}

/// `s` with its leading space characters removed.
pub open spec fn drop_leading(s: Seq<char>) -> Seq<char>
    decreases s.len(),
{
    if s.len() > 0 && is_space_char(s[0]) {
        drop_leading(s.drop_first())
    } else {
        s
    }
}

/// `s` with its trailing space characters removed.
pub open spec fn drop_trailing(s: Seq<char>) -> Seq<char>
    decreases s.len(),
{
    if s.len() > 0 && is_space_char(s.last()) {
        drop_trailing(s.drop_last())
    } else {
        s
    }
}

/// `s` with surrounding space characters removed.
pub open spec fn trim_spec(s: Seq<char>) -> Seq<char> {
    drop_trailing(drop_leading(s))
}

/// The number of characters before the first newline of `s` (all of `s`
/// when it has none).
pub open spec fn line_len(s: Seq<char>) -> nat
    decreases s.len(),
{
    if s.len() == 0 {
        0
    } else if s[0] == '\n' {
        0
    } else {
        1 + line_len(s.drop_first())
    }
}

/// The URL list denoted by a text: its lines in order, each trimmed, the
/// blank ones left out.
pub open spec fn url_lines(s: Seq<char>) -> Seq<Seq<char>>
    decreases s.len(),
{
    if s.len() == 0 {
        Seq::empty()
    } else {
        let l = line_len(s);
        let line = trim_spec(s.take(l as int));
        let rest = if l < s.len() {
            url_lines(s.skip(l as int + 1))
        } else {
            Seq::empty()
        };
        if line.len() > 0 {
            seq![line] + rest
        } else {
            rest
        }
    }
}

/// A scan that saw no newline before `m` and one (or the end) at `m` found
/// the first line's length.
proof fn lemma_line_len_from_scan(s: Seq<char>, m: int)
    requires
        0 <= m <= s.len(),
        forall|k: int| 0 <= k < m ==> s[k] != '\n',
        m == s.len() || s[m] == '\n',
    ensures
        line_len(s) == m,
    decreases m,
{
    if m > 0 {
        assert(forall|k: int|
            0 <= k < m - 1 ==> #[trigger] s.drop_first()[k] == s[k + 1] && s[k + 1] != '\n');
        lemma_line_len_from_scan(s.drop_first(), m - 1);
    }
}

/// A scan that saw only spaces before `a` and a non-space (or the end) at
/// `a` found where the leading spaces stop.
proof fn lemma_drop_leading_at(s: Seq<char>, a: int)
    requires
        0 <= a <= s.len(),
        forall|k: int| 0 <= k < a ==> is_space_char(#[trigger] s[k]),
        a == s.len() || !is_space_char(s[a]),
    ensures
        drop_leading(s) == s.skip(a),
    decreases a,
{
    if a == 0 {
        assert(s.skip(0) =~= s);
    } else {
        assert(forall|k: int|
            0 <= k < a - 1 ==> #[trigger] s.drop_first()[k] == s[k + 1] && is_space_char(s[k + 1]));
        lemma_drop_leading_at(s.drop_first(), a - 1);
        assert(s.drop_first().skip(a - 1) =~= s.skip(a));
    }
}

/// A scan that saw only spaces from `b` on and a non-space (or the start)
/// just before `b` found where the trailing spaces start.
proof fn lemma_drop_trailing_at(s: Seq<char>, b: int)
    requires
        0 <= b <= s.len(),
        forall|k: int| b <= k < s.len() ==> is_space_char(#[trigger] s[k]),
        b == 0 || !is_space_char(s[b - 1]),
    ensures
        drop_trailing(s) == s.take(b),
    decreases s.len() - b,
{
    if b == s.len() {
        assert(s.take(b) =~= s);
    } else {
        assert(is_space_char(s.last()));
        assert(forall|k: int|
            b <= k < s.len() - 1 ==> #[trigger] s.drop_last()[k] == s[k] && is_space_char(s[k]));
        lemma_drop_trailing_at(s.drop_last(), b);
        assert(s.drop_last().take(b) =~= s.take(b));
    }
}

/// One unfolding of [`url_lines`] at a line boundary: the list for the text
/// from `start` on is the line `[start, end)` trimmed (when not blank),
/// followed by the list for the text after the newline.
proof fn lemma_url_lines_step(t: Seq<char>, start: int, end: int)
    requires
        0 <= start <= end <= t.len(),
        line_len(t.skip(start)) == end - start,
    ensures
        url_lines(t.skip(start)) == (if trim_spec(t.subrange(start, end)).len() > 0 {
            seq![trim_spec(t.subrange(start, end))]
        } else {
            Seq::<Seq<char>>::empty()
        }) + (if end < t.len() {
            url_lines(t.skip(end + 1))
        } else {
            Seq::<Seq<char>>::empty()
        }),
{
    let s = t.skip(start);
    assert(s.take(end - start) =~= t.subrange(start, end));
    let line = trim_spec(t.subrange(start, end));
    let rest: Seq<Seq<char>> = if end < t.len() {
        url_lines(t.skip(end + 1))
    } else {
        Seq::<Seq<char>>::empty()
    };
    if s.len() == 0 {
        assert(t.subrange(start, end) =~= Seq::<char>::empty());
        assert(line.len() == 0);
        assert(Seq::<Seq<char>>::empty() + rest =~~= rest);
    } else {
        if end - start < s.len() {
            assert(s.skip(end - start + 1) =~= t.skip(end + 1));
        }
        if line.len() == 0 {
            assert(Seq::<Seq<char>>::empty() + rest =~~= rest);
        }
    }
}

/// Parse the text of a URL-list file: one URL per line, surrounding
/// whitespace trimmed, blank lines ignored, input order kept.
pub fn parse_url_list(text: &str) -> (r: Vec<String>)
    ensures
        r.deep_view() == url_lines(text@),
{
    let n = text.unicode_len();
    let mut out: Vec<String> = Vec::new();
    let mut start: usize = 0;
    let mut done: bool = false;
    proof {
        assert(text@.skip(0) =~= text@);
        assert(out.deep_view() =~~= Seq::<Seq<char>>::empty());
        assert(Seq::<Seq<char>>::empty() + url_lines(text@) =~~= url_lines(text@));
    }
    while !done
        invariant
            n == text@.len(),
            start <= n,
            url_lines(text@) == out.deep_view() + (if !done {
                url_lines(text@.skip(start as int))
            } else {
                Seq::<Seq<char>>::empty()
            }),
        decreases (if done { 0int } else { 1int }), n - start,
    {
        let mut end = start;
        while end < n && text.get_char(end) != '\n'
            invariant
                n == text@.len(),
                start <= end <= n,
                forall|k: int| start <= k < end ==> text@[k] != '\n',
            decreases n - end,
        {
            end = end + 1;
        }
        let mut a = start;
        while a < end && is_space(text.get_char(a))
            invariant
                n == text@.len(),
                start <= a <= end <= n,
                forall|k: int| start <= k < a ==> is_space_char(#[trigger] text@[k]),
            decreases end - a,
        {
            a = a + 1;
        }
        let mut b = end;
        while b > a && is_space(text.get_char(b - 1))
            invariant
                n == text@.len(),
                a <= b <= end <= n,
                forall|k: int| b <= k < end ==> is_space_char(#[trigger] text@[k]),
            decreases b - a,
        {
            b = b - 1;
        }
        let ghost s = text@.skip(start as int);
        let ghost trimmed = trim_spec(text@.subrange(a as int, b as int));
        proof {
            assert(forall|k: int| 0 <= k < s.len() ==> #[trigger] s[k] == text@[start + k]);
            lemma_line_len_from_scan(s, end - start);
            let line = text@.subrange(start as int, end as int);
            assert(forall|k: int| 0 <= k < line.len() ==> #[trigger] line[k] == text@[start + k]);
            lemma_drop_leading_at(line, a - start);
            let led = line.skip(a - start);
            assert(led =~= text@.subrange(a as int, end as int));
            assert(forall|k: int| 0 <= k < led.len() ==> #[trigger] led[k] == text@[a + k]);
            lemma_drop_trailing_at(led, b - a);
            assert(led.take(b - a) =~= text@.subrange(a as int, b as int));
            assert(trim_spec(line) == trimmed);
            assert(trimmed.len() == b - a);
        }
        let ghost outv0 = out.deep_view();
        if a < b {
            let piece = text.substring_char(a, b);
            out.push(piece.to_owned());
            proof {
                assert(out.deep_view() =~~= outv0 + seq![trimmed]);
            }
        } else {
            proof {
                assert(out.deep_view() =~~= outv0 + Seq::<Seq<char>>::empty());
            }
        }
        proof {
            lemma_url_lines_step(text@, start as int, end as int);
            let single: Seq<Seq<char>> = if trimmed.len() > 0 {
                seq![trimmed]
            } else {
                Seq::<Seq<char>>::empty()
            };
            let rest: Seq<Seq<char>> = if end < n {
                url_lines(text@.skip(end as int + 1))
            } else {
                Seq::<Seq<char>>::empty()
            };
            assert(url_lines(s) == single + rest);
            assert(out.deep_view() =~~= outv0 + single);
            assert(outv0 + (single + rest) =~~= (outv0 + single) + rest);
            assert(url_lines(text@) == out.deep_view() + rest);
        }
        if end < n {
            start = end + 1;
        } else {
            done = true;
        }
    }
    out
}

/// Whether `c` is trimmed, decided in executable code.
fn is_space(c: char) -> (r: bool)
    ensures
        r == is_space_char(c),
{
    c == ' ' || c == '\t' || c == '\r'
}

} // verus!
