//! Classification of captured text: character and word counts, and the
//! display title (trimmed, collapsed to a single line, truncated with an
//! ellipsis marker when long).

use vstd::prelude::*;
use vstd::string::StrSliceExecFns;
use crate::seq_util::lemma_skip_step;

verus! {

/// A title keeps at most this many characters of the cleaned text.
pub const TITLE_LIMIT: usize = 25;

/// The Unicode whitespace characters (the set `char::is_whitespace` accepts).
pub open spec fn is_ws(c: char) -> bool {
    ||| c == ' '
    ||| c == '\t'
    ||| c == '\n'
    ||| c == '\r'
    ||| c == '\u{000B}'
    ||| c == '\u{000C}'
    ||| c == '\u{0085}'
    ||| c == '\u{00A0}'
    ||| c == '\u{1680}'
    ||| ('\u{2000}' as u32 <= c as u32 && c as u32 <= '\u{200A}' as u32)
    ||| c == '\u{2028}'
    ||| c == '\u{2029}'
    ||| c == '\u{202F}'
    ||| c == '\u{205F}'
    ||| c == '\u{3000}'
}

/// Decides whether `c` is Unicode whitespace.
pub fn is_whitespace_char(c: char) -> (r: bool)
    ensures
        r == is_ws(c),
{
    c == ' ' || c == '\t' || c == '\n' || c == '\r' || c == '\u{000B}' || c == '\u{000C}'
        || c == '\u{0085}' || c == '\u{00A0}' || c == '\u{1680}'
        || ('\u{2000}' as u32 <= c as u32 && c as u32 <= '\u{200A}' as u32) || c == '\u{2028}'
        || c == '\u{2029}' || c == '\u{202F}' || c == '\u{205F}' || c == '\u{3000}'
}

/// `s` without its leading whitespace.
pub open spec fn trim_front(s: Seq<char>) -> Seq<char>
    decreases s.len(),
{
    if s.len() > 0 && is_ws(s[0]) {
        trim_front(s.drop_first())
    } else {
        s
    }
}

/// `s` without its trailing whitespace.
pub open spec fn trim_back(s: Seq<char>) -> Seq<char>
    decreases s.len(),
{
    if s.len() > 0 && is_ws(s.last()) {
        trim_back(s.drop_last())
    } else {
        s
    }
}

/// `s` without leading and trailing whitespace.
pub open spec fn trimmed(s: Seq<char>) -> Seq<char> {
    trim_back(trim_front(s))
}

/// A newline drawn into the single-line form of a title.
pub open spec fn line_char(c: char) -> char {
    if c == '\n' {
        ' '
    } else {
        c
    }
}

/// The trimmed text collapsed to a single line.
pub open spec fn cleaned(s: Seq<char>) -> Seq<char> {
    trimmed(s).map_values(|c: char| line_char(c))
}

/// The three-character ellipsis marker appended to truncated titles.
pub open spec fn ellipsis() -> Seq<char> {
    seq!['.', '.', '.']
}

/// The display title of a captured text: the cleaned text, truncated to
/// `TITLE_LIMIT` characters plus an ellipsis marker when longer.
pub open spec fn title_spec(s: Seq<char>) -> Seq<char> {
    if cleaned(s).len() <= TITLE_LIMIT {
        cleaned(s)
    } else {
        cleaned(s).take(TITLE_LIMIT as int) + ellipsis()
    }
}

/// The number of whitespace-delimited words in `s`, where `after_gap` says
/// whether the scan stands at a word boundary.
pub open spec fn word_count_from(s: Seq<char>, after_gap: bool) -> nat
    decreases s.len(),
{
    if s.len() == 0 {
        0
    } else if is_ws(s[0]) {
        word_count_from(s.drop_first(), true)
    } else {
        (if after_gap {
            1nat
        } else {
            0nat
        }) + word_count_from(s.drop_first(), false)
    }
}

/// The number of whitespace-delimited words in `s`.
pub open spec fn word_count(s: Seq<char>) -> nat {
    word_count_from(s, true)
}

/// Relies on std's `String::push`: appends one character to the string.
#[verifier::external_body]
pub(crate) fn push_char(s: &mut String, c: char)
    ensures
        final(s)@ == old(s)@.push(c),
{
    s.push(c);
}

/// Counts the Unicode scalar values of `s`.
pub fn count_chars(s: &str) -> (r: u64)
    ensures
        r == s@.len(),
{
    s.unicode_len() as u64
}

/// Counts the whitespace-delimited words of `s`.
pub fn count_words(s: &str) -> (r: u64)
    ensures
        r == word_count(s@),
{
    let n = s.unicode_len();
    let mut count: u64 = 0;
    let mut after_gap: bool = true;
    let mut i: usize = 0;
    proof {
        assert(s@.skip(0) =~= s@);
    }
    while i < n
        invariant
            0 <= i <= s@.len(),
            n == s@.len(),
            count <= i,
            word_count(s@) == count + word_count_from(s@.skip(i as int), after_gap),
        decreases s@.len() - i,
    {
        proof {
            lemma_skip_step(s@, i as int);
        }
        let c = s.get_char(i);
        if is_whitespace_char(c) {
            after_gap = true;
        } else {
            if after_gap {
                count = count + 1;
            }
            after_gap = false;
        }
        i = i + 1;
    }
    proof {
        assert(s@.skip(s@.len() as int) =~= Seq::<char>::empty());
    }
    count
}

/// Builds the display title of a captured text.
pub fn title_of(s: &str) -> (r: String)
    ensures
        r@ == title_spec(s@),
        cleaned(s@).len() > TITLE_LIMIT ==> r@.len() == TITLE_LIMIT + 3,
{
    let n = s.unicode_len();
    let mut i: usize = 0;
    proof {
        assert(s@.skip(0) =~= s@);
    }
    while i < n && is_whitespace_char(s.get_char(i))
        invariant
            0 <= i <= s@.len(),
            n == s@.len(),
            trim_front(s@) == trim_front(s@.skip(i as int)),
        decreases s@.len() - i,
    {
        proof {
            lemma_skip_step(s@, i as int);
        }
        i = i + 1;
    }
    proof {
        if i < n {
            assert(s@.skip(i as int)[0] == s@[i as int]);
        } else {
            assert(s@.skip(i as int) =~= Seq::<char>::empty());
        }
        assert(trim_front(s@) == s@.skip(i as int));
    }
    let ghost front: Seq<char> = s@.skip(i as int);
    let mut j: usize = n;
    proof {
        assert(front.take(n - i) =~= front);
    }
    while j > i && is_whitespace_char(s.get_char(j - 1))
        invariant
            i <= j <= n,
            n == s@.len(),
            front == s@.skip(i as int),
            trim_back(front) == trim_back(front.take(j - i)),
        decreases j,
    {
        proof {
            let t = front.take(j - i);
            assert(t.len() == j - i);
            assert(t.last() == front[j - i - 1]);
            assert(front[j - i - 1] == s@[j - 1]);
            assert(t.drop_last() =~= front.take(j - i - 1));
        }
        j = j - 1;
    }
    proof {
        let t = front.take(j - i);
        if j > i {
            assert(t.last() == front[j - i - 1]);
            assert(front[j - i - 1] == s@[j - 1]);
        }
        assert(trim_back(front) == t);
        assert(trimmed(s@) == front.take(j - i));
        assert(front.take(j - i) =~= s@.subrange(i as int, j as int));
    }
    let trimmed_str = s.substring_char(i, j);
    let m = j - i;
    let limit = if m > TITLE_LIMIT {
        TITLE_LIMIT
    } else {
        m
    };
    let ghost clean: Seq<char> = cleaned(s@);
    proof {
        assert(clean.len() == m);
        assert(forall|q: int| 0 <= q < m ==> clean[q] == line_char(trimmed_str@[q]));
    }
    let mut out = String::new();
    let mut k: usize = 0;
    while k < limit
        invariant
            0 <= k <= limit,
            limit <= m,
            m == trimmed_str@.len(),
            clean.len() == m,
            forall|q: int| 0 <= q < m ==> clean[q] == line_char(trimmed_str@[q]),
            out@.len() == k,
            forall|q: int| 0 <= q < k ==> out@[q] == clean[q],
        decreases limit - k,
    {
        let c = trimmed_str.get_char(k);
        let c2 = if c == '\n' {
            ' '
        } else {
            c
        };
        push_char(&mut out, c2);
        k = k + 1;
    }
    if m > TITLE_LIMIT {
        push_char(&mut out, '.');
        push_char(&mut out, '.');
        push_char(&mut out, '.');
        proof {
            assert(out@ =~= clean.take(TITLE_LIMIT as int) + ellipsis());
        }
    } else {
        proof {
            assert(out@ =~= clean);
        }
    }
    out
}

} // verus!
