use vstd::prelude::*;
use vstd::string::{StrSliceExecFns, StringExecFns};

verus! {

/// Characters that may stand before a comment marker on a comment line:
/// those with the Unicode `White_Space` property, which `str::trim` removes.
pub open spec fn is_blank(c: char) -> bool {
    let n = c as u32;
    (9 <= n && n <= 13) || n == 32 || n == 0x85 || n == 0xA0 || n == 0x1680 || (0x2000 <= n
        && n <= 0x200A) || n == 0x2028 || n == 0x2029 || n == 0x202F || n == 0x205F || n == 0x3000
}

/// A line whose trimmed form starts with `#`.
pub open spec fn is_comment_line(line: Seq<char>) -> bool {
    exists|k: int|
        0 <= k < line.len() && line[k] == '#' && forall|j: int| 0 <= j < k ==> is_blank(#[trigger] line[j])
}

/// An inline comment, ` #`, starts at position `k` of `line`.
pub open spec fn marker_at(line: Seq<char>, k: int) -> bool {
    0 <= k && k + 1 < line.len() && line[k] == ' ' && line[k + 1] == '#'
}

/// The first position at or after `k` where an inline comment starts, or
/// the line's length if none does.
pub open spec fn cut_from(line: Seq<char>, k: int) -> int
    decreases line.len() - k,
{
    if k < 0 || k >= line.len() {
        line.len() as int
    } else if marker_at(line, k) {
        k
    } else {
        cut_from(line, k + 1)
    }
}

/// A line with its inline comment, if any, cut off.
pub open spec fn cut_inline(line: Seq<char>) -> Seq<char> {
    line.subrange(0, cut_from(line, 0))
}

/// The end of the line that starts at `i`: the position of the next line
/// break, or the text's length.
pub open spec fn line_end(s: Seq<char>, i: int) -> int
    decreases s.len() - i,
{
    if i < 0 || i >= s.len() {
        s.len() as int
    } else if s[i] == '\n' {
        i
    } else {
        line_end(s, i + 1)
    }
}

/// The line that starts at `i`, without its line break.
pub open spec fn line_at(s: Seq<char>, i: int) -> Seq<char> {
    s.subrange(i, line_end(s, i))
}

/// A line of `s` starts at `i`.
pub open spec fn is_line_start(s: Seq<char>, i: int) -> bool {
    0 <= i < s.len() && (i == 0 || s[i - 1] == '\n')
}

/// What a line contributes to stripped text: nothing for a comment line,
/// else the line without its inline comment, followed by its line break if
/// it had one.
pub open spec fn kept_line(line: Seq<char>, has_break: bool) -> Seq<char> {
    if is_comment_line(line) {
        Seq::empty()
    } else if has_break {
        cut_inline(line) + seq!['\n']
    } else {
        cut_inline(line)
    }
}

/// Stripped form of the text from position `i` on, where a line starts.
pub open spec fn stripped_from(s: Seq<char>, i: int) -> Seq<char>
    decreases s.len() - i,
{
    if i < 0 || i >= s.len() {
        Seq::empty()
    } else {
        let e = if i <= line_end(s, i) && line_end(s, i) <= s.len() {
            line_end(s, i)
        } else {
            s.len() as int
        };
        if e < s.len() {
            kept_line(s.subrange(i, e), true) + stripped_from(s, e + 1)
        } else {
            kept_line(s.subrange(i, e), false)
        }
    }
}

/// The text with comment lines dropped and inline comments cut off; all
/// else, blank lines included, kept in order.
pub open spec fn stripped(s: Seq<char>) -> Seq<char> {
    stripped_from(s, 0)
}

/// No line of `s` is a comment line.
pub open spec fn has_no_comment_lines(s: Seq<char>) -> bool {
    forall|i: int| #[trigger] is_line_start(s, i) ==> !is_comment_line(line_at(s, i))
}

proof fn lemma_line_end(s: Seq<char>, i: int)
    requires
        0 <= i <= s.len(),
    ensures
        i <= line_end(s, i) <= s.len(),
        line_end(s, i) < s.len() ==> s[line_end(s, i)] == '\n',
        forall|j: int| i <= j < line_end(s, i) ==> s[j] != '\n',
    decreases s.len() - i,
{
    if i < s.len() && s[i] != '\n' {
        lemma_line_end(s, i + 1);
    }
}

proof fn lemma_line_end_at(s: Seq<char>, i: int, e: int)
    requires
        0 <= i <= e <= s.len(),
        forall|j: int| i <= j < e ==> s[j] != '\n',
        e == s.len() || s[e] == '\n',
    ensures
        line_end(s, i) == e,
    decreases e - i,
{
    if i < e {
        lemma_line_end_at(s, i + 1, e);
    }
}

proof fn lemma_cut_from(line: Seq<char>, k: int)
    requires
        0 <= k <= line.len(),
    ensures
        k <= cut_from(line, k) <= line.len(),
    decreases line.len() - k,
{
    if k < line.len() && !marker_at(line, k) {
        lemma_cut_from(line, k + 1);
    }
}

proof fn lemma_cut_keeps_code_line(line: Seq<char>)
    requires
        !is_comment_line(line),
    ensures
        !is_comment_line(cut_inline(line)),
        cut_inline(line).len() <= line.len(),
        forall|j: int| 0 <= j < cut_inline(line).len() ==> cut_inline(line)[j] == line[j],
{
    lemma_cut_from(line, 0);
    let c = cut_inline(line);
    if is_comment_line(c) {
        let k = choose|k: int|
            0 <= k < c.len() && c[k] == '#' && forall|j: int| 0 <= j < k ==> is_blank(#[trigger] c[j]);
        assert forall|j: int| 0 <= j < k implies is_blank(#[trigger] line[j]) by {
            assert(c[j] == line[j]);
        }
        assert(is_comment_line(line));
    }
}

proof fn lemma_prepend_code_line(c: Seq<char>, rest: Seq<char>, has_break: bool)
    requires
        forall|j: int| 0 <= j < c.len() ==> c[j] != '\n',
        !is_comment_line(c),
        has_no_comment_lines(rest),
        !has_break ==> rest.len() == 0,
    ensures
        has_no_comment_lines((if has_break { c + seq!['\n'] } else { c }) + rest),
{
    let k = if has_break { c + seq!['\n'] } else { c };
    let t = k + rest;
    assert forall|i: int| #[trigger] is_line_start(t, i) implies !is_comment_line(line_at(t, i)) by {
        if i < k.len() {
            if i > 0 {
                assert(t[i - 1] == c[i - 1]);
            }
            assert(i == 0);
            if has_break {
                assert(t[c.len() as int] == '\n');
            }
            lemma_line_end_at(t, 0, c.len() as int);
            assert(line_at(t, 0) =~= c);
        } else {
            let j = i - k.len();
            if j > 0 {
                assert(t[i - 1] == rest[j - 1]);
            }
            assert(is_line_start(rest, j));
            lemma_line_end(rest, j);
            let er = line_end(rest, j);
            assert forall|m: int| i <= m < k.len() + er implies t[m] != '\n' by {
                assert(t[m] == rest[m - k.len()]);
            }
            if k.len() + er < t.len() {
                assert(t[k.len() + er] == rest[er]);
            }
            lemma_line_end_at(t, i, k.len() + er);
            assert(line_at(t, i) =~= line_at(rest, j));
        }
    }
}

proof fn lemma_stripped_from_has_no_comment_lines(s: Seq<char>, i: int)
    requires
        0 <= i,
    ensures
        has_no_comment_lines(stripped_from(s, i)),
    decreases s.len() - i,
{
    if i < s.len() {
        lemma_line_end(s, i);
        let e = line_end(s, i);
        let line = s.subrange(i, e);
        let rest = if e < s.len() { stripped_from(s, e + 1) } else { Seq::<char>::empty() };
        if e < s.len() {
            lemma_stripped_from_has_no_comment_lines(s, e + 1);
        }
        if is_comment_line(line) {
            assert(stripped_from(s, i) =~= rest);
        } else {
            lemma_cut_keeps_code_line(line);
            assert forall|j: int| 0 <= j < cut_inline(line).len() implies cut_inline(line)[j]
                != '\n' by {
                assert(line[j] == s[i + j]);
            }
            lemma_prepend_code_line(cut_inline(line), rest, e < s.len());
        }
    }
}

/// No line of stripped text is a comment line.
pub proof fn lemma_stripped_has_no_comment_lines(s: Seq<char>)
    ensures
        has_no_comment_lines(stripped(s)),
{
    lemma_stripped_from_has_no_comment_lines(s, 0);
}

proof fn lemma_clean_from_unchanged(s: Seq<char>, i: int)
    requires
        0 <= i <= s.len(),
        i == 0 || i == s.len() || s[i - 1] == '\n',
        forall|m: int| #[trigger] is_line_start(s, m) ==> !is_comment_line(line_at(s, m))
            && cut_from(line_at(s, m), 0) == line_at(s, m).len(),
    ensures
        stripped_from(s, i) == s.subrange(i, s.len() as int),
    decreases s.len() - i,
{
    if i < s.len() {
        assert(is_line_start(s, i));
        lemma_line_end(s, i);
        let e = line_end(s, i);
        if e < s.len() {
            lemma_clean_from_unchanged(s, e + 1);
            assert(stripped_from(s, i) =~= s.subrange(i, s.len() as int));
        } else {
            assert(stripped_from(s, i) =~= s.subrange(i, s.len() as int));
        }
    } else {
        assert(s.subrange(i, s.len() as int) =~= Seq::<char>::empty());
    }
}

/// Text with no comment line and no inline comment is left exactly as it is.
pub proof fn lemma_clean_text_unchanged(s: Seq<char>)
    requires
        forall|m: int| #[trigger] is_line_start(s, m) ==> !is_comment_line(line_at(s, m))
            && cut_from(line_at(s, m), 0) == line_at(s, m).len(),
    ensures
        stripped(s) == s,
{
    lemma_clean_from_unchanged(s, 0);
    assert(s.subrange(0, s.len() as int) =~= s);
}

/// Whether `line` is a comment line: its first non-blank character is `#`.
pub fn comment_line(line: &str) -> (r: bool)
    ensures
        r == is_comment_line(line@),
{
    let n = line.unicode_len();
    let mut i: usize = 0;
    while i < n && is_blank_char(line.get_char(i))
        invariant
            n == line@.len(),
            i <= n,
            forall|j: int| 0 <= j < i ==> is_blank(#[trigger] line@[j]),
        decreases n - i,
    {
        i = i + 1;
    }
    if i < n && line.get_char(i) == '#' {
        true
    } else {
        proof {
            if is_comment_line(line@) {
                let k = choose|k: int|
                    0 <= k < line@.len() && line@[k] == '#' && forall|j: int|
                        0 <= j < k ==> is_blank(#[trigger] line@[j]);
                if k > i {
                    assert(is_blank(line@[i as int]));
                }
            }
        }
        false
    }
}

fn is_blank_char(c: char) -> (r: bool)
    ensures
        r == is_blank(c),
{
    let n = c as u32;
    (9 <= n && n <= 13) || n == 32 || n == 0x85 || n == 0xA0 || n == 0x1680 || (0x2000 <= n
        && n <= 0x200A) || n == 0x2028 || n == 0x2029 || n == 0x202F || n == 0x205F || n == 0x3000
}

/// Where the inline comment of `line` starts, or its length if it has none.
pub fn inline_comment_start(line: &str) -> (r: usize)
    ensures
        r == cut_from(line@, 0),
{
    let n = line.unicode_len();
    let mut k: usize = 0;
    while k < n
        invariant
            n == line@.len(),
            k <= n,
            cut_from(line@, 0) == cut_from(line@, k as int),
        decreases n - k,
    {
        if k + 1 < n && line.get_char(k) == ' ' && line.get_char(k + 1) == '#' {
            return k;
        }
        k = k + 1;
    }
    k
}

/// Drops every comment line of `text` and cuts inline comments off the
/// other lines, keeping everything else, blank lines included, in order.
pub fn strip_comments(text: &str) -> (r: String)
    ensures
        r@ == stripped(text@),
{
    let n = text.unicode_len();
    let mut out = String::new();
    let mut i: usize = 0;
    while i < n
        invariant
            n == text@.len(),
            i <= n,
            stripped(text@) == out@ + stripped_from(text@, i as int),
        decreases n - i,
    {
        let mut e: usize = i;
        while e < n && text.get_char(e) != '\n'
            invariant
                n == text@.len(),
                i <= e <= n,
                line_end(text@, i as int) == line_end(text@, e as int),
            decreases n - e,
        {
            e = e + 1;
        }
        let line = text.substring_char(i, e);
        let ghost rest = stripped_from(text@, e + 1);
        let ghost before = out@;
        if !comment_line(line) {
            let cut = inline_comment_start(line);
            proof {
                lemma_cut_from(line@, 0);
            }
            out.append(line.substring_char(0, cut));
            if e < n {
                out.append("\n");
                proof {
                    reveal_strlit("\n");
                }
            }
        }
        proof {
            assert(line@ == text@.subrange(i as int, e as int));
            if e < n {
                assert(out@ + rest =~= before + (kept_line(line@, true) + rest));
            } else {
                assert(out@ =~= before + kept_line(line@, false));
            }
        }
        if e < n {
            i = e + 1;
        } else {
            i = n;
        }
    }
    out
}

} // verus!
