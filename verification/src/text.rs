//! Substring substitution on character sequences.

use vstd::prelude::*;

verus! {

/// Whether `text` begins with `pattern`.
pub open spec fn starts_with(text: Seq<char>, pattern: Seq<char>) -> bool {
    pattern.len() <= text.len() && text.subrange(0, pattern.len() as int) == pattern
}

/// Whether `text` ends with `pattern`.
pub open spec fn ends_with(text: Seq<char>, pattern: Seq<char>) -> bool {
    pattern.len() <= text.len() && text.subrange(text.len() - pattern.len(), text.len() as int)
        == pattern
}

/// Whether `pattern` stands in `text` at position `at`.
pub open spec fn matches_at(text: Seq<char>, pattern: Seq<char>, at: int) -> bool {
    0 <= at && at + pattern.len() <= text.len() && text.subrange(at, at + pattern.len())
        == pattern
}

/// Whether `pattern` stands somewhere in `text`.
pub open spec fn occurs_in(text: Seq<char>, pattern: Seq<char>) -> bool {
    exists|at: int| matches_at(text, pattern, at)
}

/// Whether no character of `a` is a character of `b`.
pub open spec fn share_no_char(a: Seq<char>, b: Seq<char>) -> bool {
    forall|i: int, j: int| 0 <= i < a.len() && 0 <= j < b.len() ==> a[i] != b[j]
}

/// `text` with every occurrence of `pattern` replaced by `replacement`.
/// Occurrences are found from the left and do not overlap: after one is
/// replaced the search goes on behind it. An empty pattern occurs nowhere.
pub open spec fn substitute(text: Seq<char>, pattern: Seq<char>, replacement: Seq<char>) -> Seq<
    char,
>
    decreases text.len(),
{
    if pattern.len() == 0 || text.len() < pattern.len() {
        text
    } else if starts_with(text, pattern) {
        replacement + substitute(
            text.subrange(pattern.len() as int, text.len() as int),
            pattern,
            replacement,
        )
    } else {
        seq![text[0]] + substitute(text.subrange(1, text.len() as int), pattern, replacement)
    }
}

/// The characters of `text`, one by one.
fn chars_of(text: &str) -> (chars: Vec<char>)
    ensures
        chars@ == text@,
{
    let mut chars: Vec<char> = Vec::new();
    for c in it: text.chars()
        invariant
            it.seq() == text@,
            chars@ == text@.subrange(0, it.index() as int),
    {
        chars.push(c);
    }
    chars
}

/// Whether `pattern` stands in `text` at position `at`.
fn occurs_at(text: &Vec<char>, at: usize, pattern: &Vec<char>) -> (found: bool)
    requires
        at + pattern@.len() <= text@.len(),
    ensures
        found == (text@.subrange(at as int, at + pattern@.len()) == pattern@),
{
    let n = text.len();
    let m = pattern.len();
    let mut k: usize = 0;
    while k < m
        invariant
            m == pattern@.len(),
            n == text@.len(),
            at + m <= n,
            k <= m,
            forall|j: int| 0 <= j < k ==> text@[at + j] == pattern@[j],
        decreases m - k,
    {
        if text[at + k] != pattern[k] {
            assert(text@.subrange(at as int, at + m)[k as int] != pattern@[k as int]);
            return false;
        }
        k = k + 1;
    }
    assert(text@.subrange(at as int, at + m) =~= pattern@);
    true
}

/// `text` with every occurrence of `pattern` replaced by `replacement`,
/// found from the left and without overlap. With an empty pattern the text
/// comes back as it is.
pub fn replace_all(text: &str, pattern: &str, replacement: &str) -> (out: String)
    ensures
        out@ == substitute(text@, pattern@, replacement@),
{
    let chars = chars_of(text);
    let pat = chars_of(pattern);
    let n = chars.len();
    let m = pat.len();
    if m == 0 || n < m {
        return String::from_str(text);
    }
    let mut out = String::new();
    let mut copied: usize = 0;
    let mut at: usize = 0;
    assert(text@.subrange(0, n as int) =~= text@);
    while at <= n - m
        invariant
            chars@ == text@,
            pat@ == pattern@,
            n == text@.len(),
            m == pattern@.len(),
            0 < m <= n,
            copied <= at <= n,
            substitute(text@, pattern@, replacement@) == out@ + text@.subrange(
                copied as int,
                at as int,
            ) + substitute(text@.subrange(at as int, n as int), pattern@, replacement@),
        decreases n - at,
    {
        let ghost rest = text@.subrange(at as int, n as int);
        if occurs_at(&chars, at, &pat) {
            assert(rest.subrange(0, m as int) =~= text@.subrange(at as int, at + m));
            assert(rest.subrange(m as int, rest.len() as int) =~= text@.subrange(
                at + m,
                n as int,
            ));
            out.append(text.substring_char(copied, at));
            out.append(replacement);
            at = at + m;
            copied = at;
            assert(text@.subrange(copied as int, at as int) =~= Seq::<char>::empty());
        } else {
            assert(rest.subrange(0, m as int) =~= text@.subrange(at as int, at + m));
            assert(rest.subrange(1, rest.len() as int) =~= text@.subrange(at + 1, n as int));
            assert(text@.subrange(copied as int, at as int) + seq![rest[0]] =~= text@.subrange(
                copied as int,
                at + 1,
            ));
            at = at + 1;
        }
    }
    assert(text@.subrange(copied as int, at as int) + text@.subrange(at as int, n as int)
        =~= text@.subrange(copied as int, n as int));
    out.append(text.substring_char(copied, n));
    out
}

/// A text in which the pattern does not occur is left as it is.
pub proof fn lemma_substitute_without_occurrence(
    text: Seq<char>,
    pattern: Seq<char>,
    replacement: Seq<char>,
)
    requires
        !occurs_in(text, pattern),
    ensures
        substitute(text, pattern, replacement) == text,
    decreases text.len(),
{
    if pattern.len() > 0 && text.len() >= pattern.len() {
        let rest = text.subrange(1, text.len() as int);
        assert(!matches_at(text, pattern, 0));
        assert forall|at: int| !matches_at(rest, pattern, at) by {
            if matches_at(rest, pattern, at) {
                assert(rest.subrange(at, at + pattern.len()) =~= text.subrange(
                    at + 1,
                    at + 1 + pattern.len(),
                ));
                assert(matches_at(text, pattern, at + 1));
            }
        }
        lemma_substitute_without_occurrence(rest, pattern, replacement);
        assert(seq![text[0]] + rest =~= text);
    }
}

/// Up to the first occurrence of the pattern the text is kept, the
/// occurrence gives way to the replacement, and the substitution goes on
/// behind it.
pub proof fn lemma_substitute_first_occurrence(
    before: Seq<char>,
    after: Seq<char>,
    pattern: Seq<char>,
    replacement: Seq<char>,
)
    requires
        pattern.len() > 0,
        forall|at: int| 0 <= at < before.len() ==> !matches_at(before + pattern + after, pattern, at),
    ensures
        substitute(before + pattern + after, pattern, replacement) == before + replacement
            + substitute(after, pattern, replacement),
    decreases before.len(),
{
    let text = before + pattern + after;
    let m = pattern.len() as int;
    if before.len() == 0 {
        assert(text.subrange(0, m) =~= pattern);
        assert(text.subrange(m, text.len() as int) =~= after);
        assert(replacement + substitute(after, pattern, replacement) =~= before + replacement
            + substitute(after, pattern, replacement));
    } else {
        let shorter = before.subrange(1, before.len() as int);
        let rest = text.subrange(1, text.len() as int);
        assert(rest =~= shorter + pattern + after);
        assert(!matches_at(text, pattern, 0));
        assert forall|at: int| 0 <= at < shorter.len() implies !matches_at(
            shorter + pattern + after,
            pattern,
            at,
        ) by {
            if matches_at(rest, pattern, at) {
                assert(rest.subrange(at, at + m) =~= text.subrange(at + 1, at + 1 + m));
                assert(matches_at(text, pattern, at + 1));
            }
        }
        lemma_substitute_first_occurrence(shorter, after, pattern, replacement);
        assert(seq![text[0]] + (shorter + replacement + substitute(after, pattern, replacement))
            =~= before + replacement + substitute(after, pattern, replacement));
    }
}

/// As long as the result of a substitution does not show the first character
/// of the replacement, it repeats the text character by character.
proof fn lemma_prefix_copied(
    text: Seq<char>,
    pattern: Seq<char>,
    replacement: Seq<char>,
    k: int,
)
    requires
        pattern.len() > 0,
        replacement.len() > 0,
        0 <= k <= substitute(text, pattern, replacement).len(),
        forall|j: int| 0 <= j < k ==> substitute(text, pattern, replacement)[j] != replacement[0],
    ensures
        k <= text.len(),
        text.subrange(0, k) == substitute(text, pattern, replacement).subrange(0, k),
    decreases text.len(),
{
    let result = substitute(text, pattern, replacement);
    if k == 0 {
        assert(text.subrange(0, 0) =~= result.subrange(0, 0));
    } else if text.len() >= pattern.len() {
        if starts_with(text, pattern) {
            assert(result[0] == replacement[0]);
        } else {
            let rest = text.subrange(1, text.len() as int);
            let tail = substitute(rest, pattern, replacement);
            assert(result == seq![text[0]] + tail);
            assert forall|j: int| 0 <= j < k - 1 implies tail[j] != replacement[0] by {
                assert(result[j + 1] == tail[j]);
            }
            lemma_prefix_copied(rest, pattern, replacement, k - 1);
            assert(text.subrange(0, k) =~= result.subrange(0, k)) by {
                assert forall|j: int| 0 <= j < k implies text[j] == result[j] by {
                    if j > 0 {
                        assert(rest.subrange(0, k - 1)[j - 1] == tail.subrange(0, k - 1)[j - 1]);
                    }
                }
            }
        }
    }
}

/// Where pattern and replacement share no character and the replacement is
/// not empty, the pattern does not occur in the result of a substitution.
pub proof fn lemma_substitute_removes_pattern(
    text: Seq<char>,
    pattern: Seq<char>,
    replacement: Seq<char>,
)
    requires
        pattern.len() > 0,
        replacement.len() > 0,
        share_no_char(pattern, replacement),
    ensures
        !occurs_in(substitute(text, pattern, replacement), pattern),
    decreases text.len(),
{
    let m = pattern.len() as int;
    let result = substitute(text, pattern, replacement);
    assert forall|at: int| !matches_at(result, pattern, at) by {
        if matches_at(result, pattern, at) {
            assert(result.subrange(at, at + m)[0] == pattern[0]);
            if text.len() < m {
            } else if starts_with(text, pattern) {
                let rest = text.subrange(m, text.len() as int);
                let tail = substitute(rest, pattern, replacement);
                lemma_substitute_removes_pattern(rest, pattern, replacement);
                if at < replacement.len() {
                    assert(result[at] == replacement[at]);
                } else {
                    assert(result.subrange(at, at + m) =~= tail.subrange(
                        at - replacement.len(),
                        at - replacement.len() + m,
                    ));
                    assert(matches_at(tail, pattern, at - replacement.len()));
                }
            } else {
                let rest = text.subrange(1, text.len() as int);
                let tail = substitute(rest, pattern, replacement);
                lemma_substitute_removes_pattern(rest, pattern, replacement);
                if at == 0 {
                    assert forall|j: int| 0 <= j < m - 1 implies tail[j] != replacement[0] by {
                        assert(result.subrange(0, m)[j + 1] == pattern[j + 1]);
                        assert(result[j + 1] == tail[j]);
                    }
                    lemma_prefix_copied(rest, pattern, replacement, m - 1);
                    assert(text.subrange(0, m) =~= pattern) by {
                        assert forall|j: int| 0 <= j < m implies text[j] == pattern[j] by {
                            assert(result.subrange(0, m)[j] == pattern[j]);
                            if j > 0 {
                                assert(rest.subrange(0, m - 1)[j - 1] == tail.subrange(
                                    0,
                                    m - 1,
                                )[j - 1]);
                                assert(result[j] == tail[j - 1]);
                            }
                        }
                    }
                } else {
                    assert(result.subrange(at, at + m) =~= tail.subrange(at - 1, at - 1 + m));
                    assert(matches_at(tail, pattern, at - 1));
                }
            }
        }
    }
}

/// Where pattern and replacement share no character and the replacement is
/// not empty, substituting a second time changes nothing.
pub proof fn lemma_substitute_idempotent(
    text: Seq<char>,
    pattern: Seq<char>,
    replacement: Seq<char>,
)
    requires
        pattern.len() > 0,
        replacement.len() > 0,
        share_no_char(pattern, replacement),
    ensures
        substitute(substitute(text, pattern, replacement), pattern, replacement) == substitute(
            text,
            pattern,
            replacement,
        ),
{
    lemma_substitute_removes_pattern(text, pattern, replacement);
    lemma_substitute_without_occurrence(
        substitute(text, pattern, replacement),
        pattern,
        replacement,
    );
}

} // verus!
