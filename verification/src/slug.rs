//! Folder-name components: lower-case ASCII letters and digits, joined by
//! single underscores.

use vstd::prelude::*;

verus! {

/// Whether `c` is an ASCII letter or digit.
pub open spec fn is_ascii_alphanumeric(c: char) -> bool {
    ('0' <= c && c <= '9') || ('a' <= c && c <= 'z') || ('A' <= c && c <= 'Z')
}

/// Whether `c` is one of the three characters that separate words: space,
/// hyphen and underscore.
pub open spec fn is_separator(c: char) -> bool {
    c == ' ' || c == '-' || c == '_'
}

/// `c` with an ASCII capital turned into its small letter.
pub open spec fn lowercase(c: char) -> char {
    if 'A' <= c && c <= 'Z' {
        ((c as int) + 32) as char
    } else {
        c
    }
}

/// Whether `c` may stand in a sanitized component: a small ASCII letter, a
/// digit or an underscore.
pub open spec fn is_slug_char(c: char) -> bool {
    ('0' <= c && c <= '9') || ('a' <= c && c <= 'z') || c == '_'
}

/// `s` without the characters that are neither ASCII letters or digits nor
/// separators; letters in lower case, each separator as an underscore.
pub open spec fn kept(s: Seq<char>) -> Seq<char>
    decreases s.len(),
{
    if s.len() == 0 {
        s
    } else if is_ascii_alphanumeric(s.last()) {
        kept(s.drop_last()).push(lowercase(s.last()))
    } else if is_separator(s.last()) {
        kept(s.drop_last()).push('_')
    } else {
        kept(s.drop_last())
    }
}

/// `s` with each run of underscores cut down to one: an underscore that
/// follows an underscore is left out.
pub open spec fn squeezed(s: Seq<char>) -> Seq<char>
    decreases s.len(),
{
    if s.len() == 0 {
        s
    } else if s.last() == '_' && s.len() >= 2 && s[s.len() - 2] == '_' {
        squeezed(s.drop_last())
    } else {
        squeezed(s.drop_last()).push(s.last())
    }
}

/// `s` without the underscores at its start.
pub open spec fn trimmed_start(s: Seq<char>) -> Seq<char>
    decreases s.len(),
{
    if s.len() > 0 && s[0] == '_' {
        trimmed_start(s.drop_first())
    } else {
        s
    }
}

/// `s` without the underscores at its end.
pub open spec fn trimmed_end(s: Seq<char>) -> Seq<char>
    decreases s.len(),
{
    if s.len() > 0 && s.last() == '_' {
        trimmed_end(s.drop_last())
    } else {
        s
    }
}

/// The sanitized form of `s`: what is kept of it, runs of underscores cut
/// down to one, and no underscore at either end.
pub open spec fn sanitized(s: Seq<char>) -> Seq<char> {
    trimmed_end(trimmed_start(squeezed(kept(s))))
}

/// Whether no underscore in `s` follows another.
pub open spec fn no_double_underscore(s: Seq<char>) -> bool {
    forall|i: int| 0 < i < s.len() ==> !(s[i - 1] == '_' && #[trigger] s[i] == '_')
}

/// Whether `s` is in sanitized form: made of small ASCII letters, digits and
/// underscores, with no underscore next to another or at either end.
pub open spec fn is_slug(s: Seq<char>) -> bool {
    &&& forall|i: int| 0 <= i < s.len() ==> is_slug_char(#[trigger] s[i])
    &&& no_double_underscore(s)
    &&& s.len() > 0 ==> s[0] != '_' && s.last() != '_'
}

/// The small letter of an ASCII capital lies 32 places after it; lowering an
/// ASCII letter or digit gives a slug character, and changes none.
proof fn lemma_lowercase(c: char)
    ensures
        'A' <= c && c <= 'Z' ==> 'a' <= lowercase(c) && lowercase(c) <= 'z' && lowercase(c) as int
            == c as int + 32,
        is_ascii_alphanumeric(c) ==> is_slug_char(lowercase(c)),
        is_slug_char(c) ==> lowercase(c) == c,
{
}

/// What is kept of a text is made of slug characters.
proof fn lemma_kept_chars(s: Seq<char>)
    ensures
        forall|i: int| 0 <= i < kept(s).len() ==> is_slug_char(#[trigger] kept(s)[i]),
    decreases s.len(),
{
    if s.len() > 0 {
        let head = kept(s.drop_last());
        lemma_kept_chars(s.drop_last());
        lemma_lowercase(s.last());
        assert forall|i: int| 0 <= i < kept(s).len() implies is_slug_char(
            #[trigger] kept(s)[i],
        ) by {
            if i < head.len() {
                assert(kept(s)[i] == head[i]);
            }
        }
    }
}

/// Squeezing keeps the last character, leaves no underscore next to another
/// and brings in no character that was not there.
proof fn lemma_squeezed(s: Seq<char>)
    ensures
        squeezed(s).len() <= s.len(),
        s.len() > 0 ==> squeezed(s).len() > 0 && squeezed(s).last() == s.last(),
        no_double_underscore(squeezed(s)),
        (forall|i: int| 0 <= i < s.len() ==> is_slug_char(#[trigger] s[i])) ==> (forall|i: int|
            0 <= i < squeezed(s).len() ==> is_slug_char(#[trigger] squeezed(s)[i])),
    decreases s.len(),
{
    if s.len() > 0 {
        let head = s.drop_last();
        lemma_squeezed(head);
        assert(forall|i: int| 0 <= i < head.len() ==> head[i] == s[i]);
    }
}

/// With no underscore next to another, at most one stands at the start, and
/// trimming the start drops just that one.
proof fn lemma_trimmed_start(s: Seq<char>)
    requires
        no_double_underscore(s),
    ensures
        trimmed_start(s) == if s.len() > 0 && s[0] == '_' {
            s.drop_first()
        } else {
            s
        },
{
    reveal_with_fuel(trimmed_start, 2);
    if s.len() > 0 && s[0] == '_' {
        let rest = s.drop_first();
        if rest.len() > 0 {
            assert(rest[0] == s[1]);
        }
    }
}

/// With no underscore next to another, at most one stands at the end, and
/// trimming the end drops just that one.
proof fn lemma_trimmed_end(s: Seq<char>)
    requires
        no_double_underscore(s),
    ensures
        trimmed_end(s) == if s.len() > 0 && s.last() == '_' {
            s.drop_last()
        } else {
            s
        },
{
    reveal_with_fuel(trimmed_end, 2);
    if s.len() > 0 && s.last() == '_' {
        let rest = s.drop_last();
        if rest.len() > 0 {
            assert(rest.last() == s[s.len() - 2]);
            assert(!(s[s.len() - 2] == '_' && s[s.len() - 1] == '_'));
        }
    }
}

/// The part of `s` that trimming leaves, for a text with no underscore next
/// to another: from `start` up to `end`.
proof fn lemma_trimmed_range(s: Seq<char>) -> (range: (int, int))
    requires
        no_double_underscore(s),
    ensures
        0 <= range.0 <= range.1 <= s.len(),
        range.0 == if s.len() > 0 && s[0] == '_' {
            1int
        } else {
            0
        },
        range.1 == if s.len() > range.0 && s.last() == '_' {
            s.len() - 1
        } else {
            s.len() as int
        },
        trimmed_end(trimmed_start(s)) == s.subrange(range.0, range.1),
{
    lemma_trimmed_start(s);
    let start = if s.len() > 0 && s[0] == '_' {
        1int
    } else {
        0
    };
    let mid = trimmed_start(s);
    assert(mid =~= s.subrange(start, s.len() as int));
    assert forall|i: int| 0 < i < mid.len() implies !(mid[i - 1] == '_' && #[trigger] mid[i]
        == '_') by {
        assert(mid[i] == s[i + start]);
        assert(mid[i - 1] == s[i + start - 1]);
    }
    lemma_trimmed_end(mid);
    let end = if s.len() > start && s.last() == '_' {
        s.len() - 1
    } else {
        s.len() as int
    };
    assert(trimmed_end(mid) =~= s.subrange(start, end));
    (start, end)
}

/// Tells whether `c` is an ASCII letter or digit.
pub fn ascii_alphanumeric(c: char) -> (yes: bool)
    ensures
        yes == is_ascii_alphanumeric(c),
{
    (c >= '0' && c <= '9') || (c >= 'a' && c <= 'z') || (c >= 'A' && c <= 'Z')
}

/// Tells whether `c` is a space, a hyphen or an underscore.
pub fn separator(c: char) -> (yes: bool)
    ensures
        yes == is_separator(c),
{
    c == ' ' || c == '-' || c == '_'
}

/// Turns an ASCII capital into its small letter and leaves any other
/// character as it is.
pub fn ascii_lowercase(c: char) -> (low: char)
    ensures
        low == lowercase(c),
{
    if c >= 'A' && c <= 'Z' {
        let code: u8 = c as u8;
        (code + 32) as char
    } else {
        c
    }
}

/// Makes a folder-name component of `s`: ASCII letters and digits are kept,
/// in lower case; spaces, hyphens and underscores become underscores, a run
/// of them a single one, and none stays at either end; every other character
/// is dropped.
pub fn sanitize_component(s: &str) -> (out: String)
    ensures
        out@ == sanitized(s@),
        is_slug(out@),
{
    let mut buf: Vec<char> = Vec::new();
    for c in it: s.chars()
        invariant
            it.seq() == s@,
            buf@ == squeezed(kept(s@.take(it.index()))),
    {
        let ghost before = s@.take(it.index());
        let ghost after = s@.take(it.index() + 1);
        proof {
            assert(after.drop_last() =~= before);
            assert(after.last() == c);
            lemma_squeezed(kept(before));
        }
        if ascii_alphanumeric(c) {
            buf.push(ascii_lowercase(c));
            proof {
                lemma_lowercase(c);
                assert(kept(after).drop_last() =~= kept(before));
            }
        } else if separator(c) {
            let n = buf.len();
            if !(n > 0 && buf[n - 1] == '_') {
                buf.push('_');
            }
            proof {
                assert(kept(after).drop_last() =~= kept(before));
            }
        }
    }
    assert(s@.take(s@.len() as int) =~= s@);
    proof {
        lemma_squeezed(kept(s@));
        lemma_trimmed_range(buf@);
        lemma_sanitized_is_slug(s@);
    }
    let n = buf.len();
    let start: usize = if n > 0 && buf[0] == '_' {
        1
    } else {
        0
    };
    let end: usize = if n > start && buf[n - 1] == '_' {
        n - 1
    } else {
        n
    };
    let mut out = String::new();
    let mut i: usize = start;
    while i < end
        invariant
            start <= i <= end <= buf.len(),
            out@ == buf@.subrange(start as int, i as int),
        decreases end - i,
    {
        out.push(buf[i]);
        i = i + 1;
        assert(out@ =~= buf@.subrange(start as int, i as int));
    }
    out
}

/// The sanitized form of any text is a slug.
pub proof fn lemma_sanitized_is_slug(s: Seq<char>)
    ensures
        is_slug(sanitized(s)),
{
    let k = kept(s);
    let q = squeezed(k);
    lemma_kept_chars(s);
    lemma_squeezed(k);
    let (start, end) = lemma_trimmed_range(q);
    let r = sanitized(s);
    assert(r == q.subrange(start, end));
    assert forall|i: int| 0 <= i < r.len() implies is_slug_char(#[trigger] r[i]) by {
        assert(r[i] == q[i + start]);
    }
    assert forall|i: int| 0 < i < r.len() implies !(r[i - 1] == '_' && #[trigger] r[i]
        == '_') by {
        assert(r[i] == q[i + start]);
        assert(r[i - 1] == q[i + start - 1]);
    }
    if r.len() > 0 {
        assert(r[0] == q[start]);
        assert(r.last() == q[end - 1]);
        if start == 1 {
            assert(!(q[0] == '_' && q[1] == '_'));
        }
        if end == q.len() - 1 {
            assert(!(q[end - 1] == '_' && q[end] == '_'));
        }
    }
}

/// All of a text made of slug characters is kept.
proof fn lemma_kept_fixed(s: Seq<char>)
    requires
        forall|i: int| 0 <= i < s.len() ==> is_slug_char(#[trigger] s[i]),
    ensures
        kept(s) == s,
    decreases s.len(),
{
    if s.len() > 0 {
        let head = s.drop_last();
        assert(forall|i: int| 0 <= i < head.len() ==> head[i] == s[i]);
        lemma_kept_fixed(head);
        assert(is_slug_char(s.last()));
        assert(head.push(s.last()) =~= s);
    }
}

/// Squeezing changes nothing in a text with no underscore next to another.
proof fn lemma_squeezed_fixed(s: Seq<char>)
    requires
        no_double_underscore(s),
    ensures
        squeezed(s) == s,
    decreases s.len(),
{
    if s.len() > 0 {
        let head = s.drop_last();
        assert forall|i: int| 0 < i < head.len() implies !(head[i - 1] == '_'
            && #[trigger] head[i] == '_') by {
            assert(head[i] == s[i]);
            assert(head[i - 1] == s[i - 1]);
        }
        lemma_squeezed_fixed(head);
        if s.len() >= 2 {
            assert(!(s[s.len() - 2] == '_' && s[s.len() - 1] == '_'));
        }
        assert(head.push(s.last()) =~= s);
    }
}

/// Sanitizing leaves a slug as it is.
pub proof fn lemma_slug_is_fixed(s: Seq<char>)
    requires
        is_slug(s),
    ensures
        sanitized(s) == s,
{
    lemma_kept_fixed(s);
    lemma_squeezed_fixed(s);
}

/// Sanitizing is idempotent: sanitizing a sanitized text changes nothing.
pub proof fn lemma_sanitize_idempotent(s: Seq<char>)
    ensures
        sanitized(sanitized(s)) == sanitized(s),
{
    lemma_sanitized_is_slug(s);
    lemma_slug_is_fixed(sanitized(s));
}

} // verus!
