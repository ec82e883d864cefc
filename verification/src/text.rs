//! Reading what a user typed at a prompt: trimming white space and reading a
//! menu number.
use vstd::prelude::*;

verus! {

/// The characters with the Unicode `White_Space` property, which `str::trim` removes.
pub open spec fn is_white_space(c: char) -> bool {
    let v = c as u32;
    ||| 0x9 <= v <= 0xD
    ||| v == 0x20
    ||| v == 0x85
    ||| v == 0xA0
    ||| v == 0x1680
    ||| 0x2000 <= v <= 0x200A
    ||| v == 0x2028
    ||| v == 0x2029
    ||| v == 0x202F
    ||| v == 0x205F
    ||| v == 0x3000
}

/// `s` without its leading white space.
pub open spec fn trim_start(s: Seq<char>) -> Seq<char>
    decreases s.len(),
{
    if s.len() > 0 && is_white_space(s[0]) {
        trim_start(s.drop_first())
    } else {
        s
    }
}

/// `s` without its trailing white space.
pub open spec fn trim_end(s: Seq<char>) -> Seq<char>
    decreases s.len(),
{
    if s.len() > 0 && is_white_space(s.last()) {
        trim_end(s.drop_last())
    } else {
        s
    }
}

/// `s` without leading and trailing white space.
pub open spec fn trimmed(s: Seq<char>) -> Seq<char> {
    trim_end(trim_start(s))
}

/// Whether `c` has the `White_Space` property.
pub fn is_white_space_char(c: char) -> (b: bool)
    ensures
        b == is_white_space(c),
{
    let v = c as u32;
    (0x9 <= v && v <= 0xD) || v == 0x20 || v == 0x85 || v == 0xA0 || v == 0x1680 || (0x2000
        <= v && v <= 0x200A) || v == 0x2028 || v == 0x2029 || v == 0x202F || v == 0x205F || v
        == 0x3000
}

proof fn lemma_trim_start_step(s: Seq<char>, i: int)
    requires
        0 <= i < s.len(),
        is_white_space(s[i]),
    ensures
        trim_start(s.subrange(i, s.len() as int)) == trim_start(s.subrange(i + 1, s.len() as int)),
{
    let t = s.subrange(i, s.len() as int);
    assert(t.drop_first() =~= s.subrange(i + 1, s.len() as int));
}

proof fn lemma_trim_end_step(s: Seq<char>, i: int, j: int)
    requires
        0 <= i < j <= s.len(),
        is_white_space(s[j - 1]),
    ensures
        trim_end(s.subrange(i, j)) == trim_end(s.subrange(i, j - 1)),
{
    let t = s.subrange(i, j);
    assert(t.drop_last() =~= s.subrange(i, j - 1));
}

/// Removes leading and trailing white space, as `str::trim` does.
pub fn trim(s: &str) -> (res: String)
    ensures
        res@ == trimmed(s@),
{
    let n = s.unicode_len();
    let mut i: usize = 0;
    assert(s@.subrange(0, n as int) =~= s@);
    while i < n && is_white_space_char(s.get_char(i))
        invariant
            n == s@.len(),
            i <= n,
            trim_start(s@) == trim_start(s@.subrange(i as int, n as int)),
        decreases n - i,
    {
        proof {
            lemma_trim_start_step(s@, i as int);
        }
        i = i + 1;
    }
    let ghost rest = s@.subrange(i as int, n as int);
    assert(trim_start(s@) == rest) by {
        if i < n {
            assert(rest[0] == s@[i as int]);
        }
    }
    let mut j: usize = n;
    assert(s@.subrange(i as int, j as int) =~= rest);
    while j > i && is_white_space_char(s.get_char(j - 1))
        invariant
            n == s@.len(),
            i <= j <= n,
            rest == s@.subrange(i as int, n as int),
            trim_end(rest) == trim_end(s@.subrange(i as int, j as int)),
        decreases j,
    {
        proof {
            lemma_trim_end_step(s@, i as int, j as int);
        }
        j = j - 1;
    }
    proof {
        let t = s@.subrange(i as int, j as int);
        if j > i {
            assert(t.last() == s@[j - 1]);
        }
        assert(trim_end(t) == t);
    }
    let r = s.substring_char(i, j);
    r.to_string()
}

/// The ASCII white space: tab, line feed, vertical tab, form feed, carriage
/// return and space.
pub open spec fn is_ascii_space(c: char) -> bool {
    c == '\t' || c == '\n' || c == '\u{B}' || c == '\u{C}' || c == '\r' || c == ' '
}

/// Whether every char of `w` is ASCII white space.
pub open spec fn all_ascii_space(w: Seq<char>) -> bool {
    forall|i: int| 0 <= i < w.len() ==> is_ascii_space(#[trigger] w[i])
}

proof fn lemma_ascii_space_is_white_space(c: char)
    requires
        is_ascii_space(c),
    ensures
        is_white_space(c),
{
}

proof fn lemma_trim_end_drops_space(t: Seq<char>, w: Seq<char>)
    requires
        all_ascii_space(w),
    ensures
        trim_end(t + w) == trim_end(t),
    decreases w.len(),
{
    if w.len() == 0 {
        assert(t + w =~= t);
    } else {
        let tw = t + w;
        assert(tw.last() == w.last());
        lemma_ascii_space_is_white_space(w[w.len() - 1]);
        assert(tw.drop_last() =~= t + w.drop_last());
        lemma_trim_end_drops_space(t, w.drop_last());
    }
}

proof fn lemma_trim_start_drops_space(w: Seq<char>, t: Seq<char>)
    requires
        all_ascii_space(w),
    ensures
        trim_start(w + t) == trim_start(t),
    decreases w.len(),
{
    if w.len() == 0 {
        assert(w + t =~= t);
    } else {
        lemma_ascii_space_is_white_space(w[0]);
        assert((w + t)[0] == w[0]);
        assert((w + t).drop_first() =~= w.drop_first() + t);
        lemma_trim_start_drops_space(w.drop_first(), t);
    }
}

proof fn lemma_trim_start_of_space(w: Seq<char>)
    requires
        all_ascii_space(w),
    ensures
        trim_start(w).len() == 0,
{
    lemma_trim_start_drops_space(w, Seq::empty());
    assert(w + Seq::<char>::empty() =~= w);
}

proof fn lemma_trim_start_append(s: Seq<char>, w: Seq<char>)
    requires
        all_ascii_space(w),
    ensures
        trim_start(s).len() > 0 ==> trim_start(s + w) == trim_start(s) + w,
        trim_start(s).len() == 0 ==> trim_start(s + w).len() == 0,
    decreases s.len(),
{
    if s.len() == 0 {
        assert(s + w =~= w);
        lemma_trim_start_of_space(w);
    } else if is_white_space(s[0]) {
        assert((s + w)[0] == s[0]);
        assert((s + w).drop_first() =~= s.drop_first() + w);
        lemma_trim_start_append(s.drop_first(), w);
    } else {
        assert((s + w)[0] == s[0]);
    }
}

/// Trimming ignores ASCII white space around the text: a line read with its
/// `\r\n` (or `\n`) ending, or with spaces and tabs before it, trims to the same
/// text as without them.
pub proof fn trim_ignores_surrounding_space(s: Seq<char>, before: Seq<char>, after: Seq<char>)
    requires
        all_ascii_space(before),
        all_ascii_space(after),
    ensures
        trimmed(before + s + after) == trimmed(s),
{
    lemma_trim_start_drops_space(before, s + after);
    assert(before + s + after =~= before + (s + after));
    lemma_trim_start_append(s, after);
    if trim_start(s).len() > 0 {
        lemma_trim_end_drops_space(trim_start(s), after);
    } else {
        assert(trim_start(s) =~= Seq::<char>::empty());
        assert(trim_start(s + after) =~= Seq::<char>::empty());
    }
}

/// A line ending, `\r\n` as a Windows console gives it or `\n`, never reaches the trimmed text.
pub proof fn trim_drops_line_endings(s: Seq<char>)
    ensures
        trimmed(s + seq!['\r', '\n']) == trimmed(s),
        trimmed(s + seq!['\n']) == trimmed(s),
{
    let e = Seq::<char>::empty();
    assert(all_ascii_space(e));
    assert(all_ascii_space(seq!['\r', '\n']));
    assert(all_ascii_space(seq!['\n']));
    trim_ignores_surrounding_space(s, e, seq!['\r', '\n']);
    trim_ignores_surrounding_space(s, e, seq!['\n']);
    assert(e + s =~= s);
}

/// The trimmed text starts and ends with no white space, and is what lies
/// between white space removed from the front and white space removed from the back.
pub proof fn trimmed_is_inner_text(s: Seq<char>)
    ensures
        trimmed(s).len() > 0 ==> !is_white_space(trimmed(s)[0]) && !is_white_space(
            trimmed(s).last(),
        ),
        exists|a: int, b: int|
            0 <= a <= b <= s.len() && trimmed(s) == s.subrange(a, b) && (forall|i: int|
                0 <= i < a ==> is_white_space(#[trigger] s[i])) && (forall|i: int|
                b <= i < s.len() ==> is_white_space(#[trigger] s[i])),
{
    lemma_trim_start_shape(s);
    let a = s.len() - trim_start(s).len();
    lemma_trim_end_shape(trim_start(s));
    let t = trim_start(s);
    let b = a + trim_end(t).len();
    assert(trimmed(s) =~= s.subrange(a, b)) by {
        assert(t =~= s.subrange(a, s.len() as int));
        assert(trim_end(t) =~= t.subrange(0, trim_end(t).len() as int));
    }
    assert forall|i: int| b <= i < s.len() implies is_white_space(#[trigger] s[i]) by {
        assert(s[i] == t[i - a]);
    }
    if trimmed(s).len() > 0 {
        assert(trimmed(s)[0] == t[0]);
    }
}

proof fn lemma_trim_start_shape(s: Seq<char>)
    ensures
        trim_start(s).len() <= s.len(),
        trim_start(s) == s.subrange(s.len() - trim_start(s).len(), s.len() as int),
        forall|i: int| 0 <= i < s.len() - trim_start(s).len() ==> is_white_space(#[trigger] s[i]),
        trim_start(s).len() > 0 ==> !is_white_space(trim_start(s)[0]),
    decreases s.len(),
{
    if s.len() > 0 && is_white_space(s[0]) {
        lemma_trim_start_shape(s.drop_first());
        let r = trim_start(s.drop_first());
        assert(r =~= s.subrange(s.len() - r.len(), s.len() as int));
        assert forall|i: int| 0 <= i < s.len() - r.len() implies is_white_space(#[trigger] s[i]) by {
            if i > 0 {
                assert(s[i] == s.drop_first()[i - 1]);
            }
        }
    } else {
        assert(s =~= s.subrange(0, s.len() as int));
    }
}

proof fn lemma_trim_end_shape(s: Seq<char>)
    ensures
        trim_end(s).len() <= s.len(),
        trim_end(s) == s.subrange(0, trim_end(s).len() as int),
        forall|i: int| trim_end(s).len() <= i < s.len() ==> is_white_space(#[trigger] s[i]),
        trim_end(s).len() > 0 ==> !is_white_space(trim_end(s).last()),
    decreases s.len(),
{
    if s.len() > 0 && is_white_space(s.last()) {
        lemma_trim_end_shape(s.drop_last());
        let r = trim_end(s.drop_last());
        assert(r =~= s.subrange(0, r.len() as int));
        assert forall|i: int| r.len() <= i < s.len() implies is_white_space(#[trigger] s[i]) by {
            if i < s.len() - 1 {
                assert(s[i] == s.drop_last()[i]);
            }
        }
    } else {
        assert(s =~= s.subrange(0, s.len() as int));
    }
}

/// Whether `c` is an ASCII decimal digit.
pub open spec fn is_digit(c: char) -> bool {
    '0' <= c <= '9'
}

/// The number that the decimal digits `s` write.
pub open spec fn digits_value(s: Seq<char>) -> int
    decreases s.len(),
{
    if s.len() == 0 {
        0
    } else {
        digits_value(s.drop_last()) * 10 + (s.last() as int - '0' as int)
    }
}

/// Whether every char of `s` is a decimal digit.
pub open spec fn all_digits(s: Seq<char>) -> bool {
    forall|i: int| 0 <= i < s.len() ==> is_digit(#[trigger] s[i])
}

/// What `str::parse::<usize>` gives for `s`: an optional `+`, then at least one
/// decimal digit and nothing else, of a value that fits in a `usize`.
pub open spec fn parsed_usize(s: Seq<char>) -> Option<usize> {
    let d = if s.len() > 0 && s[0] == '+' {
        s.drop_first()
    } else {
        s
    };
    if d.len() > 0 && all_digits(d) && digits_value(d) <= usize::MAX {
        Some(digits_value(d) as usize)
    } else {
        None
    }
}

proof fn lemma_digits_value_monotone(s: Seq<char>, k: int)
    requires
        0 <= k <= s.len(),
        all_digits(s),
    ensures
        0 <= digits_value(s.take(k)) <= digits_value(s),
    decreases s.len(),
{
    if s.len() == 0 {
        assert(s.take(k) =~= s);
    } else if k == s.len() {
        assert(s.take(k) =~= s);
        lemma_digits_value_monotone(s.drop_last(), 0);
        assert(s.drop_last().take(0) =~= Seq::<char>::empty());
    } else {
        let p = s.drop_last();
        assert(all_digits(p)) by {
            assert forall|i: int| 0 <= i < p.len() implies is_digit(#[trigger] p[i]) by {
                assert(p[i] == s[i]);
            }
        }
        lemma_digits_value_monotone(p, k);
        assert(p.take(k) =~= s.take(k));
        assert(is_digit(s[s.len() - 1]));
    }
}

/// Reads a `usize` as `str::parse::<usize>` does.
pub fn parse_usize(s: &str) -> (res: Option<usize>)
    ensures
        res == parsed_usize(s@),
{
    let n = s.unicode_len();
    let mut start: usize = 0;
    if n > 0 && s.get_char(0) == '+' {
        start = 1;
    }
    let ghost d = if s@.len() > 0 && s@[0] == '+' {
        s@.drop_first()
    } else {
        s@
    };
    assert(d =~= s@.subrange(start as int, n as int));
    if start == n {
        return None;
    }
    let mut value: usize = 0;
    let mut i: usize = start;
    while i < n
        invariant
            n == s@.len(),
            start <= i <= n,
            d == s@.subrange(start as int, n as int),
            d == (if s@.len() > 0 && s@[0] == '+' {
                s@.drop_first()
            } else {
                s@
            }),
            all_digits(d.take(i - start)),
            value == digits_value(d.take(i - start)),
        decreases n - i,
    {
        let c = s.get_char(i);
        let ghost k = i - start;
        assert(d[k] == c);
        assert(d.take(k + 1).drop_last() =~= d.take(k));
        if c < '0' || c > '9' {
            assert(!all_digits(d)) by {
                assert(!is_digit(d[k]));
            }
            return None;
        }
        let digit = (c as u32 - '0' as u32) as usize;
        assert(all_digits(d.take(k + 1))) by {
            assert forall|j: int| 0 <= j < k + 1 implies is_digit(#[trigger] d.take(k + 1)[j]) by {
                if j < k {
                    assert(d.take(k + 1)[j] == d.take(k)[j]);
                }
            }
        }
        match value.checked_mul(10) {
            Some(m) => match m.checked_add(digit) {
                Some(v) => {
                    value = v;
                },
                None => {
                    proof {
                        lemma_overflow_rejects(d, k + 1);
                    }
                    return None;
                },
            },
            None => {
                proof {
                    assert(digits_value(d.take(k + 1)) >= value * 10);
                    lemma_overflow_rejects(d, k + 1);
                }
                return None;
            },
        }
        i = i + 1;
    }
    assert(d.take(n - start) =~= d);
    Some(value)
}

/// Once a prefix of digits is too large, the whole string does not parse.
proof fn lemma_overflow_rejects(d: Seq<char>, k: int)
    requires
        0 < k <= d.len(),
        all_digits(d.take(k)),
        digits_value(d.take(k)) > usize::MAX,
    ensures
        !(d.len() > 0 && all_digits(d) && digits_value(d) <= usize::MAX),
{
    if all_digits(d) {
        lemma_digits_value_monotone(d, k);
    }
}

/// A leading `+` does not change the number read.
pub proof fn parse_ignores_leading_plus(s: Seq<char>)
    requires
        s.len() > 0,
        s[0] != '+',
    ensures
        parsed_usize(seq!['+'] + s) == parsed_usize(s),
{
    assert((seq!['+'] + s).drop_first() =~= s);
}

/// A char that is not a decimal digit (other than one leading `+`) makes the
/// text no number.
pub proof fn parse_rejects_non_digits(s: Seq<char>, i: int)
    requires
        0 <= i < s.len(),
        !('0' <= s[i] <= '9'),
        !(i == 0 && s[i] == '+'),
    ensures
        parsed_usize(s) is None,
{
    if s.len() > 0 && s[0] == '+' {
        assert(s.drop_first()[i - 1] == s[i]);
    }
}

/// Appending a digit multiplies the number by ten and adds the digit, as long
/// as the result fits in a `usize`.
pub proof fn parse_appends_digit(s: Seq<char>, c: char, v: usize)
    requires
        parsed_usize(s) == Some(v),
        '0' <= c <= '9',
        v * 10 + (c as int - '0' as int) <= usize::MAX,
    ensures
        parsed_usize(s + seq![c]) == Some((v * 10 + (c as int - '0' as int)) as usize),
{
    let t = s + seq![c];
    if s.len() > 0 && s[0] == '+' {
        assert(t[0] == '+');
        let d = s.drop_first();
        assert(t.drop_first() =~= d + seq![c]);
        assert((d + seq![c]).drop_last() =~= d);
        assert((d + seq![c]).last() == c);
        assert(digits_value(d + seq![c]) == digits_value(d) * 10 + (c as int - '0' as int));
        assert(d.len() > 0 && all_digits(d) && digits_value(d) <= usize::MAX);
        lemma_digits_value_monotone(d, 0);
        assert(v == digits_value(d));
        assert forall|i: int| 0 <= i < (d + seq![c]).len() implies is_digit(
            #[trigger] (d + seq![c])[i],
        ) by {
            if i < d.len() {
                assert((d + seq![c])[i] == d[i]);
            }
        }
    } else {
        assert(t[0] == s[0]);
        assert(t.drop_last() =~= s);
        assert(t.last() == c);
        assert(digits_value(t) == digits_value(s) * 10 + (c as int - '0' as int));
        assert(s.len() > 0 && all_digits(s) && digits_value(s) <= usize::MAX);
        lemma_digits_value_monotone(s, 0);
        assert(v == digits_value(s));
        assert forall|i: int| 0 <= i < t.len() implies is_digit(#[trigger] t[i]) by {
            if i < s.len() {
                assert(t[i] == s[i]);
            }
        }
    }
}

} // verus!
