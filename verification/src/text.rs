//! Character-level text helpers: Unicode whitespace, trimming, decimal
//! rendering and substring replacement.
use vstd::prelude::*;

verus! {

/// `char::is_whitespace`: the characters with the Unicode `White_Space` property.
pub open spec fn is_white_space(c: char) -> bool {
    let n = c as u32;
    ||| 0x9 <= n <= 0xd
    ||| n == 0x20
    ||| n == 0x85
    ||| n == 0xa0
    ||| n == 0x1680
    ||| 0x2000 <= n <= 0x200a
    ||| n == 0x2028
    ||| n == 0x2029
    ||| n == 0x202f
    ||| n == 0x205f
    ||| n == 0x3000
}

/// Whether every character of `s` is whitespace (`s.trim().is_empty()`).
pub open spec fn is_blank(s: Seq<char>) -> bool {
    forall|i: int| 0 <= i < s.len() ==> is_white_space(#[trigger] s[i])
}

pub fn char_is_white_space(c: char) -> (r: bool)
    ensures
        r == is_white_space(c),
{
    let n = c as u32;
    (0x9 <= n && n <= 0xd) || n == 0x20 || n == 0x85 || n == 0xa0 || n == 0x1680 || (0x2000 <= n
        && n <= 0x200a) || n == 0x2028 || n == 0x2029 || n == 0x202f || n == 0x205f || n == 0x3000
}

/// The characters of `s`, in order.
pub fn chars_of(s: &str) -> (v: Vec<char>)
    ensures
        v@ == s@,
{
    let mut v: Vec<char> = Vec::new();
    for c in it: s.chars()
        invariant
            v@ == it.seq().take(it.index() as int),
    {
        v.push(c);
    }
    v
}


/// `String::push`: appends one character to the string.
#[verifier::external_body]
pub(crate) fn push_char(s: &mut String, c: char)
    ensures
        final(s)@ == old(s)@.push(c),
{
    s.push(c);
}

/// The ASCII character of a decimal digit.
pub open spec fn digit_char(d: nat) -> char {
    ((d + 48) as u8) as char
}

/// Decimal rendering of a natural number, most significant digit first.
pub open spec fn decimal(n: nat) -> Seq<char>
    decreases n,
{
    if n < 10 {
        seq![digit_char(n)]
    } else {
        decimal(n / 10).push(digit_char(n % 10))
    }
}

/// Decimal rendering of an integer, with a leading `-` when it is negative.
pub open spec fn signed_decimal(v: int) -> Seq<char> {
    if v < 0 {
        seq!['-'] + decimal((-v) as nat)
    } else {
        decimal(v as nat)
    }
}

/// The bytes of a string made of ASCII characters.
pub open spec fn ascii_bytes(s: Seq<char>) -> Seq<u8> {
    Seq::new(s.len(), |i: int| s[i] as u8)
}

pub proof fn lemma_ascii_bytes_concat(a: Seq<char>, b: Seq<char>)
    ensures
        ascii_bytes(a + b) == ascii_bytes(a) + ascii_bytes(b),
{
    assert(ascii_bytes(a + b) =~= ascii_bytes(a) + ascii_bytes(b));
}

/// Appends the decimal rendering of `n`.
pub fn push_decimal(out: &mut String, n: u64)
    ensures
        final(out)@ == old(out)@ + decimal(n as nat),
    decreases n,
{
    if n >= 10 {
        push_decimal(out, n / 10);
    }
    let d = (n % 10) as u8;
    push_char(out, (d + 48u8) as char);
    assert(decimal(n as nat) == if n < 10 {
        seq![digit_char(n as nat)]
    } else {
        decimal((n / 10) as nat).push(digit_char((n % 10) as nat))
    });
}

/// The decimal rendering of `n` as a new string.
pub fn decimal_string(n: u64) -> (s: String)
    ensures
        s@ == decimal(n as nat),
{
    let mut s = String::new();
    push_decimal(&mut s, n);
    assert(s@ =~= decimal(n as nat));
    s
}

/// Appends the bytes of the decimal rendering of `n`.
pub fn push_decimal_bytes(out: &mut Vec<u8>, n: u64)
    ensures
        final(out)@ == old(out)@ + ascii_bytes(decimal(n as nat)),
    decreases n,
{
    let ghost start = out@;
    if n >= 10 {
        push_decimal_bytes(out, n / 10);
    }
    let d = (n % 10) as u8;
    out.push(d + 48u8);
    proof {
        let c = digit_char((n % 10) as nat);
        if n >= 10 {
            let prev = decimal((n / 10) as nat);
            assert(decimal(n as nat) == prev.push(c));
            assert(ascii_bytes(prev.push(c)) =~= ascii_bytes(prev).push((d + 48) as u8));
            assert(out@ =~= start + ascii_bytes(decimal(n as nat)));
        } else {
            assert(ascii_bytes(seq![c]) =~= seq![(d + 48) as u8]);
            assert(out@ =~= start + ascii_bytes(decimal(n as nat)));
        }
    }
}

/// Appends the bytes of the decimal rendering of `v`, signed.
pub fn push_signed_decimal_bytes(out: &mut Vec<u8>, v: i64)
    ensures
        final(out)@ == old(out)@ + ascii_bytes(signed_decimal(v as int)),
{
    let ghost start = out@;
    if v < 0 {
        out.push(45u8);
        let m: u64 = (-(v as i128)) as u64;
        push_decimal_bytes(out, m);
        proof {
            assert(ascii_bytes(seq!['-'] + decimal(m as nat)) =~= seq![45u8] + ascii_bytes(
                decimal(m as nat),
            ));
            assert(out@ =~= start + ascii_bytes(signed_decimal(v as int)));
        }
    } else {
        push_decimal_bytes(out, v as u64);
    }
}


/// `str::trim`: `s` without its leading and trailing whitespace.
pub open spec fn trimmed(s: Seq<char>) -> Seq<char>
    decreases s.len(),
{
    if s.len() == 0 {
        s
    } else if is_white_space(s[0]) {
        trimmed(s.drop_first())
    } else if is_white_space(s.last()) {
        trimmed(s.drop_last())
    } else {
        s
    }
}

pub proof fn lemma_trimmed_blank(s: Seq<char>)
    requires
        is_blank(s),
    ensures
        trimmed(s) == Seq::<char>::empty(),
    decreases s.len(),
{
    if s.len() > 0 {
        assert(is_white_space(s[0]));
        lemma_trimmed_blank(s.drop_first());
    }
}

/// The trimmed text is the part between the first and the last
/// non-whitespace character.
pub proof fn lemma_trimmed_bounds(s: Seq<char>, a: int, b: int)
    requires
        0 <= a <= b <= s.len(),
        forall|i: int| 0 <= i < a ==> is_white_space(#[trigger] s[i]),
        forall|i: int| b <= i < s.len() ==> is_white_space(#[trigger] s[i]),
        a < b ==> !is_white_space(s[a]) && !is_white_space(s[b - 1]),
    ensures
        trimmed(s) == s.subrange(a, b),
    decreases s.len(),
{
    if a == b {
        assert forall|i: int| 0 <= i < s.len() implies is_white_space(#[trigger] s[i]) by {
            if i >= a {
            }
        }
        lemma_trimmed_blank(s);
        assert(s.subrange(a, b) =~= Seq::<char>::empty());
    } else if is_white_space(s[0]) {
        let t = s.drop_first();
        assert forall|i: int| 0 <= i < a - 1 implies is_white_space(#[trigger] t[i]) by {
            assert(t[i] == s[i + 1]);
        }
        assert forall|i: int| b - 1 <= i < t.len() implies is_white_space(#[trigger] t[i]) by {
            assert(t[i] == s[i + 1]);
        }
        lemma_trimmed_bounds(t, a - 1, b - 1);
        assert(t.subrange(a - 1, b - 1) =~= s.subrange(a, b));
    } else if is_white_space(s.last()) {
        let t = s.drop_last();
        assert forall|i: int| b <= i < t.len() implies is_white_space(#[trigger] t[i]) by {
            assert(t[i] == s[i]);
        }
        lemma_trimmed_bounds(t, a, b);
        assert(t.subrange(a, b) =~= s.subrange(a, b));
    } else {
        assert(s.subrange(a, b) =~= s);
    }
}

pub proof fn lemma_blank_iff_trimmed_empty(s: Seq<char>)
    ensures
        is_blank(s) <==> trimmed(s).len() == 0,
    decreases s.len(),
{
    if s.len() > 0 {
        if is_white_space(s[0]) {
            lemma_blank_iff_trimmed_empty(s.drop_first());
            if is_blank(s.drop_first()) {
                assert forall|i: int| 0 <= i < s.len() implies is_white_space(#[trigger] s[i]) by {
                    if i > 0 {
                        assert(s[i] == s.drop_first()[i - 1]);
                    }
                }
            }
        } else {
            assert(!is_white_space(s[0]));
            if is_white_space(s.last()) {
                lemma_blank_iff_trimmed_empty(s.drop_last());
                assert(s.drop_last()[0] == s[0]);
            }
        }
    }
}

/// The bounds `(a, b)` such that `v[a..b]` is `v` trimmed.
pub fn trim_bounds(v: &Vec<char>) -> (r: (usize, usize))
    ensures
        r.0 <= r.1 <= v.len(),
        v@.subrange(r.0 as int, r.1 as int) == trimmed(v@),
{
    let n = v.len();
    let mut a: usize = 0;
    while a < n && char_is_white_space(v[a])
        invariant
            a <= n == v.len(),
            forall|i: int| 0 <= i < a ==> is_white_space(#[trigger] v@[i]),
        decreases n - a,
    {
        a = a + 1;
    }
    let mut b: usize = n;
    while b > a && char_is_white_space(v[b - 1])
        invariant
            a <= b <= n == v.len(),
            forall|i: int| b <= i < n ==> is_white_space(#[trigger] v@[i]),
        decreases b - a,
    {
        b = b - 1;
    }
    proof {
        lemma_trimmed_bounds(v@, a as int, b as int);
    }
    (a, b)
}

/// A new string holding `v[from..to]`.
pub fn string_of_chars(v: &Vec<char>, from: usize, to: usize) -> (s: String)
    requires
        from <= to <= v.len(),
    ensures
        s@ == v@.subrange(from as int, to as int),
{
    let mut s = String::new();
    let mut i = from;
    while i < to
        invariant
            from <= i <= to <= v.len(),
            s@ == v@.subrange(from as int, i as int),
        decreases to - i,
    {
        push_char(&mut s, v[i]);
        i = i + 1;
        assert(s@ =~= v@.subrange(from as int, i as int));
    }
    s
}

/// `s.trim().is_empty()`: whether `s` holds only whitespace.
pub fn str_is_blank(s: &str) -> (r: bool)
    ensures
        r == is_blank(s@),
{
    let v = chars_of(s);
    let n = v.len();
    let mut i: usize = 0;
    while i < n
        invariant
            i <= n == v.len(),
            v@ == s@,
            forall|j: int| 0 <= j < i ==> is_white_space(#[trigger] v@[j]),
        decreases n - i,
    {
        if !char_is_white_space(v[i]) {
            return false;
        }
        i = i + 1;
    }
    true
}


/// `str::replace`: every occurrence of `pat` in `s`, taken left to right
/// without overlap, replaced by `rep`.
pub open spec fn replace_all(s: Seq<char>, pat: Seq<char>, rep: Seq<char>) -> Seq<char>
    decreases s.len(),
{
    if pat.len() == 0 || s.len() < pat.len() {
        s
    } else if s.take(pat.len() as int) == pat {
        rep + replace_all(s.skip(pat.len() as int), pat, rep)
    } else {
        seq![s[0]] + replace_all(s.skip(1), pat, rep)
    }
}

/// Whether `pat` occurs in `s` at position `i`.
pub open spec fn occurs_at(s: Seq<char>, pat: Seq<char>, i: int) -> bool {
    0 <= i && i + pat.len() <= s.len() && s.subrange(i, i + pat.len()) == pat
}

/// Whether `pat` occurs anywhere in `s`.
pub open spec fn contains_text(s: Seq<char>, pat: Seq<char>) -> bool {
    exists|i: int| occurs_at(s, pat, i)
}

/// Whether `a` and `b` have no character in common.
pub open spec fn disjoint_chars(a: Seq<char>, b: Seq<char>) -> bool {
    forall|i: int, j: int| 0 <= i < a.len() && 0 <= j < b.len() ==> a[i] != b[j]
}

/// A prefix of the replaced text that holds no character of `rep` is a
/// prefix of the text before replacement.
proof fn lemma_replace_all_plain_prefix(s: Seq<char>, pat: Seq<char>, rep: Seq<char>, k: int)
    requires
        pat.len() > 0,
        rep.len() > 0,
        0 <= k <= replace_all(s, pat, rep).len(),
        forall|j: int, m: int|
            0 <= j < k && 0 <= m < rep.len() ==> replace_all(s, pat, rep)[j] != rep[m],
    ensures
        k <= s.len(),
        replace_all(s, pat, rep).take(k) == s.take(k),
        forall|j: int| 0 <= j < k && j + pat.len() <= s.len() ==> !occurs_at(s, pat, j),
    decreases s.len(),
{
    let r = replace_all(s, pat, rep);
    if k == 0 {
    } else if s.len() < pat.len() {
        assert(r == s);
        assert forall|j: int| 0 <= j < k && j + pat.len() <= s.len() implies !occurs_at(
            s,
            pat,
            j,
        ) by {}
    } else if s.take(pat.len() as int) == pat {
        assert(r[0] == rep[0]);
    } else {
        let t = s.skip(1);
        let rt = replace_all(t, pat, rep);
        assert(r == seq![s[0]] + rt);
        assert forall|j: int, m: int| 0 <= j < k - 1 && 0 <= m < rep.len() implies rt[j]
            != rep[m] by {
            assert(r[j + 1] == rt[j]);
        }
        lemma_replace_all_plain_prefix(t, pat, rep, k - 1);
        assert(r.take(k) =~= s.take(k)) by {
            assert forall|j: int| 0 <= j < k implies r.take(k)[j] == s.take(k)[j] by {
                if j > 0 {
                    assert(rt.take(k - 1)[j - 1] == t.take(k - 1)[j - 1]);
                }
            }
        }
        assert forall|j: int| 0 <= j < k && j + pat.len() <= s.len() implies !occurs_at(
            s,
            pat,
            j,
        ) by {
            if j == 0 {
                assert(s.subrange(0, pat.len() as int) =~= s.take(pat.len() as int));
            } else {
                assert(s.subrange(j, j + pat.len()) =~= t.subrange(j - 1, j - 1 + pat.len()));
                assert(0 <= j - 1 < k - 1 && j - 1 + pat.len() <= t.len());
                assert(!occurs_at(t, pat, j - 1));
            }
        }
    }
}

/// When `pat` shares no character with `rep`, no occurrence of `pat`
/// is left after the replacement.
pub proof fn lemma_replace_all_leaves_no_occurrence(s: Seq<char>, pat: Seq<char>, rep: Seq<char>)
    requires
        pat.len() > 0,
        rep.len() > 0,
        disjoint_chars(pat, rep),
    ensures
        !contains_text(replace_all(s, pat, rep), pat),
    decreases s.len(),
{
    let r = replace_all(s, pat, rep);
    if s.len() < pat.len() {
        assert forall|i: int| !occurs_at(r, pat, i) by {}
    } else if s.take(pat.len() as int) == pat {
        let t = s.skip(pat.len() as int);
        let rt = replace_all(t, pat, rep);
        lemma_replace_all_leaves_no_occurrence(t, pat, rep);
        assert forall|i: int| !occurs_at(r, pat, i) by {
            if occurs_at(r, pat, i) {
                if i < rep.len() {
                    assert(r.subrange(i, i + pat.len())[0] == pat[0]);
                    assert(r[i] == rep[i]);
                } else {
                    assert(r.subrange(i, i + pat.len()) =~= rt.subrange(
                        i - rep.len(),
                        i - rep.len() + pat.len(),
                    ));
                    assert(occurs_at(rt, pat, i - rep.len()));
                }
            }
        }
    } else {
        let t = s.skip(1);
        let rt = replace_all(t, pat, rep);
        lemma_replace_all_leaves_no_occurrence(t, pat, rep);
        assert forall|i: int| !occurs_at(r, pat, i) by {
            if occurs_at(r, pat, i) {
                if i == 0 {
                    assert forall|j: int, m: int|
                        0 <= j < pat.len() && 0 <= m < rep.len() implies r[j] != rep[m] by {
                        assert(r.subrange(0, pat.len() as int)[j] == pat[j]);
                    }
                    lemma_replace_all_plain_prefix(s, pat, rep, pat.len() as int);
                    assert(s.take(pat.len() as int) =~= r.subrange(0, pat.len() as int));
                } else {
                    assert(r.subrange(i, i + pat.len()) =~= rt.subrange(
                        i - 1,
                        i - 1 + pat.len(),
                    ));
                    assert(occurs_at(rt, pat, i - 1));
                }
            }
        }
    }
}

/// Text in which `pat` does not occur is left as it is.
pub proof fn lemma_replace_all_absent(s: Seq<char>, pat: Seq<char>, rep: Seq<char>)
    requires
        pat.len() > 0,
        !contains_text(s, pat),
    ensures
        replace_all(s, pat, rep) == s,
    decreases s.len(),
{
    if s.len() >= pat.len() {
        assert(s.take(pat.len() as int) =~= s.subrange(0, pat.len() as int));
        assert(!occurs_at(s, pat, 0));
        let t = s.skip(1);
        assert forall|i: int| !occurs_at(t, pat, i) by {
            if occurs_at(t, pat, i) {
                assert(s.subrange(i + 1, i + 1 + pat.len()) =~= t.subrange(i, i + pat.len()));
                assert(occurs_at(s, pat, i + 1));
            }
        }
        lemma_replace_all_absent(t, pat, rep);
        assert(seq![s[0]] + t =~= s);
    }
}

/// Whether `pat` occurs in `s` at position `i`, for `i + pat.len() <= s.len()`.
fn matches_at(s: &Vec<char>, pat: &Vec<char>, i: usize) -> (r: bool)
    requires
        i + pat.len() <= s.len(),
    ensures
        r == (s@.subrange(i as int, i + pat.len()) == pat@),
{
    let p = pat.len();
    let mut j: usize = 0;
    while j < p
        invariant
            p == pat.len(),
            i + p <= s.len(),
            j <= p,
            forall|m: int| 0 <= m < j ==> s@[i + m] == pat@[m],
        decreases p - j,
    {
        if s[i + j] != pat[j] {
            assert(s@.subrange(i as int, i + p)[j as int] != pat@[j as int]);
            return false;
        }
        j = j + 1;
    }
    assert(s@.subrange(i as int, i + p) =~= pat@);
    true
}

/// `s` with every occurrence of `pat` replaced by `rep`.
pub fn replace_all_chars(s: &Vec<char>, pat: &Vec<char>, rep: &str) -> (r: String)
    requires
        pat.len() > 0,
    ensures
        r@ == replace_all(s@, pat@, rep@),
{
    let n = s.len();
    let p = pat.len();
    let mut out = String::new();
    let mut i: usize = 0;
    assert(s@.skip(0) =~= s@);
    while i < n
        invariant
            n == s.len(),
            p == pat.len() > 0,
            i <= n,
            out@ + replace_all(s@.skip(i as int), pat@, rep@) == replace_all(s@, pat@, rep@),
        decreases n - i,
    {
        let ghost rest = s@.skip(i as int);
        if p <= n - i && matches_at(s, pat, i) {
            assert(rest.take(p as int) =~= s@.subrange(i as int, i + p));
            assert(rest.skip(p as int) =~= s@.skip(i + p));
            out.append(rep);
            i = i + p;
            assert(out@ + replace_all(s@.skip(i as int), pat@, rep@) =~= replace_all(
                s@,
                pat@,
                rep@,
            ));
        } else {
            proof {
                if p <= n - i {
                    assert(rest.take(p as int) =~= s@.subrange(i as int, i + p));
                }
                if rest.len() < p {
                    assert(replace_all(rest, pat@, rep@) == rest);
                    assert(rest =~= seq![rest[0]] + rest.skip(1));
                    assert(rest.skip(1).len() < p);
                    assert(replace_all(rest.skip(1), pat@, rep@) == rest.skip(1));
                }
                assert(rest.skip(1) =~= s@.skip(i + 1));
            }
            push_char(&mut out, s[i]);
            i = i + 1;
            assert(out@ + replace_all(s@.skip(i as int), pat@, rep@) =~= replace_all(
                s@,
                pat@,
                rep@,
            ));
        }
    }
    assert(s@.skip(n as int) =~= Seq::<char>::empty());
    assert(out@ =~= replace_all(s@, pat@, rep@));
    out
}


/// `items` joined with `sep` between consecutive items.
pub open spec fn joined(items: Seq<Seq<char>>, sep: Seq<char>) -> Seq<char>
    decreases items.len(),
{
    if items.len() == 0 {
        Seq::empty()
    } else if items.len() == 1 {
        items[0]
    } else {
        joined(items.drop_last(), sep) + sep + items.last()
    }
}


/// Whether `c` is an ASCII decimal digit.
pub open spec fn is_ascii_digit(c: char) -> bool {
    '0' <= c <= '9'
}

/// The number that a string of ASCII digits spells in decimal.
pub open spec fn digits_value(s: Seq<char>) -> nat
    decreases s.len(),
{
    if s.len() == 0 {
        0
    } else {
        digits_value(s.drop_last()) * 10 + (s.last() as nat - 48) as nat
    }
}

/// Whether every character of `s` is an ASCII digit.
pub open spec fn all_ascii_digits(s: Seq<char>) -> bool {
    forall|i: int| 0 <= i < s.len() ==> is_ascii_digit(#[trigger] s[i])
}

/// The part of a number's text after an optional leading `+`.
pub open spec fn unsigned_digits(s: Seq<char>) -> Seq<char> {
    if s.len() > 0 && s[0] == '+' {
        s.skip(1)
    } else {
        s
    }
}

/// `str::parse::<u64>`: an optional `+` followed by one or more ASCII
/// digits whose value fits in a `u64`.
pub open spec fn parsed_u64(s: Seq<char>) -> Option<u64> {
    let digits = unsigned_digits(s);
    if digits.len() > 0 && all_ascii_digits(digits) && digits_value(digits) <= u64::MAX {
        Some(digits_value(digits) as u64)
    } else {
        None
    }
}

proof fn lemma_digits_value_prefix(s: Seq<char>, k: int)
    requires
        0 <= k <= s.len(),
        forall|i: int| 0 <= i < s.len() ==> is_ascii_digit(#[trigger] s[i]),
    ensures
        digits_value(s.take(k)) <= digits_value(s),
    decreases s.len(),
{
    if k < s.len() {
        let t = s.drop_last();
        assert(t.take(k) =~= s.take(k));
        assert forall|i: int| 0 <= i < t.len() implies is_ascii_digit(#[trigger] t[i]) by {
            assert(t[i] == s[i]);
        }
        lemma_digits_value_prefix(t, k);
    } else {
        assert(s.take(k) =~= s);
    }
}

/// `s.parse::<u64>().ok()`.
pub fn parse_u64(s: &str) -> (r: Option<u64>)
    ensures
        r == parsed_u64(s@),
{
    let v = chars_of(s);
    let n = v.len();
    let mut i: usize = 0;
    if n > 0 && v[0] == '+' {
        i = 1;
    }
    let start = i;
    let ghost digits = unsigned_digits(s@);
    assert(digits =~= v@.skip(start as int));
    if start == n {
        return None;
    }
    let mut value: u64 = 0;
    while i < n
        invariant
            v@ == s@,
            n == v.len(),
            start <= i <= n,
            start < n,
            digits == v@.skip(start as int),
            digits == unsigned_digits(s@),
            forall|j: int| start <= j < i ==> is_ascii_digit(#[trigger] v@[j]),
            value == digits_value(digits.take(i - start)),
        decreases n - i,
    {
        let c = v[i];
        if !('0' <= c && c <= '9') {
            assert(!is_ascii_digit(digits[i - start]));
            assert(!all_ascii_digits(digits));
            assert(parsed_u64(s@) is None);
            return None;
        }
        let d = (c as u32 - 48) as u64;
        proof {
            let p = digits.take(i - start + 1);
            assert(p.drop_last() =~= digits.take(i - start));
            assert(p.last() == c);
        }
        if value > (u64::MAX - d) / 10 {
            proof {
                assert(digits_value(digits.take(i - start + 1)) > u64::MAX) by (nonlinear_arith)
                    requires
                        digits_value(digits.take(i - start + 1)) == value * 10 + d,
                        value > (u64::MAX - d) / 10,
                        d <= 9,
                ;
                if all_ascii_digits(digits) {
                    lemma_digits_value_prefix(digits, i - start + 1);
                    assert(digits_value(digits) > u64::MAX);
                }
                assert(parsed_u64(s@) is None);
            }
            return None;
        }
        assert(value * 10 + d <= u64::MAX) by (nonlinear_arith)
            requires
                value <= (u64::MAX - d) / 10,
                d <= 9,
        ;
        value = value * 10 + d;
        i = i + 1;
    }
    assert(digits.take(n - start) =~= digits);
    Some(value)
}

} // verus!
