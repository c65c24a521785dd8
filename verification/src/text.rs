//! Text primitives on Unicode scalar values, each stated over `Seq<char>`.

use vstd::prelude::*;

verus! {

/// The characters of `s`, in order.
pub fn chars_of(s: &str) -> (v: Vec<char>)
    ensures
        v@ == s@,
{
    let mut v: Vec<char> = Vec::new();
    for c in it: s.chars()
        invariant
            it.seq() == s@,
            v@ == it.seq().take(it.index()),
    {
        v.push(c);
    }
    v
}

/// The text of an optional string.
pub open spec fn opt_text(o: Option<String>) -> Option<Seq<char>> {
    match o {
        Some(s) => Some(s@),
        None => None,
    }
}

/// `p` is a prefix of `s`.
pub open spec fn is_prefix(p: Seq<char>, s: Seq<char>) -> bool {
    p.len() <= s.len() && s.take(p.len() as int) == p
}

/// Whether `s` begins with `p`.
pub fn starts_with(s: &str, p: &str) -> (b: bool)
    ensures
        b == is_prefix(p@, s@),
{
    let sv = chars_of(s);
    let pv = chars_of(p);
    if pv.len() > sv.len() {
        return false;
    }
    let mut i: usize = 0;
    while i < pv.len()
        invariant
            pv@ == p@,
            sv@ == s@,
            pv.len() <= sv.len(),
            i <= pv.len(),
            forall|k: int| 0 <= k < i ==> sv@[k] == pv@[k],
        decreases pv.len() - i,
    {
        if sv[i] != pv[i] {
            assert(s@.take(p@.len() as int)[i as int] != p@[i as int]);
            return false;
        }
        i = i + 1;
    }
    assert(s@.take(p@.len() as int) =~= p@);
    true
}


/// Appends one character to a string.
///
/// Trusted: `String::push`, documented to append the given `char` to the end
/// of the string.
#[verifier::external_body]
pub(crate) fn push_char(s: &mut String, c: char)
    ensures
        final(s)@ == old(s)@.push(c),
{
    s.push(c)
}

/// Whether `a` and `b` hold the same characters.
pub fn same_text(a: &str, b: &str) -> (r: bool)
    ensures
        r == (a@ == b@),
{
    let av = chars_of(a);
    let bv = chars_of(b);
    if av.len() != bv.len() {
        return false;
    }
    let mut i: usize = 0;
    while i < av.len()
        invariant
            av@ == a@,
            bv@ == b@,
            av.len() == bv.len(),
            i <= av.len(),
            forall|k: int| 0 <= k < i ==> av@[k] == bv@[k],
        decreases av.len() - i,
    {
        if av[i] != bv[i] {
            return false;
        }
        i = i + 1;
    }
    assert(a@ =~= b@);
    true
}

/// `p` occurs in `s` starting at position `i`.
pub open spec fn occurs_at(s: Seq<char>, p: Seq<char>, i: int) -> bool {
    0 <= i && i + p.len() <= s.len() && s.subrange(i, i + p.len()) == p
}

/// `p` occurs somewhere in `s`.
pub open spec fn seq_contains(s: Seq<char>, p: Seq<char>) -> bool {
    exists|i: int| occurs_at(s, p, i)
}

/// Whether the characters `p` stand in `v` from position `i` on.
fn matches_at(v: &Vec<char>, p: &Vec<char>, i: usize) -> (b: bool)
    requires
        i <= v.len(),
    ensures
        b == occurs_at(v@, p@, i as int),
{
    if p.len() > v.len() - i {
        return false;
    }
    let mut k: usize = 0;
    while k < p.len()
        invariant
            i + p.len() <= v.len(),
            k <= p.len(),
            forall|j: int| 0 <= j < k ==> v@[i + j] == p@[j],
        decreases p.len() - k,
    {
        if v[i + k] != p[k] {
            assert(v@.subrange(i as int, i + p.len())[k as int] != p@[k as int]);
            return false;
        }
        k = k + 1;
    }
    assert(v@.subrange(i as int, i + p.len()) =~= p@);
    true
}

/// Whether `p` occurs in `s`.
pub fn contains(s: &str, p: &str) -> (b: bool)
    ensures
        b == seq_contains(s@, p@),
{
    let sv = chars_of(s);
    let pv = chars_of(p);
    let mut i: usize = 0;
    while i < sv.len()
        invariant
            sv@ == s@,
            pv@ == p@,
            i <= sv.len(),
            forall|j: int| 0 <= j < i ==> !occurs_at(s@, p@, j),
        decreases sv.len() - i,
    {
        if matches_at(&sv, &pv, i) {
            return true;
        }
        i = i + 1;
    }
    if matches_at(&sv, &pv, i) {
        return true;
    }
    assert forall|j: int| !occurs_at(s@, p@, j) by {
        if 0 <= j && j <= i {
        }
    }
    false
}

/// `s` with every match of `from` replaced by `to`, matches taken from the
/// left and not overlapping, as `str::replace` gives it. An empty `from`
/// matches before every character and at the end.
pub open spec fn replace_all(s: Seq<char>, from: Seq<char>, to: Seq<char>) -> Seq<char>
    decreases s.len(),
{
    if s.len() == 0 {
        if from.len() == 0 {
            to
        } else {
            s
        }
    } else if from.len() == 0 {
        to + seq![s[0]] + replace_all(s.drop_first(), from, to)
    } else if is_prefix(from, s) {
        to + replace_all(s.skip(from.len() as int), from, to)
    } else {
        seq![s[0]] + replace_all(s.drop_first(), from, to)
    }
}

/// `s` with every match of `from` replaced by `to`, left to right.
pub fn replace(s: &str, from: &str, to: &str) -> (r: String)
    ensures
        r@ == replace_all(s@, from@, to@),
{
    let sv = chars_of(s);
    let fv = chars_of(from);
    let mut r = String::new();
    let mut i: usize = 0;
    assert(s@.skip(0) =~= s@);
    if fv.len() == 0 {
        while i < sv.len()
            invariant
                sv@ == s@,
                from@.len() == 0,
                i <= sv.len(),
                r@ + replace_all(s@.skip(i as int), from@, to@) == replace_all(s@, from@, to@),
            decreases sv.len() - i,
        {
            let ghost rest = s@.skip(i as int);
            assert(rest.drop_first() =~= s@.skip(i + 1));
            r.append(to);
            push_char(&mut r, sv[i]);
            i = i + 1;
            assert(r@ + replace_all(s@.skip(i as int), from@, to@) =~= replace_all(s@, from@, to@));
        }
        assert(s@.skip(i as int) =~= Seq::<char>::empty());
        r.append(to);
        assert(r@ =~= replace_all(s@, from@, to@));
        return r;
    }
    while i < sv.len()
        invariant
            sv@ == s@,
            fv@ == from@,
            from@.len() > 0,
            i <= sv.len(),
            r@ + replace_all(s@.skip(i as int), from@, to@) == replace_all(s@, from@, to@),
        decreases sv.len() - i,
    {
        let ghost rest = s@.skip(i as int);
        if matches_at(&sv, &fv, i) {
            assert(rest.take(from@.len() as int) =~= s@.subrange(i as int, i + from@.len()));
            assert(rest.skip(from@.len() as int) =~= s@.skip(i + from@.len()));
            r.append(to);
            i = i + fv.len();
            assert(r@ + replace_all(s@.skip(i as int), from@, to@) =~= replace_all(s@, from@, to@));
        } else {
            assert(!is_prefix(from@, rest)) by {
                if is_prefix(from@, rest) {
                    assert(s@.subrange(i as int, i + from@.len()) =~= rest.take(from@.len() as int));
                }
            }
            assert(rest.drop_first() =~= s@.skip(i + 1));
            push_char(&mut r, sv[i]);
            i = i + 1;
            assert(r@ + replace_all(s@.skip(i as int), from@, to@) =~= replace_all(s@, from@, to@));
        }
    }
    assert(s@.skip(i as int) =~= Seq::<char>::empty());
    assert(r@ =~= replace_all(s@, from@, to@));
    r
}

/// The Unicode `White_Space` property, the test that `char::is_whitespace`
/// documents.
pub open spec fn is_white_space(c: char) -> bool {
    let u = c as u32;
    (0x9 <= u && u <= 0xd) || u == 0x20 || u == 0x85 || u == 0xa0 || u == 0x1680 || (0x2000 <= u
        && u <= 0x200a) || u == 0x2028 || u == 0x2029 || u == 0x202f || u == 0x205f || u == 0x3000
}

/// Whether `c` has the Unicode `White_Space` property.
pub fn white_space(c: char) -> (b: bool)
    ensures
        b == is_white_space(c),
{
    let u = c as u32;
    (0x9 <= u && u <= 0xd) || u == 0x20 || u == 0x85 || u == 0xa0 || u == 0x1680 || (0x2000 <= u
        && u <= 0x200a) || u == 0x2028 || u == 0x2029 || u == 0x202f || u == 0x205f || u == 0x3000
}

/// `s` without its leading white space.
pub open spec fn trim_start(s: Seq<char>) -> Seq<char>
    decreases s.len(),
{
    if s.len() > 0 && is_white_space(s[0]) {
        trim_start(s.drop_first())
    } else {
        s
    }
}

/// `s` without its trailing white space.
pub open spec fn trim_end(s: Seq<char>) -> Seq<char>
    decreases s.len(),
{
    if s.len() > 0 && is_white_space(s.last()) {
        trim_end(s.drop_last())
    } else {
        s
    }
}

/// `s` without leading and trailing white space, as `str::trim` gives it.
pub open spec fn trim(s: Seq<char>) -> Seq<char> {
    trim_end(trim_start(s))
}

/// `s` without its leading copies of `c`, as `str::trim_start_matches` with a
/// `char` pattern gives it.
pub open spec fn strip_leading(s: Seq<char>, c: char) -> Seq<char>
    decreases s.len(),
{
    if s.len() > 0 && s[0] == c {
        strip_leading(s.drop_first(), c)
    } else {
        s
    }
}

proof fn lemma_trim_start_skip(s: Seq<char>, a: int)
    requires
        0 <= a <= s.len(),
        forall|k: int| 0 <= k < a ==> is_white_space(#[trigger] s[k]),
        a == s.len() || !is_white_space(s[a]),
    ensures
        trim_start(s) == s.skip(a),
    decreases a,
{
    if a == 0 {
        assert(s.skip(0) =~= s);
    } else {
        let t = s.drop_first();
        assert forall|k: int| 0 <= k < a - 1 implies is_white_space(#[trigger] t[k]) by {
            assert(t[k] == s[k + 1]);
        }
        lemma_trim_start_skip(t, a - 1);
        assert(t.skip(a - 1) =~= s.skip(a));
    }
}

proof fn lemma_trim_end_take(s: Seq<char>, b: int)
    requires
        0 <= b <= s.len(),
        forall|k: int| b <= k < s.len() ==> is_white_space(#[trigger] s[k]),
        b == 0 || !is_white_space(s[b - 1]),
    ensures
        trim_end(s) == s.take(b),
    decreases s.len() - b,
{
    if b == s.len() {
        assert(s.take(b) =~= s);
    } else {
        let t = s.drop_last();
        assert forall|k: int| b <= k < t.len() implies is_white_space(#[trigger] t[k]) by {
            assert(t[k] == s[k]);
        }
        lemma_trim_end_take(t, b);
        assert(t.take(b) =~= s.take(b));
    }
}

proof fn lemma_strip_leading_skip(s: Seq<char>, c: char, a: int)
    requires
        0 <= a <= s.len(),
        forall|k: int| 0 <= k < a ==> #[trigger] s[k] == c,
        a == s.len() || s[a] != c,
    ensures
        strip_leading(s, c) == s.skip(a),
    decreases a,
{
    if a == 0 {
        assert(s.skip(0) =~= s);
    } else {
        let t = s.drop_first();
        assert forall|k: int| 0 <= k < a - 1 implies #[trigger] t[k] == c by {
            assert(t[k] == s[k + 1]);
        }
        lemma_strip_leading_skip(t, c, a - 1);
        assert(t.skip(a - 1) =~= s.skip(a));
    }
}

/// `s` without leading and trailing white space.
pub fn trimmed(s: &str) -> (r: String)
    ensures
        r@ == trim(s@),
{
    let v = chars_of(s);
    let mut a: usize = 0;
    while a < v.len() && white_space(v[a])
        invariant
            v@ == s@,
            a <= v.len(),
            forall|k: int| 0 <= k < a ==> is_white_space(#[trigger] s@[k]),
        decreases v.len() - a,
    {
        a = a + 1;
    }
    proof {
        lemma_trim_start_skip(s@, a as int);
    }
    let ghost t = s@.skip(a as int);
    let mut b: usize = v.len();
    while b > a && white_space(v[b - 1])
        invariant
            v@ == s@,
            t == s@.skip(a as int),
            a <= b <= v.len(),
            forall|k: int| b <= k < v.len() ==> is_white_space(#[trigger] s@[k]),
        decreases b - a,
    {
        b = b - 1;
    }
    proof {
        assert forall|k: int| b - a <= k < t.len() implies is_white_space(#[trigger] t[k]) by {
            assert(t[k] == s@[a + k]);
        }
        lemma_trim_end_take(t, (b - a) as int);
    }
    let mut r = String::new();
    let mut i: usize = a;
    while i < b
        invariant
            v@ == s@,
            a <= i <= b <= v.len(),
            r@ == s@.subrange(a as int, i as int),
        decreases b - i,
    {
        push_char(&mut r, v[i]);
        i = i + 1;
        assert(r@ =~= s@.subrange(a as int, i as int));
    }
    assert(t.take((b - a) as int) =~= s@.subrange(a as int, b as int));
    r
}

/// `s` without its leading copies of `c`.
pub fn strip_leading_char(s: &str, c: char) -> (r: String)
    ensures
        r@ == strip_leading(s@, c),
{
    let v = chars_of(s);
    let mut a: usize = 0;
    while a < v.len() && v[a] == c
        invariant
            v@ == s@,
            a <= v.len(),
            forall|k: int| 0 <= k < a ==> #[trigger] s@[k] == c,
        decreases v.len() - a,
    {
        a = a + 1;
    }
    proof {
        lemma_strip_leading_skip(s@, c, a as int);
    }
    let mut r = String::new();
    let mut i: usize = a;
    while i < v.len()
        invariant
            v@ == s@,
            a <= i <= v.len(),
            r@ == s@.subrange(a as int, i as int),
        decreases v.len() - i,
    {
        push_char(&mut r, v[i]);
        i = i + 1;
        assert(r@ =~= s@.subrange(a as int, i as int));
    }
    assert(s@.skip(a as int) =~= s@.subrange(a as int, v.len() as int));
    r
}

/// The decimal digit for `d`, below ten.
pub open spec fn digit(d: nat) -> char {
    (48 + d) as char
}

/// The decimal numeral of `n`, without leading zeros.
pub open spec fn decimal(n: nat) -> Seq<char>
    decreases n,
{
    if n < 10 {
        seq![digit(n)]
    } else {
        decimal(n / 10) + seq![digit(n % 10)]
    }
}

fn digit_char(d: u64) -> (c: char)
    requires
        d < 10,
    ensures
        c == digit(d as nat),
{
    let b: u8 = 48 + (d as u8);
    b as char
}

/// Appends the decimal numeral of `n` to `out`.
pub fn push_decimal(out: &mut String, n: u64)
    ensures
        final(out)@ == old(out)@ + decimal(n as nat),
    decreases n,
{
    if n >= 10 {
        push_decimal(out, n / 10);
    }
    push_char(out, digit_char(n % 10));
    assert(final(out)@ =~= old(out)@ + decimal(n as nat));
}

/// Names the decoding of bytes as UTF-8 in which every invalid sequence
/// stands as U+FFFD.
pub uninterp spec fn utf8_lossy(bytes: Seq<u8>) -> Seq<char>;

/// Decodes bytes as UTF-8, each invalid sequence becoming U+FFFD.
///
/// Trusted: `String::from_utf8_lossy`. Its result is named `utf8_lossy`; the
/// contract adds the documented fact that valid UTF-8 decodes as it stands.
#[verifier::external_body]
pub(crate) fn decode_utf8_lossy(bytes: &[u8]) -> (s: String)
    ensures
        s@ == utf8_lossy(bytes@),
        vstd::utf8::valid_utf8(bytes@) ==> s@ == vstd::utf8::decode_utf8(bytes@),
{
    String::from_utf8_lossy(bytes).into_owned()
}

/// The number that a sequence of decimal digits writes.
pub open spec fn decimal_value(ds: Seq<char>) -> int
    decreases ds.len(),
{
    if ds.len() == 0 {
        0
    } else {
        decimal_value(ds.drop_last()) * 10 + (ds.last() as int - 48)
    }
}

/// The numeral of `n` is made of decimal digits only, starts with a nonzero
/// digit unless `n` is zero, and writes `n`.
pub proof fn lei_decimal(n: nat)
    ensures
        decimal(n).len() > 0,
        forall|k: int| 0 <= k < decimal(n).len() ==> '0' <= #[trigger] decimal(n)[k] <= '9',
        n > 0 ==> decimal(n)[0] != '0',
        decimal_value(decimal(n)) == n,
    decreases n,
{
    if n >= 10 {
        lei_decimal(n / 10);
        let d = decimal(n);
        assert(d.drop_last() =~= decimal(n / 10));
        assert forall|k: int| 0 <= k < d.len() implies '0' <= #[trigger] d[k] <= '9' by {
            if k < d.len() - 1 {
                assert(d[k] == decimal(n / 10)[k]);
            }
        }
        assert(d[0] == decimal(n / 10)[0]);
        assert(d.last() == digit(n % 10));
        assert(digit(n % 10) as int == 48 + n % 10);
        assert(n == (n / 10) * 10 + n % 10);
        assert(decimal_value(d) == decimal_value(d.drop_last()) * 10 + (d.last() as int - 48));
        assert(decimal_value(d.drop_last()) == n / 10);
    } else {
        let d = decimal(n);
        assert(digit(n) as int == 48 + n);
        assert(d.drop_last() =~= Seq::<char>::empty());
        assert(decimal_value(d.drop_last()) == 0);
        assert(decimal_value(d) == decimal_value(d.drop_last()) * 10 + (d.last() as int - 48));
    }
}

/// Stripping the leading copies of `c` removes a prefix made only of `c` and
/// leaves a suffix of `s` that does not begin with `c`.
pub proof fn lei_strip_leading(s: Seq<char>, c: char)
    ensures
        strip_leading(s, c).len() <= s.len(),
        strip_leading(s, c) == s.skip(s.len() - strip_leading(s, c).len()),
        forall|k: int| 0 <= k < s.len() - strip_leading(s, c).len() ==> #[trigger] s[k] == c,
        strip_leading(s, c).len() == 0 || strip_leading(s, c)[0] != c,
    decreases s.len(),
{
    if s.len() > 0 && s[0] == c {
        let t = s.drop_first();
        lei_strip_leading(t, c);
        assert(t.skip(t.len() - strip_leading(t, c).len()) =~= s.skip(s.len() - strip_leading(s, c).len()));
        assert forall|k: int| 0 <= k < s.len() - strip_leading(s, c).len() implies #[trigger] s[k] == c by {
            if k > 0 {
                assert(s[k] == t[k - 1]);
            }
        }
    } else {
        assert(s.skip(0) =~= s);
    }
}

/// Trimming keeps a contiguous part of `s`, drops only white space on either
/// side of it, and leaves no white space at its ends.
pub proof fn lei_trim(s: Seq<char>)
    ensures
        exists|a: int, b: int|
            0 <= a <= b <= s.len() && trim(s) == s.subrange(a, b) && (forall|k: int|
                0 <= k < a ==> is_white_space(#[trigger] s[k])) && (forall|k: int|
                b <= k < s.len() ==> is_white_space(#[trigger] s[k])),
        trim(s).len() == 0 || (!is_white_space(trim(s)[0]) && !is_white_space(trim(s).last())),
{
    let a = lemma_lead_ws(s);
    let t = s.skip(a);
    lemma_trim_start_skip(s, a);
    let b = lemma_trail_ws(t);
    lemma_trim_end_take(t, b);
    assert(t.take(b) =~= s.subrange(a, a + b));
    assert forall|k: int| a + b <= k < s.len() implies is_white_space(#[trigger] s[k]) by {
        assert(s[k] == t[k - a]);
    }
    if b > 0 {
        assert(trim(s)[0] == s[a]);
        assert(trim(s).last() == t[b - 1]);
    }
}

proof fn lemma_lead_ws(s: Seq<char>) -> (a: int)
    ensures
        0 <= a <= s.len(),
        forall|k: int| 0 <= k < a ==> is_white_space(#[trigger] s[k]),
        a == s.len() || !is_white_space(s[a]),
    decreases s.len(),
{
    if s.len() > 0 && is_white_space(s[0]) {
        let r = lemma_lead_ws(s.drop_first());
        assert forall|k: int| 0 <= k < r + 1 implies is_white_space(#[trigger] s[k]) by {
            if k > 0 {
                assert(s[k] == s.drop_first()[k - 1]);
            }
        }
        if r + 1 < s.len() {
            assert(s[r + 1] == s.drop_first()[r]);
        }
        r + 1
    } else {
        0
    }
}

proof fn lemma_trail_ws(s: Seq<char>) -> (b: int)
    ensures
        0 <= b <= s.len(),
        forall|k: int| b <= k < s.len() ==> is_white_space(#[trigger] s[k]),
        b == 0 || !is_white_space(s[b - 1]),
    decreases s.len(),
{
    if s.len() > 0 && is_white_space(s.last()) {
        let r = lemma_trail_ws(s.drop_last());
        assert forall|k: int| r <= k < s.len() implies is_white_space(#[trigger] s[k]) by {
            if k < s.len() - 1 {
                assert(s[k] == s.drop_last()[k]);
            }
        }
        if r > 0 {
            assert(s[r - 1] == s.drop_last()[r - 1]);
        }
        r
    } else {
        s.len() as int
    }
}

} // verus!
