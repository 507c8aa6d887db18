//! Character-level string operations used by the policy checks, each stated
//! over the `Seq<char>` view of the strings involved.

use vstd::prelude::*;
use vstd::string::*;

verus! {

/// `needle` appears as a contiguous run of characters inside `hay`
/// (the empty sequence appears in every sequence).
pub open spec fn occurs_in(needle: Seq<char>, hay: Seq<char>) -> bool {
    exists|i: int|
        0 <= i && i + needle.len() <= hay.len() && #[trigger] hay.subrange(i, i + needle.len())
            == needle
}

/// The characters of `s`, one per element.
pub fn chars_of(s: &str) -> (v: Vec<char>)
    ensures
        v@ == s@,
{
    let mut v: Vec<char> = Vec::new();
    for c in it: s.chars()
        invariant
            it.seq() == s@,
            v@ == it.seq().take(it.index() as int),
    {
        v.push(c);
    }
    v
}


/// Whether `needle` sits in `hay` starting at position `at`.
fn matches_at(hay: &Vec<char>, needle: &Vec<char>, at: usize) -> (b: bool)
    requires
        at + needle@.len() <= hay@.len(),
    ensures
        b == (hay@.subrange(at as int, at + needle@.len()) == needle@),
{
    let n = needle.len();
    let hl = hay.len();
    let mut j: usize = 0;
    while j < n
        invariant
            n == needle@.len(),
            hl == hay@.len(),
            at + n <= hay@.len(),
            j <= n,
            forall|k: int| 0 <= k < j ==> hay@[at + k] == needle@[k],
        decreases n - j,
    {
        if hay[at + j] != needle[j] {
            assert(hay@.subrange(at as int, at + n)[j as int] != needle@[j as int]);
            return false;
        }
        j += 1;
    }
    assert(hay@.subrange(at as int, at + n) =~= needle@);
    true
}

/// Substring test: whether `needle` occurs inside `hay`.
pub fn str_contains(hay: &str, needle: &str) -> (b: bool)
    ensures
        b == occurs_in(needle@, hay@),
{
    let h = chars_of(hay);
    let n = chars_of(needle);
    if n.len() > h.len() {
        return false;
    }
    let last = h.len() - n.len();
    let mut i: usize = 0;
    loop
        invariant
            h@ == hay@,
            n@ == needle@,
            last + n@.len() == h@.len(),
            i <= last,
            forall|k: int| 0 <= k < i ==> #[trigger] h@.subrange(k, k + n@.len()) != n@,
        decreases last - i,
    {
        if matches_at(&h, &n, i) {
            return true;
        }
        if i == last {
            return false;
        }
        i += 1;
    }
}

/// Prefix test: whether `s` begins with `prefix`.
pub fn str_starts_with(s: &str, prefix: &str) -> (b: bool)
    ensures
        b == prefix@.is_prefix_of(s@),
{
    let h = chars_of(s);
    let p = chars_of(prefix);
    if p.len() > h.len() {
        return false;
    }
    let b = matches_at(&h, &p, 0);
    assert(b == (p@ =~= h@.subrange(0, p@.len() as int)));
    b
}

/// A fresh vector holding the same strings.
pub fn copy_strings(v: &Vec<String>) -> (r: Vec<String>)
    ensures
        r.deep_view() == v.deep_view(),
{
    let mut r: Vec<String> = Vec::new();
    let mut i: usize = 0;
    while i < v.len()
        invariant
            i <= v@.len(),
            r@.len() == i,
            forall|k: int| 0 <= k < i ==> (#[trigger] r@[k])@ == v@[k]@,
        decreases v@.len() - i,
    {
        r.push(v[i].clone());
        i += 1;
    }
    assert(r.deep_view() =~= v.deep_view());
    r
}

/// The parts laid end to end with `sep` between each neighbouring pair.
pub open spec fn joined(parts: Seq<Seq<char>>, sep: Seq<char>) -> Seq<char>
    decreases parts.len(),
{
    if parts.len() == 0 {
        Seq::empty()
    } else if parts.len() == 1 {
        parts[0]
    } else {
        joined(parts.drop_last(), sep) + sep + parts.last()
    }
}

/// Joins `parts` with `sep` between neighbours.
pub fn join_strings(parts: &Vec<String>, sep: &str) -> (r: String)
    ensures
        r@ == joined(parts.deep_view(), sep@),
{
    let ghost whole = parts.deep_view();
    let mut r = String::new();
    let mut i: usize = 0;
    while i < parts.len()
        invariant
            whole == parts.deep_view(),
            whole.len() == parts@.len(),
            i <= parts@.len(),
            r@ == joined(whole.take(i as int), sep@),
        decreases parts@.len() - i,
    {
        assert(whole[i as int] == parts@[i as int]@);
        if i > 0 {
            r.append(sep);
        }
        r.append(parts[i].as_str());
        assert(whole.take(i + 1).drop_last() =~= whole.take(i as int));
        i += 1;
    }
    assert(whole.take(parts@.len() as int) =~= whole);
    r
}


/// `String::push` appends one character.
pub assume_specification[ String::push ](s: &mut String, ch: char)
    ensures
        final(s)@ == old(s)@.push(ch),
;

/// The lower-case hexadecimal digit for a value below sixteen.
pub open spec fn hex_digit(d: int) -> char {
    if d < 10 {
        (d + 48) as char
    } else {
        (d + 87) as char
    }
}

/// Lower-case hexadecimal notation of `n`, without leading zeros
/// (a single `0` for zero).
pub open spec fn hex_lower(n: nat) -> Seq<char>
    decreases n,
{
    if n < 16 {
        seq![hex_digit(n as int)]
    } else {
        hex_lower(n / 16).push(hex_digit((n % 16) as int))
    }
}

/// `digits` with `0` characters in front up to `width` characters
/// (unchanged when already that long).
pub open spec fn zero_padded(digits: Seq<char>, width: nat) -> Seq<char> {
    if digits.len() < width {
        Seq::new((width - digits.len()) as nat, |i: int| '0') + digits
    } else {
        digits
    }
}

fn hex_char(d: u8) -> (c: char)
    requires
        d < 16,
    ensures
        c == hex_digit(d as int),
{
    if d < 10 {
        (d + 48) as char
    } else {
        (d + 87) as char
    }
}

fn push_hex(out: &mut String, n: u128)
    ensures
        final(out)@ == old(out)@ + hex_lower(n as nat),
    decreases n,
{
    if n >= 16 {
        push_hex(out, n / 16);
    }
    let d = (n % 16) as u8;
    out.push(hex_char(d));
}

/// `n` in lower-case hexadecimal, zero-padded to at least sixteen digits.
pub fn hex16(n: u128) -> (r: String)
    ensures
        r@ == zero_padded(hex_lower(n as nat), 16),
{
    let mut digits = String::new();
    push_hex(&mut digits, n);
    assert(digits@ =~= hex_lower(n as nat));
    let len = digits.unicode_len();
    let mut r = String::new();
    let mut k: usize = len;
    while k < 16
        invariant
            len <= k <= 16 || (len > 16 && k == len),
            len == digits@.len(),
            r@ == Seq::new((k - len) as nat, |i: int| '0'),
        decreases 16 - k,
    {
        r.push('0');
        k += 1;
        assert(r@ =~= Seq::new((k - len) as nat, |i: int| '0'));
    }
    r.append(digits.as_str());
    assert(r@ =~= zero_padded(hex_lower(n as nat), 16));
    r
}

/// The characters that carry the Unicode `White_Space` property.
pub open spec fn is_white_space(c: char) -> bool {
    let u = c as u32;
    ||| 0x09 <= u <= 0x0d
    ||| u == 0x20
    ||| u == 0x85
    ||| u == 0xa0
    ||| u == 0x1680
    ||| 0x2000 <= u <= 0x200a
    ||| u == 0x2028
    ||| u == 0x2029
    ||| u == 0x202f
    ||| u == 0x205f
    ||| u == 0x3000
}

/// Whether `c` is a Unicode white-space character.
pub fn white_space(c: char) -> (b: bool)
    ensures
        b == is_white_space(c),
{
    let u = c as u32;
    (0x09 <= u && u <= 0x0d) || u == 0x20 || u == 0x85 || u == 0xa0 || u == 0x1680 || (0x2000 <= u
        && u <= 0x200a) || u == 0x2028 || u == 0x2029 || u == 0x202f || u == 0x205f || u == 0x3000
}

/// `s` without its leading white space.
pub open spec fn strip_leading(s: Seq<char>) -> Seq<char>
    decreases s.len(),
{
    if s.len() > 0 && is_white_space(s[0]) {
        strip_leading(s.drop_first())
    } else {
        s
    }
}

/// `s` without its trailing white space.
pub open spec fn strip_trailing(s: Seq<char>) -> Seq<char>
    decreases s.len(),
{
    if s.len() > 0 && is_white_space(s.last()) {
        strip_trailing(s.drop_last())
    } else {
        s
    }
}

/// `s` without white space at either end.
pub open spec fn trim_view(s: Seq<char>) -> Seq<char> {
    strip_trailing(strip_leading(s))
}

/// `s` with the white space at both ends removed.
pub fn trimmed(s: &str) -> (r: String)
    ensures
        r@ == trim_view(s@),
{
    let cs = chars_of(s);
    let n = cs.len();
    let mut a: usize = 0;
    assert(s@.subrange(0, n as int) =~= s@);
    while a < n && white_space(cs[a])
        invariant
            cs@ == s@,
            n == cs@.len(),
            a <= n,
            strip_leading(s@) == strip_leading(s@.subrange(a as int, n as int)),
        decreases n - a,
    {
        assert(s@.subrange(a as int, n as int).drop_first() =~= s@.subrange(a + 1, n as int));
        a += 1;
    }
    assert(strip_leading(s@.subrange(a as int, n as int)) == s@.subrange(a as int, n as int));
    let mut b: usize = n;
    while b > a && white_space(cs[b - 1])
        invariant
            cs@ == s@,
            n == cs@.len(),
            a <= b <= n,
            trim_view(s@) == strip_trailing(s@.subrange(a as int, b as int)),
        decreases b,
    {
        assert(s@.subrange(a as int, b as int).drop_last() =~= s@.subrange(a as int, b - 1));
        b -= 1;
    }
    let mut r = String::new();
    let mut i: usize = a;
    while i < b
        invariant
            cs@ == s@,
            n == cs@.len(),
            a <= i <= b <= n,
            r@ == s@.subrange(a as int, i as int),
        decreases b - i,
    {
        r.push(cs[i]);
        i += 1;
        assert(r@ =~= s@.subrange(a as int, i as int));
    }
    r
}

/// Scanning `s` from the left: the words already closed and the word
/// being read at the end.
pub open spec fn word_scan(s: Seq<char>) -> (Seq<Seq<char>>, Seq<char>)
    decreases s.len(),
{
    if s.len() == 0 {
        (Seq::empty(), Seq::empty())
    } else {
        let (done, cur) = word_scan(s.drop_last());
        let c = s.last();
        if is_white_space(c) {
            if cur.len() > 0 {
                (done.push(cur), Seq::empty())
            } else {
                (done, cur)
            }
        } else {
            (done, cur.push(c))
        }
    }
}

/// The maximal runs of non-white-space characters of `s`, in order.
pub open spec fn words(s: Seq<char>) -> Seq<Seq<char>> {
    let (done, cur) = word_scan(s);
    if cur.len() > 0 {
        done.push(cur)
    } else {
        done
    }
}

/// Splits `s` at white space into its words, dropping empty pieces.
pub fn split_words(s: &str) -> (r: Vec<String>)
    ensures
        r.deep_view() == words(s@),
{
    let cs = chars_of(s);
    let mut done: Vec<String> = Vec::new();
    let mut cur = String::new();
    let mut cur_len: usize = 0;
    let mut i: usize = 0;
    while i < cs.len()
        invariant
            cs@ == s@,
            i <= cs@.len(),
            (done.deep_view(), cur@) == word_scan(cs@.take(i as int)),
            cur_len == cur@.len(),
            cur_len <= i,
        decreases cs@.len() - i,
    {
        let c = cs[i];
        let ghost prev = done.deep_view();
        assert(cs@.take(i + 1).drop_last() =~= cs@.take(i as int));
        if white_space(c) {
            if cur_len > 0 {
                let w = cur;
                done.push(w);
                cur = String::new();
                cur_len = 0;
                assert(done.deep_view() =~= prev.push(w@));
            }
        } else {
            cur.push(c);
            cur_len += 1;
        }
        i += 1;
    }
    assert(cs@.take(cs@.len() as int) =~= cs@);
    if cur_len > 0 {
        let ghost prev = done.deep_view();
        let w = cur;
        done.push(w);
        assert(done.deep_view() =~= prev.push(w@));
    }
    done
}

/// A word: at least one character, none of them white space.
pub open spec fn is_clean_word(w: Seq<char>) -> bool {
    w.len() > 0 && forall|k: int| 0 <= k < w.len() ==> !is_white_space(#[trigger] w[k])
}

proof fn lemma_scan_clean(s: Seq<char>)
    ensures
        forall|i: int| 0 <= i < word_scan(s).0.len() ==> is_clean_word(#[trigger] word_scan(s).0[i]),
        forall|k: int| 0 <= k < word_scan(s).1.len() ==> !is_white_space(#[trigger] word_scan(s).1[k]),
    decreases s.len(),
{
    if s.len() > 0 {
        let prev = s.drop_last();
        lemma_scan_clean(prev);
        let (done, cur) = word_scan(prev);
        let c = s.last();
        if is_white_space(c) {
            if cur.len() > 0 {
                let d2 = done.push(cur);
                assert forall|i: int| 0 <= i < d2.len() implies is_clean_word(#[trigger] d2[i]) by {
                    if i < done.len() {
                        assert(d2[i] == done[i]);
                    }
                }
            }
        } else {
            let c2 = cur.push(c);
            assert forall|k: int| 0 <= k < c2.len() implies !is_white_space(#[trigger] c2[k]) by {
                if k < cur.len() {
                    assert(c2[k] == cur[k]);
                }
            }
        }
    }
}

/// Every word that splitting yields is non-empty and free of white space.
pub proof fn lemma_words_are_clean(s: Seq<char>)
    ensures
        forall|i: int| 0 <= i < words(s).len() ==> is_clean_word(#[trigger] words(s)[i]),
{
    lemma_scan_clean(s);
}

/// A lower-case hexadecimal digit: `0`-`9` or `a`-`f`.
pub open spec fn is_hex_char(c: char) -> bool {
    ('0' <= c && c <= '9') || ('a' <= c && c <= 'f')
}

proof fn lemma_hex_lower_chars(n: nat)
    ensures
        hex_lower(n).len() > 0,
        forall|i: int| 0 <= i < hex_lower(n).len() ==> is_hex_char(#[trigger] hex_lower(n)[i]),
    decreases n,
{
    if n >= 16 {
        lemma_hex_lower_chars(n / 16);
        let h = hex_lower(n / 16);
        assert forall|i: int| 0 <= i < hex_lower(n).len() implies is_hex_char(#[trigger] hex_lower(n)[i]) by {
            if i < h.len() {
                assert(hex_lower(n)[i] == h[i]);
            }
        }
    }
}

/// A zero-padded hexadecimal rendering is at least sixteen characters of
/// lower-case hexadecimal digits.
pub proof fn lemma_padded_hex_shape(n: nat)
    ensures
        zero_padded(hex_lower(n), 16).len() >= 16,
        forall|i: int|
            0 <= i < zero_padded(hex_lower(n), 16).len() ==> is_hex_char(
                #[trigger] zero_padded(hex_lower(n), 16)[i],
            ),
{
    lemma_hex_lower_chars(n);
    let d = hex_lower(n);
    if d.len() < 16 {
        let z = Seq::new((16 - d.len()) as nat, |i: int| '0');
        assert forall|i: int| 0 <= i < (z + d).len() implies is_hex_char(#[trigger] (z + d)[i]) by {
            if i >= z.len() {
                assert((z + d)[i] == d[i - z.len()]);
            }
        }
    }
}

/// The value of a string of lower-case hexadecimal digits.
pub open spec fn hex_value(s: Seq<char>) -> nat
    decreases s.len(),
{
    if s.len() == 0 {
        0
    } else {
        hex_value(s.drop_last()) * 16 + digit_value(s.last())
    }
}

/// The value of one lower-case hexadecimal digit.
pub open spec fn digit_value(c: char) -> nat {
    let u = c as int;
    if u < 58 {
        (u - 48) as nat
    } else {
        (u - 87) as nat
    }
}

proof fn lemma_digit_value(d: int)
    requires
        0 <= d < 16,
    ensures
        digit_value(hex_digit(d)) == d,
{
}

proof fn lemma_hex_lower_value(n: nat)
    ensures
        hex_value(hex_lower(n)) == n,
    decreases n,
{
    let h = hex_lower(n);
    if n < 16 {
        lemma_digit_value(n as int);
        assert(h.drop_last() =~= Seq::<char>::empty());
        assert(hex_value(h.drop_last()) == 0);
        assert(h.last() == hex_digit(n as int));
        assert(hex_value(h) == hex_value(h.drop_last()) * 16 + digit_value(h.last()));
    } else {
        lemma_hex_lower_value(n / 16);
        lemma_digit_value((n % 16) as int);
        assert(h.drop_last() =~= hex_lower(n / 16));
        assert(h.last() == hex_digit((n % 16) as int));
        assert(hex_value(h) == hex_value(h.drop_last()) * 16 + digit_value(h.last()));
        assert((n / 16) * 16 + n % 16 == n) by (nonlinear_arith);
    }
}

proof fn lemma_zeros_value(k: nat)
    ensures
        hex_value(Seq::new(k, |i: int| '0')) == 0,
    decreases k,
{
    if k > 0 {
        assert(Seq::new(k, |i: int| '0').drop_last() =~= Seq::new((k - 1) as nat, |i: int| '0'));
        lemma_zeros_value((k - 1) as nat);
    }
}

proof fn lemma_leading_zeros_value(k: nat, d: Seq<char>)
    ensures
        hex_value(Seq::new(k, |i: int| '0') + d) == hex_value(d),
    decreases d.len(),
{
    let z = Seq::new(k, |i: int| '0');
    if d.len() == 0 {
        assert(z + d =~= z);
        lemma_zeros_value(k);
    } else {
        assert((z + d).drop_last() =~= z + d.drop_last());
        lemma_leading_zeros_value(k, d.drop_last());
    }
}

/// Padding with leading zeros does not change a hexadecimal value, so a
/// padded stamp still reads back as the number it was made from.
pub proof fn lemma_stamp_value(n: nat)
    ensures
        hex_value(zero_padded(hex_lower(n), 16)) == n,
{
    lemma_hex_lower_value(n);
    let d = hex_lower(n);
    if d.len() < 16 {
        lemma_leading_zeros_value((16 - d.len()) as nat, d);
    }
}

} // verus!
