//! Verified string helpers shared by the query builder, the response
//! classifier and the caches: equality, substring search, prefix/suffix
//! tests, splitting, joining, trimming, and decimal/hex rendering.

use vstd::prelude::*;
use vstd::string::StrSliceExecFns;
use vstd::string::StringExecFns;

verus! {

/// The character for one digit value below sixteen.
pub open spec fn spec_hex_char(n: int) -> char {
    if n == 0 { '0' }
    else if n == 1 { '1' }
    else if n == 2 { '2' }
    else if n == 3 { '3' }
    else if n == 4 { '4' }
    else if n == 5 { '5' }
    else if n == 6 { '6' }
    else if n == 7 { '7' }
    else if n == 8 { '8' }
    else if n == 9 { '9' }
    else if n == 10 { 'a' }
    else if n == 11 { 'b' }
    else if n == 12 { 'c' }
    else if n == 13 { 'd' }
    else if n == 14 { 'e' }
    else { 'f' }
}

pub open spec fn spec_is_hex_digit(c: char) -> bool {
    ('0' <= c && c <= '9') || ('a' <= c && c <= 'f') || ('A' <= c && c <= 'F')
}

/// The value of one hexadecimal digit, either case.
pub open spec fn spec_hex_val(c: char) -> int {
    if '0' <= c && c <= '9' { c as int - '0' as int }
    else if 'a' <= c && c <= 'f' { 10 + c as int - 'a' as int }
    else { 10 + c as int - 'A' as int }
}

/// The decimal digits of `n`, most significant first.
pub open spec fn spec_dec_digits(n: nat) -> Seq<char>
    decreases n,
{
    if n < 10 {
        seq![spec_hex_char(n as int)]
    } else {
        spec_dec_digits(n / 10).push(spec_hex_char((n % 10) as int))
    }
}

/// The decimal rendering of a signed value: a minus sign for negatives.
pub open spec fn spec_dec_signed(n: int) -> Seq<char> {
    if n >= 0 {
        spec_dec_digits(n as nat)
    } else {
        seq!['-'] + spec_dec_digits((-n) as nat)
    }
}

/// Two lowercase hexadecimal digits for every byte, in order.
pub open spec fn spec_hex_bytes(bs: Seq<u8>) -> Seq<char>
    decreases bs.len(),
{
    if bs.len() == 0 {
        Seq::empty()
    } else {
        spec_hex_bytes(bs.drop_last())
            + seq![spec_hex_char(bs.last() as int / 16), spec_hex_char(bs.last() as int % 16)]
    }
}

/// `p` is a prefix of `s`.
pub open spec fn spec_starts_with(s: Seq<char>, p: Seq<char>) -> bool {
    p.len() <= s.len() && s.subrange(0, p.len() as int) == p
}

/// `p` is a suffix of `s`.
pub open spec fn spec_ends_with(s: Seq<char>, p: Seq<char>) -> bool {
    p.len() <= s.len() && s.subrange(s.len() - p.len(), s.len() as int) == p
}

/// `n` occurs somewhere inside `h`.
pub open spec fn spec_contains(h: Seq<char>, n: Seq<char>) -> bool {
    exists|i: int| 0 <= i <= h.len() - n.len() && #[trigger] h.subrange(i, i + n.len()) == n
}

/// Splitting at every occurrence of `c`; always at least one segment.
pub open spec fn spec_split(s: Seq<char>, c: char) -> Seq<Seq<char>>
    decreases s.len(),
{
    if s.len() == 0 {
        seq![Seq::<char>::empty()]
    } else if s.last() == c {
        spec_split(s.drop_last(), c).push(Seq::<char>::empty())
    } else {
        let p = spec_split(s.drop_last(), c);
        p.update(p.len() - 1, p.last().push(s.last()))
    }
}

pub proof fn lemma_split_len(s: Seq<char>, c: char)
    ensures
        spec_split(s, c).len() >= 1,
    decreases s.len(),
{
    if s.len() > 0 {
        lemma_split_len(s.drop_last(), c);
    }
}

/// Joining segments with a separator character: the inverse view of
/// `spec_split` used by the query builder's parameter list.
pub open spec fn spec_join(parts: Seq<Seq<char>>, sep: char) -> Seq<char>
    decreases parts.len(),
{
    if parts.len() == 0 {
        Seq::empty()
    } else if parts.len() == 1 {
        parts[0]
    } else {
        spec_join(parts.drop_last(), sep) + seq![sep] + parts.last()
    }
}

/// Every character is one of the blank characters this crate strips.
pub open spec fn spec_is_space(c: char) -> bool {
    c == ' ' || c == '\t' || c == '\n' || c == '\r'
}

pub open spec fn spec_is_blank(s: Seq<char>) -> bool {
    forall|i: int| 0 <= i < s.len() ==> spec_is_space(#[trigger] s[i])
}

/// Character-for-character string equality.
pub fn str_eq(a: &str, b: &str) -> (r: bool)
    ensures
        r == (a@ == b@),
{
    let an: usize = a.unicode_len();
    let bn: usize = b.unicode_len();
    if an != bn {
        assert(a@ != b@);
        return false;
    }
    let mut i: usize = 0;
    while i < an
        invariant
            an == a@.len(),
            an == b@.len(),
            0 <= i <= an,
            forall|j: int| 0 <= j < i ==> a@[j] == b@[j],
        decreases an - i,
    {
        if a.get_char(i) != b.get_char(i) {
            assert(a@ != b@);
            return false;
        }
        i += 1;
    }
    proof {
        assert(a@ =~= b@);
    }
    true
}

/// Whether `p` begins `s`.
pub fn str_starts_with(s: &str, p: &str) -> (r: bool)
    ensures
        r == spec_starts_with(s@, p@),
{
    let sn: usize = s.unicode_len();
    let pn: usize = p.unicode_len();
    if pn > sn {
        return false;
    }
    let mut i: usize = 0;
    while i < pn
        invariant
            sn == s@.len(),
            pn == p@.len(),
            pn <= sn,
            0 <= i <= pn,
            forall|j: int| 0 <= j < i ==> s@[j] == p@[j],
        decreases pn - i,
    {
        if s.get_char(i) != p.get_char(i) {
            assert(s@.subrange(0, pn as int)[i as int] != p@[i as int]);
            return false;
        }
        i += 1;
    }
    proof {
        assert(s@.subrange(0, pn as int) =~= p@);
    }
    true
}

/// Whether `p` ends `s`.
pub fn str_ends_with(s: &str, p: &str) -> (r: bool)
    ensures
        r == spec_ends_with(s@, p@),
{
    let sn: usize = s.unicode_len();
    let pn: usize = p.unicode_len();
    if pn > sn {
        return false;
    }
    let off: usize = sn - pn;
    let mut i: usize = 0;
    while i < pn
        invariant
            sn == s@.len(),
            pn == p@.len(),
            pn <= sn,
            off == sn - pn,
            0 <= i <= pn,
            forall|j: int| 0 <= j < i ==> s@[off + j] == p@[j],
        decreases pn - i,
    {
        if s.get_char(off + i) != p.get_char(i) {
            assert(s@.subrange(off as int, sn as int)[i as int] != p@[i as int]);
            return false;
        }
        i += 1;
    }
    proof {
        assert(s@.subrange(off as int, sn as int) =~= p@);
    }
    true
}

/// Whether `n` occurs inside `h`: the classifier's substring sniff.
pub fn str_contains(h: &str, n: &str) -> (r: bool)
    ensures
        r == spec_contains(h@, n@),
{
    let hn: usize = h.unicode_len();
    let nn: usize = n.unicode_len();
    if nn > hn {
        return false;
    }
    if nn == 0 {
        proof {
            assert(h@.subrange(0, 0 + n@.len() as int) =~= n@);
        }
        return true;
    }
    let mut i: usize = 0;
    while i <= hn - nn
        invariant
            hn == h@.len(),
            nn == n@.len(),
            1 <= nn <= hn,
            0 <= i <= hn - nn + 1,
            forall|k: int| 0 <= k < i ==> #[trigger] h@.subrange(k, k + nn as int) != n@,
        decreases hn - i,
    {
        let mut j: usize = 0;
        let mut hit: bool = true;
        while j < nn
            invariant
                hn == h@.len(),
                nn == n@.len(),
                1 <= nn <= hn,
                0 <= i <= hn - nn,
                0 <= j <= nn,
                hit ==> forall|k: int| 0 <= k < j ==> h@[i + k] == n@[k],
                !hit ==> h@.subrange(i as int, i + nn as int) != n@,
            decreases nn - j,
        {
            if h.get_char(i + j) != n.get_char(j) {
                proof {
                    assert(h@.subrange(i as int, i + nn as int)[j as int] != n@[j as int]);
                }
                hit = false;
                j = nn;
            } else {
                j += 1;
            }
        }
        if hit {
            proof {
                assert(h@.subrange(i as int, i + nn as int) =~= n@);
            }
            return true;
        }
        i += 1;
    }
    proof {
        assert forall|k: int| 0 <= k <= h@.len() - n@.len()
            implies #[trigger] h@.subrange(k, k + n@.len() as int) != n@ by {
            assert(h@.subrange(k, k + nn as int) != n@);
        }
    }
    false
}

/// The segments of `s` between occurrences of `c`, in order.
pub fn str_split(s: &str, c: char) -> (parts: Vec<String>)
    ensures
        parts.deep_view() == spec_split(s@, c),
{
    let n: usize = s.unicode_len();
    let mut parts: Vec<String> = Vec::new();
    let mut start: usize = 0;
    let mut i: usize = 0;
    proof {
        assert(s@.subrange(0, 0) =~= Seq::<char>::empty());
        assert(parts.deep_view().push(s@.subrange(0, 0))
            =~= spec_split(s@.subrange(0, 0), c));
    }
    while i < n
        invariant
            n == s@.len(),
            0 <= start <= i <= n,
            parts.deep_view().push(s@.subrange(start as int, i as int))
                == spec_split(s@.subrange(0, i as int), c),
        decreases n - i,
    {
        let ghost pre = s@.subrange(0, i as int);
        let ghost cur = s@.subrange(start as int, i as int);
        let ghost old_dv = parts.deep_view();
        let ch = s.get_char(i);
        if ch == c {
            parts.push(s.substring_char(start, i).to_owned());
            start = i + 1;
        }
        i += 1;
        proof {
            let post = s@.subrange(0, i as int);
            assert(post.drop_last() =~= pre);
            assert(post.last() == s@[i - 1]);
            if ch == c {
                assert(parts.deep_view() =~= old_dv.push(cur));
                assert(spec_split(post, c) == spec_split(pre, c).push(Seq::<char>::empty()));
                assert(old_dv.push(cur) == spec_split(pre, c));
                assert(s@.subrange(start as int, i as int) =~= Seq::<char>::empty());
                assert(parts.deep_view().push(s@.subrange(start as int, i as int))
                    =~= spec_split(post, c));
            } else {
                let p = spec_split(pre, c);
                lemma_split_len(pre, c);
                assert(old_dv.push(cur) == p);
                assert(p.last() == cur);
                assert(spec_split(post, c) == p.update(p.len() - 1, p.last().push(s@[i - 1])));
                assert(s@.subrange(start as int, i as int) =~= cur.push(s@[i - 1]));
                assert(p.update(p.len() - 1, p.last().push(s@[i - 1]))
                    =~= old_dv.push(cur.push(s@[i - 1])));
                assert(parts.deep_view().push(s@.subrange(start as int, i as int))
                    =~= spec_split(post, c));
            }
        }
    }
    parts.push(s.substring_char(start, n).to_owned());
    proof {
        assert(s@.subrange(0, n as int) =~= s@);
    }
    parts
}

/// `s` without trailing occurrences of `c`.
pub fn str_trim_end_matches<'a>(s: &'a str, c: char) -> (r: &'a str)
    ensures
        ({
            let k = spec_trim_end_len(s@, c);
            r@ == s@.subrange(0, k)
        }),
{
    let n: usize = s.unicode_len();
    let mut k: usize = n;
    while k > 0
        invariant
            n == s@.len(),
            0 <= k <= n,
            forall|j: int| k <= j < n ==> s@[j] == c,
        decreases k,
    {
        if s.get_char(k - 1) != c {
            proof {
                lemma_trim_end_len(s@, c, k as int);
            }
            return s.substring_char(0, k);
        }
        k -= 1;
    }
    proof {
        lemma_trim_end_len(s@, c, 0);
    }
    s.substring_char(0, 0)
}

/// The length left once trailing `c` characters are dropped.
pub open spec fn spec_trim_end_len(s: Seq<char>, c: char) -> int
    decreases s.len(),
{
    if s.len() == 0 {
        0
    } else if s.last() == c {
        spec_trim_end_len(s.drop_last(), c)
    } else {
        s.len() as int
    }
}

proof fn lemma_trim_end_len(s: Seq<char>, c: char, k: int)
    requires
        0 <= k <= s.len(),
        forall|j: int| k <= j < s.len() ==> s[j] == c,
        k > 0 ==> s[k - 1] != c,
    ensures
        spec_trim_end_len(s, c) == k,
    decreases s.len(),
{
    if s.len() == 0 {
    } else if s.last() == c {
        assert(k < s.len());
        lemma_trim_end_len(s.drop_last(), c, k);
    } else {
        assert(k == s.len());
    }
}

/// The index of the first character that is not `c`.
pub open spec fn spec_trim_start_len(s: Seq<char>, c: char) -> int
    decreases s.len(),
{
    if s.len() == 0 {
        0
    } else if s[0] == c {
        1 + spec_trim_start_len(s.drop_first(), c)
    } else {
        0
    }
}

/// `s` without leading occurrences of `c`.
pub fn str_trim_start_matches<'a>(s: &'a str, c: char) -> (r: &'a str)
    ensures
        ({
            let k = spec_trim_start_len(s@, c);
            r@ == s@.subrange(k, s@.len() as int)
        }),
{
    let n: usize = s.unicode_len();
    let mut k: usize = 0;
    while k < n
        invariant
            n == s@.len(),
            0 <= k <= n,
            forall|j: int| 0 <= j < k ==> s@[j] == c,
        decreases n - k,
    {
        if s.get_char(k) != c {
            proof {
                lemma_trim_start_len(s@, c, k as int);
            }
            return s.substring_char(k, n);
        }
        k += 1;
    }
    proof {
        lemma_trim_start_len(s@, c, n as int);
    }
    s.substring_char(n, n)
}

proof fn lemma_trim_start_len(s: Seq<char>, c: char, k: int)
    requires
        0 <= k <= s.len(),
        forall|j: int| 0 <= j < k ==> s[j] == c,
        k < s.len() ==> s[k] != c,
    ensures
        spec_trim_start_len(s, c) == k,
    decreases s.len(),
{
    if s.len() == 0 {
    } else if s[0] == c {
        assert(k >= 1);
        assert(forall|j: int| 0 <= j < k - 1 ==> s.drop_first()[j] == c);
        lemma_trim_start_len(s.drop_first(), c, k - 1);
    }
}

/// Whether `s` consists of blank characters only.
pub fn str_is_blank(s: &str) -> (r: bool)
    ensures
        r == spec_is_blank(s@),
{
    let n: usize = s.unicode_len();
    let mut i: usize = 0;
    while i < n
        invariant
            n == s@.len(),
            0 <= i <= n,
            forall|j: int| 0 <= j < i ==> spec_is_space(#[trigger] s@[j]),
        decreases n - i,
    {
        let c = s.get_char(i);
        if !(c == ' ' || c == '\t' || c == '\n' || c == '\r') {
            return false;
        }
        i += 1;
    }
    true
}

/// The literal for one digit value below sixteen.
pub fn nibble_str(n: u8) -> (r: &'static str)
    requires
        n < 16,
    ensures
        r@ == seq![spec_hex_char(n as int)],
{
    proof {
        reveal_strlit("0");
        reveal_strlit("1");
        reveal_strlit("2");
        reveal_strlit("3");
        reveal_strlit("4");
        reveal_strlit("5");
        reveal_strlit("6");
        reveal_strlit("7");
        reveal_strlit("8");
        reveal_strlit("9");
        reveal_strlit("a");
        reveal_strlit("b");
        reveal_strlit("c");
        reveal_strlit("d");
        reveal_strlit("e");
        reveal_strlit("f");
    }
    match n {
        0 => "0",
        1 => "1",
        2 => "2",
        3 => "3",
        4 => "4",
        5 => "5",
        6 => "6",
        7 => "7",
        8 => "8",
        9 => "9",
        10 => "a",
        11 => "b",
        12 => "c",
        13 => "d",
        14 => "e",
        _ => "f",
    }
}

/// Appends the decimal digits of `n` to `out`.
pub fn push_dec_u64(out: &mut String, n: u64)
    ensures
        final(out)@ == old(out)@ + spec_dec_digits(n as nat),
    decreases n,
{
    if n < 10 {
        out.append(nibble_str(n as u8));
    } else {
        push_dec_u64(out, n / 10);
        out.append(nibble_str((n % 10) as u8));
    }
}

/// The decimal rendering of an unsigned value.
pub fn u64_to_dec(n: u64) -> (r: String)
    ensures
        r@ == spec_dec_digits(n as nat),
{
    let mut out = String::new();
    push_dec_u64(&mut out, n);
    proof {
        assert(out@ =~= spec_dec_digits(n as nat));
    }
    out
}

/// The decimal rendering of a signed value.
pub fn i64_to_dec(n: i64) -> (r: String)
    ensures
        r@ == spec_dec_signed(n as int),
{
    if n >= 0 {
        u64_to_dec(n as u64)
    } else {
        let mut out = String::new();
        proof {
            reveal_strlit("-");
        }
        out.append("-");
        let m: u64 = ((-(n + 1)) as u64) + 1;
        assert(m == -(n as int));
        push_dec_u64(&mut out, m);
        proof {
            assert(out@ =~= seq!['-'] + spec_dec_digits((-(n as int)) as nat));
        }
        out
    }
}

/// The lowercase hexadecimal rendering of a byte sequence.
pub fn bytes_to_hex(bs: &Vec<u8>) -> (r: String)
    ensures
        r@ == spec_hex_bytes(bs@),
{
    let mut out = String::new();
    let mut i: usize = 0;
    while i < bs.len()
        invariant
            0 <= i <= bs@.len(),
            out@ == spec_hex_bytes(bs@.subrange(0, i as int)),
        decreases bs@.len() - i,
    {
        let b = bs[i];
        out.append(nibble_str(b / 16));
        out.append(nibble_str(b % 16));
        i += 1;
        proof {
            let pre = bs@.subrange(0, i - 1);
            let post = bs@.subrange(0, i as int);
            assert(post.drop_last() =~= pre);
            assert(post.last() == bs@[i - 1]);
            assert(out@ =~= spec_hex_bytes(post));
        }
    }
    proof {
        assert(bs@.subrange(0, bs@.len() as int) =~= bs@);
    }
    out
}

} // verus!
