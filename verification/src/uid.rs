//! Entity identifiers. The remote service keys every entity by a 128-bit
//! universally-unique identifier; this crate carries one as a plain `u128`
//! and renders or parses the canonical hyphenated form (8-4-4-4-12 lowercase
//! hexadecimal digits of the big-endian value) itself.

use vstd::prelude::*;
use vstd::string::StrSliceExecFns;
use vstd::string::StringExecFns;
use crate::strutil::spec_hex_char;
use crate::strutil::spec_is_hex_digit;
use crate::strutil::spec_hex_val;
use crate::strutil::nibble_str;

verus! {

/// `k` hexadecimal digits of `n`, most significant first, fixed width.
pub open spec fn spec_hex_fixed(n: int, k: nat) -> Seq<char>
    decreases k,
{
    if k == 0 {
        Seq::empty()
    } else {
        spec_hex_fixed(n / 16, (k - 1) as nat).push(spec_hex_char(n % 16))
    }
}

/// The canonical hyphenated rendering of an identifier.
pub open spec fn spec_uuid_str(v: u128) -> Seq<char> {
    spec_hex_fixed(v as int / 0x1000000000000000000000000, 8) + seq!['-']
        + spec_hex_fixed((v as int / 0x100000000000000000000) % 0x10000, 4) + seq!['-']
        + spec_hex_fixed((v as int / 0x10000000000000000) % 0x10000, 4) + seq!['-']
        + spec_hex_fixed((v as int / 0x1000000000000) % 0x10000, 4) + seq!['-']
        + spec_hex_fixed(v as int % 0x1000000000000, 12)
}

pub open spec fn spec_all_hex(s: Seq<char>) -> bool {
    forall|i: int| 0 <= i < s.len() ==> spec_is_hex_digit(#[trigger] s[i])
}

/// The value of a fixed-width string of hexadecimal digits.
pub open spec fn spec_hex_parse(s: Seq<char>) -> int
    decreases s.len(),
{
    if s.len() == 0 {
        0
    } else {
        spec_hex_parse(s.drop_last()) * 16 + spec_hex_val(s.last())
    }
}

/// A well-formed hyphenated identifier string: five hexadecimal groups of
/// widths 8, 4, 4, 4 and 12.
pub open spec fn spec_uuid_wf(s: Seq<char>) -> bool {
    &&& s.len() == 36
    &&& s[8] == '-'
    &&& s[13] == '-'
    &&& s[18] == '-'
    &&& s[23] == '-'
    &&& spec_all_hex(s.subrange(0, 8))
    &&& spec_all_hex(s.subrange(9, 13))
    &&& spec_all_hex(s.subrange(14, 18))
    &&& spec_all_hex(s.subrange(19, 23))
    &&& spec_all_hex(s.subrange(24, 36))
}

/// The identifier a well-formed hyphenated string denotes.
pub open spec fn spec_uuid_val(s: Seq<char>) -> int {
    spec_hex_parse(s.subrange(0, 8)) * 0x1000000000000000000000000
        + spec_hex_parse(s.subrange(9, 13)) * 0x100000000000000000000
        + spec_hex_parse(s.subrange(14, 18)) * 0x10000000000000000
        + spec_hex_parse(s.subrange(19, 23)) * 0x1000000000000
        + spec_hex_parse(s.subrange(24, 36))
}

pub open spec fn pow16(k: nat) -> nat
    decreases k,
{
    if k == 0 {
        1nat
    } else {
        16 * pow16((k - 1) as nat)
    }
}

proof fn lemma_pow16_pos(k: nat)
    ensures
        pow16(k) >= 1,
    decreases k,
{
    if k > 0 {
        lemma_pow16_pos((k - 1) as nat);
    }
}

proof fn lemma_pow16_mono(a: nat, b: nat)
    requires
        a <= b,
    ensures
        pow16(a) <= pow16(b),
    decreases b,
{
    if a < b {
        lemma_pow16_mono(a, (b - 1) as nat);
        lemma_pow16_pos((b - 1) as nat);
    }
}

pub proof fn lemma_hex_parse_bound(s: Seq<char>)
    requires
        spec_all_hex(s),
    ensures
        0 <= spec_hex_parse(s) < pow16(s.len()),
    decreases s.len(),
{
    if s.len() > 0 {
        assert(spec_all_hex(s.drop_last()));
        lemma_hex_parse_bound(s.drop_last());
        assert(0 <= spec_hex_val(s.last()) < 16);
    }
}

/// Appends `k` fixed-width hexadecimal digits of `n`.
pub fn push_hex_fixed(out: &mut String, n: u128, k: u8)
    ensures
        final(out)@ == old(out)@ + spec_hex_fixed(n as int, k as nat),
    decreases k,
{
    if k > 0 {
        push_hex_fixed(out, n / 16, k - 1);
        out.append(nibble_str((n % 16) as u8));
        proof {
            assert(out@ =~= old(out)@ + spec_hex_fixed(n as int, k as nat));
        }
    } else {
        proof {
            assert(out@ =~= old(out)@ + spec_hex_fixed(n as int, 0));
        }
    }
}

/// The canonical hyphenated rendering of an identifier, as the remote
/// service writes identifiers in filters and payloads.
pub fn uuid_to_string(v: u128) -> (r: String)
    ensures
        r@ == spec_uuid_str(v),
{
    proof {
        reveal_strlit("-");
    }
    let mut out = String::new();
    push_hex_fixed(&mut out, v / 0x1000000000000000000000000u128, 8);
    out.append("-");
    push_hex_fixed(&mut out, (v / 0x100000000000000000000u128) % 0x10000, 4);
    out.append("-");
    push_hex_fixed(&mut out, (v / 0x10000000000000000u128) % 0x10000, 4);
    out.append("-");
    push_hex_fixed(&mut out, (v / 0x1000000000000u128) % 0x10000, 4);
    out.append("-");
    push_hex_fixed(&mut out, v % 0x1000000000000u128, 12);
    proof {
        assert(out@ =~= spec_uuid_str(v));
    }
    out
}

/// Parses one fixed-width group of hexadecimal digits, either case.
pub fn parse_hex_group(s: &str) -> (r: Option<u64>)
    requires
        s@.len() <= 12,
    ensures
        r is Some <==> spec_all_hex(s@),
        r matches Some(v) ==> v as int == spec_hex_parse(s@),
{
    let n: usize = s.unicode_len();
    let mut acc: u64 = 0;
    let mut i: usize = 0;
    proof {
        assert(s@.subrange(0, 0) =~= Seq::<char>::empty());
    }
    while i < n
        invariant
            n == s@.len(),
            n <= 12,
            0 <= i <= n,
            spec_all_hex(s@.subrange(0, i as int)),
            acc == spec_hex_parse(s@.subrange(0, i as int)),
            acc < pow16(i as nat),
        decreases n - i,
    {
        let c = s.get_char(i);
        let cv: u32 = c as u32;
        let v: u64;
        if cv >= 48 && cv <= 57 {
            v = (cv - 48) as u64;
        } else if cv >= 97 && cv <= 102 {
            v = (cv - 87) as u64;
        } else if cv >= 65 && cv <= 70 {
            v = (cv - 55) as u64;
        } else {
            proof {
                assert(!spec_is_hex_digit(s@[i as int]));
            }
            return None;
        }
        proof {
            assert(spec_is_hex_digit(s@[i as int]));
            assert(v as int == spec_hex_val(s@[i as int]));
            lemma_pow16_mono(i as nat, 11);
            reveal_with_fuel(pow16, 13);
            assert(pow16(11) == 0x100000000000nat);
        }
        acc = acc * 16 + v;
        i += 1;
        proof {
            let pre = s@.subrange(0, i - 1);
            let post = s@.subrange(0, i as int);
            assert(post.drop_last() =~= pre);
            assert(post.last() == s@[i - 1]);
            assert(spec_all_hex(post));
            assert(pow16(i as nat) == 16 * pow16((i - 1) as nat));
        }
    }
    proof {
        assert(s@.subrange(0, n as int) =~= s@);
    }
    Some(acc)
}

/// Parses a canonical hyphenated identifier: `Some` exactly on well-formed
/// strings, and then the denoted 128-bit value.
pub fn parse_uuid(s: &str) -> (r: Option<u128>)
    ensures
        r is Some <==> spec_uuid_wf(s@),
        r matches Some(v) ==> v as int == spec_uuid_val(s@),
{
    if s.unicode_len() != 36 {
        return None;
    }
    if !(s.get_char(8) == '-' && s.get_char(13) == '-' && s.get_char(18) == '-'
        && s.get_char(23) == '-') {
        return None;
    }
    let g1 = match parse_hex_group(s.substring_char(0, 8)) {
        Some(v) => v,
        None => { return None; },
    };
    let g2 = match parse_hex_group(s.substring_char(9, 13)) {
        Some(v) => v,
        None => { return None; },
    };
    let g3 = match parse_hex_group(s.substring_char(14, 18)) {
        Some(v) => v,
        None => { return None; },
    };
    let g4 = match parse_hex_group(s.substring_char(19, 23)) {
        Some(v) => v,
        None => { return None; },
    };
    let g5 = match parse_hex_group(s.substring_char(24, 36)) {
        Some(v) => v,
        None => { return None; },
    };
    proof {
        lemma_hex_parse_bound(s@.subrange(0, 8));
        lemma_hex_parse_bound(s@.subrange(9, 13));
        lemma_hex_parse_bound(s@.subrange(14, 18));
        lemma_hex_parse_bound(s@.subrange(19, 23));
        lemma_hex_parse_bound(s@.subrange(24, 36));
        reveal_with_fuel(pow16, 13);
        assert(pow16(8) == 0x100000000nat);
        assert(pow16(4) == 0x10000nat);
        assert(pow16(12) == 0x1000000000000nat);
    }
    let v: u128 = (g1 as u128) * 0x1000000000000000000000000u128
        + (g2 as u128) * 0x100000000000000000000u128
        + (g3 as u128) * 0x10000000000000000u128
        + (g4 as u128) * 0x1000000000000u128
        + (g5 as u128);
    Some(v)
}

/// Fixed-width rendering always has its width.
proof fn lemma_hex_fixed_len(n: int, k: nat)
    ensures
        spec_hex_fixed(n, k).len() == k,
    decreases k,
{
    if k > 0 {
        lemma_hex_fixed_len(n / 16, (k - 1) as nat);
    }
}

/// Fixed-width rendering of a non-negative value is hexadecimal text.
proof fn lemma_hex_fixed_all_hex(n: int, k: nat)
    requires
        n >= 0,
    ensures
        spec_all_hex(spec_hex_fixed(n, k)),
    decreases k,
{
    if k > 0 {
        lemma_hex_fixed_all_hex(n / 16, (k - 1) as nat);
        lemma_hex_val_of_char(n % 16);
        let pre = spec_hex_fixed(n / 16, (k - 1) as nat);
        assert(forall|i: int|
            0 <= i < pre.len() ==> (#[trigger] spec_hex_fixed(n, k)[i]) == pre[i]);
        assert(spec_hex_fixed(n, k).last() == spec_hex_char(n % 16));
    }
}

/// Each digit character reads back as its value.
proof fn lemma_hex_val_of_char(d: int)
    requires
        0 <= d < 16,
    ensures
        spec_is_hex_digit(spec_hex_char(d)),
        spec_hex_val(spec_hex_char(d)) == d,
{
}

/// Parsing inverts fixed-width rendering on values that fit the width.
proof fn lemma_hex_parse_fixed(n: int, k: nat)
    requires
        0 <= n < pow16(k),
    ensures
        spec_hex_parse(spec_hex_fixed(n, k)) == n,
    decreases k,
{
    if k > 0 {
        assert(pow16(k) == 16 * pow16((k - 1) as nat));
        assert(n / 16 < pow16((k - 1) as nat)) by (nonlinear_arith)
            requires
                n >= 0,
                n < 16 * pow16((k - 1) as nat),
        ;
        lemma_hex_parse_fixed(n / 16, (k - 1) as nat);
        let s = spec_hex_fixed(n, k);
        assert(s.drop_last() =~= spec_hex_fixed(n / 16, (k - 1) as nat));
        assert(s.last() == spec_hex_char(n % 16));
        lemma_hex_val_of_char(n % 16);
    }
}

/// A 128-bit value is the weighted sum of its five canonical groups.
proof fn lemma_uuid_group_decomposition(v: u128)
    ensures
        (v as int / 0x1000000000000000000000000) * 0x1000000000000000000000000
            + ((v as int / 0x100000000000000000000) % 0x10000) * 0x100000000000000000000
            + ((v as int / 0x10000000000000000) % 0x10000) * 0x10000000000000000
            + ((v as int / 0x1000000000000) % 0x10000) * 0x1000000000000
            + (v as int % 0x1000000000000) == v as int,
{
    let x = v as int;
    vstd::arithmetic::div_mod::lemma_fundamental_div_mod(x, 0x1000000000000000000000000);
    vstd::arithmetic::div_mod::lemma_breakdown(x, 0x100000000000000000000, 0x10000);
    vstd::arithmetic::div_mod::lemma_breakdown(x, 0x10000000000000000, 0x10000);
    vstd::arithmetic::div_mod::lemma_breakdown(x, 0x1000000000000, 0x10000);
}

/// Rendering and parsing are mutual inverses: the canonical text of an
/// identifier is well-formed and denotes the identifier again. Distinct
/// identifiers therefore never share their canonical text.
#[verifier::rlimit(60)]
pub proof fn lemma_uuid_round_trip(v: u128)
    ensures
        spec_uuid_wf(spec_uuid_str(v)),
        spec_uuid_val(spec_uuid_str(v)) == v,
{
    reveal_with_fuel(pow16, 13);
    assert(pow16(8) == 0x100000000nat);
    assert(pow16(4) == 0x10000nat);
    assert(pow16(12) == 0x1000000000000nat);
    let g1 = v as int / 0x1000000000000000000000000;
    let g2 = (v as int / 0x100000000000000000000) % 0x10000;
    let g3 = (v as int / 0x10000000000000000) % 0x10000;
    let g4 = (v as int / 0x1000000000000) % 0x10000;
    let g5 = v as int % 0x1000000000000;
    assert(0 <= g1 < 0x100000000) by (nonlinear_arith)
        requires
            0 <= v < 0x100000000000000000000000000000000,
            g1 == v as int / 0x1000000000000000000000000,
    ;
    let h1 = spec_hex_fixed(g1, 8);
    let h2 = spec_hex_fixed(g2, 4);
    let h3 = spec_hex_fixed(g3, 4);
    let h4 = spec_hex_fixed(g4, 4);
    let h5 = spec_hex_fixed(g5, 12);
    lemma_hex_fixed_len(g1, 8);
    lemma_hex_fixed_len(g2, 4);
    lemma_hex_fixed_len(g3, 4);
    lemma_hex_fixed_len(g4, 4);
    lemma_hex_fixed_len(g5, 12);
    lemma_hex_fixed_all_hex(g1, 8);
    lemma_hex_fixed_all_hex(g2, 4);
    lemma_hex_fixed_all_hex(g3, 4);
    lemma_hex_fixed_all_hex(g4, 4);
    lemma_hex_fixed_all_hex(g5, 12);
    let s = spec_uuid_str(v);
    assert(s.len() == 36);
    assert(s.subrange(0, 8) =~= h1);
    assert(s.subrange(9, 13) =~= h2);
    assert(s.subrange(14, 18) =~= h3);
    assert(s.subrange(19, 23) =~= h4);
    assert(s.subrange(24, 36) =~= h5);
    assert(s[8] == '-' && s[13] == '-' && s[18] == '-' && s[23] == '-');
    lemma_hex_parse_fixed(g1, 8);
    lemma_hex_parse_fixed(g2, 4);
    lemma_hex_parse_fixed(g3, 4);
    lemma_hex_parse_fixed(g4, 4);
    lemma_hex_parse_fixed(g5, 12);
    assert(spec_uuid_val(s) == g1 * 0x1000000000000000000000000 + g2 * 0x100000000000000000000
        + g3 * 0x10000000000000000 + g4 * 0x1000000000000 + g5);
    lemma_uuid_group_decomposition(v);
}

} // verus!
