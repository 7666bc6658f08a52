use vstd::prelude::*;

verus! {

/// Appends `s` to `out`.
pub fn push_bytes(out: &mut Vec<u8>, s: &[u8])
    ensures
        final(out)@ == old(out)@ + s@,
{
    out.extend_from_slice(s);
    proof {
        assert(out@ =~= old(out)@ + s@);
    }
}

/// JSON null, as bytes: `null`.
pub open spec fn lit_null() -> Seq<u8> {
    seq![0x6Eu8, 0x75u8, 0x6Cu8, 0x6Cu8]
}

/// Appends `null`.
pub fn push_null(out: &mut Vec<u8>)
    ensures
        final(out)@ == old(out)@ + lit_null(),
{
    let frag: [u8; 4] = [0x6Eu8, 0x75u8, 0x6Cu8, 0x6Cu8];
    push_bytes(out, frag.as_slice());
    proof {
        assert(out@ =~= old(out)@ + lit_null());
    }
}

/// The ASCII digit for `d % 10`.
pub open spec fn dec_digit(d: nat) -> u8 {
    (0x30 + d % 10) as u8
}

/// The decimal digits of `n`, most significant first, no leading zeros.
pub open spec fn dec_digits(n: nat) -> Seq<u8>
    decreases n,
{
    if n < 10 {
        seq![dec_digit(n)]
    } else {
        dec_digits(n / 10).push(dec_digit(n % 10))
    }
}

/// Appends the decimal digits of `n`.
pub fn push_decimal(out: &mut Vec<u8>, n: u64)
    ensures
        final(out)@ == old(out)@ + dec_digits(n as nat),
    decreases n,
{
    if n < 10 {
        out.push(0x30u8 + (n as u8));
        proof {
            assert(out@ =~= old(out)@ + dec_digits(n as nat));
        }
    } else {
        push_decimal(out, n / 10);
        out.push(0x30u8 + ((n % 10) as u8));
        proof {
            assert((n as nat) / 10 == (n / 10) as nat);
            assert((n as nat) % 10 == (n % 10) as nat);
            assert(out@ =~= old(out)@ + dec_digits(n as nat));
        }
    }
}

/// Lower-case hexadecimal digit for `d % 16`.
pub open spec fn hex_lower(d: nat) -> u8 {
    if d % 16 < 10 {
        (0x30 + d % 16) as u8
    } else {
        (0x57 + d % 16) as u8
    }
}

/// Upper-case hexadecimal digit for `d % 16`.
pub open spec fn hex_upper(d: nat) -> u8 {
    if d % 16 < 10 {
        (0x30 + d % 16) as u8
    } else {
        (0x37 + d % 16) as u8
    }
}

fn hex_lower_exec(d: u8) -> (r: u8)
    requires
        d < 16,
    ensures
        r == hex_lower(d as nat),
{
    if d < 10 {
        0x30 + d
    } else {
        0x57 + d
    }
}

fn hex_upper_exec(d: u8) -> (r: u8)
    requires
        d < 16,
    ensures
        r == hex_upper(d as nat),
{
    if d < 10 {
        0x30 + d
    } else {
        0x37 + d
    }
}

/// How one byte of UTF-8 text appears inside a JSON string literal: quote
/// and backslash take a two-byte escape, the common control bytes take
/// their short escapes, the remaining control bytes take the `\u00XX`
/// form, and every other byte (multi-byte UTF-8 included) passes through.
pub open spec fn json_escape_byte(b: u8) -> Seq<u8> {
    if b == 0x22 {
        seq![0x5Cu8, 0x22u8]
    } else if b == 0x5C {
        seq![0x5Cu8, 0x5Cu8]
    } else if b == 0x08 {
        seq![0x5Cu8, 0x62u8]
    } else if b == 0x09 {
        seq![0x5Cu8, 0x74u8]
    } else if b == 0x0A {
        seq![0x5Cu8, 0x6Eu8]
    } else if b == 0x0C {
        seq![0x5Cu8, 0x66u8]
    } else if b == 0x0D {
        seq![0x5Cu8, 0x72u8]
    } else if b < 0x20 {
        seq![0x5Cu8, 0x75u8, 0x30u8, 0x30u8, hex_lower((b / 16) as nat), hex_lower((b % 16) as nat)]
    } else {
        seq![b]
    }
}

/// The JSON escaping of a whole byte string.
pub open spec fn json_escaped(s: Seq<u8>) -> Seq<u8>
    decreases s.len(),
{
    if s.len() == 0 {
        Seq::empty()
    } else {
        json_escaped(s.drop_last()) + json_escape_byte(s.last())
    }
}

/// A JSON string literal holding `s`: a quote, the escaped bytes, a quote.
pub open spec fn json_string(s: Seq<u8>) -> Seq<u8> {
    seq![0x22u8] + json_escaped(s) + seq![0x22u8]
}

/// Appends the JSON escaping of `s`.
pub fn push_json_escaped(out: &mut Vec<u8>, s: &[u8])
    ensures
        final(out)@ == old(out)@ + json_escaped(s@),
{
    let mut i: usize = 0;
    while i < s.len()
        invariant
            i <= s@.len(),
            out@ == old(out)@ + json_escaped(s@.take(i as int)),
        decreases s@.len() - i,
    {
        let b = s[i];
        if b == 0x22 {
            out.push(0x5C);
            out.push(0x22);
        } else if b == 0x5C {
            out.push(0x5C);
            out.push(0x5C);
        } else if b == 0x08 {
            out.push(0x5C);
            out.push(0x62);
        } else if b == 0x09 {
            out.push(0x5C);
            out.push(0x74);
        } else if b == 0x0A {
            out.push(0x5C);
            out.push(0x6E);
        } else if b == 0x0C {
            out.push(0x5C);
            out.push(0x66);
        } else if b == 0x0D {
            out.push(0x5C);
            out.push(0x72);
        } else if b < 0x20 {
            out.push(0x5C);
            out.push(0x75);
            out.push(0x30);
            out.push(0x30);
            let hi = hex_lower_exec(b / 16);
            let lo = hex_lower_exec(b % 16);
            out.push(hi);
            out.push(lo);
        } else {
            out.push(b);
        }
        proof {
            assert(s@.take((i + 1) as int).drop_last() =~= s@.take(i as int));
            assert(s@.take((i + 1) as int).last() == s@[i as int]);
            assert(out@ =~= old(out)@ + json_escaped(s@.take((i + 1) as int)));
        }
        i = i + 1;
    }
    proof {
        assert(s@.take(s@.len() as int) =~= s@);
    }
}

/// Appends a JSON string literal holding `s`.
pub fn push_json_string(out: &mut Vec<u8>, s: &[u8])
    ensures
        final(out)@ == old(out)@ + json_string(s@),
{
    out.push(0x22);
    push_json_escaped(out, s);
    out.push(0x22);
    proof {
        assert(out@ =~= old(out)@ + json_string(s@));
    }
}

/// Bytes that stand for themselves in a URL path segment: the unreserved
/// characters `A`-`Z`, `a`-`z`, `0`-`9`, `-`, `.`, `_` and `~`.
pub open spec fn pct_unreserved(b: u8) -> bool {
    (0x41 <= b && b <= 0x5A) || (0x61 <= b && b <= 0x7A) || (0x30 <= b && b <= 0x39) || b == 0x2D
        || b == 0x2E || b == 0x5F || b == 0x7E
}

/// How one byte appears in a percent-encoded path segment.
pub open spec fn pct_byte(b: u8) -> Seq<u8> {
    if pct_unreserved(b) {
        seq![b]
    } else {
        seq![0x25u8, hex_upper((b / 16) as nat), hex_upper((b % 16) as nat)]
    }
}

/// The percent-encoding of a whole byte string.
pub open spec fn pct_encoded(s: Seq<u8>) -> Seq<u8>
    decreases s.len(),
{
    if s.len() == 0 {
        Seq::empty()
    } else {
        pct_encoded(s.drop_last()) + pct_byte(s.last())
    }
}

/// Appends the percent-encoding of `s`.
pub fn push_pct_encoded(out: &mut Vec<u8>, s: &[u8])
    ensures
        final(out)@ == old(out)@ + pct_encoded(s@),
{
    let mut i: usize = 0;
    while i < s.len()
        invariant
            i <= s@.len(),
            out@ == old(out)@ + pct_encoded(s@.take(i as int)),
        decreases s@.len() - i,
    {
        let b = s[i];
        let keep = (0x41 <= b && b <= 0x5A) || (0x61 <= b && b <= 0x7A) || (0x30 <= b && b
            <= 0x39) || b == 0x2D || b == 0x2E || b == 0x5F || b == 0x7E;
        if keep {
            out.push(b);
        } else {
            out.push(0x25);
            let hi = hex_upper_exec(b / 16);
            let lo = hex_upper_exec(b % 16);
            out.push(hi);
            out.push(lo);
        }
        proof {
            assert(s@.take((i + 1) as int).drop_last() =~= s@.take(i as int));
            assert(s@.take((i + 1) as int).last() == s@[i as int]);
            assert(out@ =~= old(out)@ + pct_encoded(s@.take((i + 1) as int)));
        }
        i = i + 1;
    }
    proof {
        assert(s@.take(s@.len() as int) =~= s@);
    }
}

/// Does `a[off..]` equal `b`, byte for byte?
pub fn tail_eq(a: &[u8], off: usize, b: &[u8]) -> (r: bool)
    requires
        off <= a@.len(),
    ensures
        r == (a@.skip(off as int) == b@),
{
    if a.len() - off != b.len() {
        proof {
            assert(a@.skip(off as int).len() != b@.len());
        }
        return false;
    }
    let mut i: usize = 0;
    while i < b.len()
        invariant
            off + b@.len() == a@.len(),
            a@.len() <= usize::MAX,
            i <= b@.len(),
            forall|j: int| 0 <= j < i ==> a@[off + j] == b@[j],
        decreases b@.len() - i,
    {
        proof {
            assert(off + i < a@.len());
        }
        if a[off + i] != b[i] {
            proof {
                assert(a@.skip(off as int)[i as int] == a@[off + i]);
            }
            return false;
        }
        i = i + 1;
    }
    proof {
        assert(a@.skip(off as int) =~= b@);
    }
    true
}

/// Does `a` start with `p`?
pub fn starts_with(a: &[u8], p: &[u8]) -> (r: bool)
    ensures
        r == (a@.len() >= p@.len() && a@.take(p@.len() as int) == p@),
{
    if a.len() < p.len() {
        return false;
    }
    let mut i: usize = 0;
    while i < p.len()
        invariant
            p@.len() <= a@.len(),
            i <= p@.len(),
            forall|j: int| 0 <= j < i ==> a@[j] == p@[j],
        decreases p@.len() - i,
    {
        if a[i] != p[i] {
            proof {
                assert(a@.take(p@.len() as int)[i as int] == a@[i as int]);
            }
            return false;
        }
        i = i + 1;
    }
    proof {
        assert(a@.take(p@.len() as int) =~= p@);
    }
    true
}

/// Copies `a[start..end]` into a fresh vector.
pub fn copy_range(a: &[u8], start: usize, end: usize) -> (r: Vec<u8>)
    requires
        start <= end <= a@.len(),
    ensures
        r@ == a@.subrange(start as int, end as int),
{
    let mut out: Vec<u8> = Vec::new();
    let mut i: usize = start;
    while i < end
        invariant
            start <= i <= end <= a@.len(),
            out@ == a@.subrange(start as int, i as int),
        decreases end - i,
    {
        out.push(a[i]);
        proof {
            assert(out@ =~= a@.subrange(start as int, (i + 1) as int));
        }
        i = i + 1;
    }
    out
}

} // verus!
