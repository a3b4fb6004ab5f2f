//! Small verified text utilities: character-exact string comparison and
//! decimal rendering of unsigned integers.

use vstd::prelude::*;
use vstd::string::*;

verus! {

/// The decimal digit character for a value between 0 and 9.
pub open spec fn dec_digit(d: int) -> char {
    if d == 0 {
        '0'
    } else if d == 1 {
        '1'
    } else if d == 2 {
        '2'
    } else if d == 3 {
        '3'
    } else if d == 4 {
        '4'
    } else if d == 5 {
        '5'
    } else if d == 6 {
        '6'
    } else if d == 7 {
        '7'
    } else if d == 8 {
        '8'
    } else {
        '9'
    }
}

/// The usual decimal rendering of a non-negative integer: most significant
/// digit first, no leading zeros (except for the value 0 itself).
pub open spec fn dec_rep(n: int) -> Seq<char>
    recommends
        n >= 0,
    decreases n,
{
    if n < 10 {
        seq![dec_digit(n)]
    } else {
        dec_rep(n / 10).push(dec_digit(n % 10))
    }
}

/// A one-character string slice holding the decimal digit `d`.
fn digit_str(d: u64) -> (r: &'static str)
    requires
        d < 10,
    ensures
        r@ == seq![dec_digit(d as int)],
{
    let r: &'static str = if d == 0 {
        "0"
    } else if d == 1 {
        "1"
    } else if d == 2 {
        "2"
    } else if d == 3 {
        "3"
    } else if d == 4 {
        "4"
    } else if d == 5 {
        "5"
    } else if d == 6 {
        "6"
    } else if d == 7 {
        "7"
    } else if d == 8 {
        "8"
    } else {
        "9"
    };
    proof {
        reveal_strlit("0");
        reveal_strlit("1");
        reveal_strlit("2");
        reveal_strlit("3");
        reveal_strlit("4");
        reveal_strlit("5");
        reveal_strlit("6");
        reveal_strlit("7");
        reveal_strlit("8");
        reveal_strlit("9");
        assert(r@ =~= seq![dec_digit(d as int)]);
    }
    r
}

/// The decimal rendering of a stack of digits, read from the top: the
/// digits stand least significant first, the rendering most significant
/// first.
spec fn rev_digit_seq(ds: Seq<u64>) -> Seq<char> {
    Seq::new(ds.len(), |i: int| dec_digit(ds[ds.len() - 1 - i] as int))
}

/// Append the decimal rendering of `n` to an existing string.
pub fn append_dec(out: &mut String, n: u64)
    ensures
        final(out)@ == old(out)@ + dec_rep(n as int),
{
    let ghost prefix = out@;
    let mut ds: Vec<u64> = Vec::new();
    let mut m: u64 = n;
    while m >= 10
        invariant
            dec_rep(n as int) == dec_rep(m as int) + rev_digit_seq(ds@),
            forall|j: int| 0 <= j < ds@.len() ==> ds@[j] < 10,
        decreases m,
    {
        let ghost old_ds = ds@;
        let d = m % 10;
        ds.push(d);
        m = m / 10;
        proof {
            assert(rev_digit_seq(ds@) =~= seq![dec_digit(d as int)] + rev_digit_seq(old_ds));
            assert(dec_rep(m as int) + rev_digit_seq(ds@) =~= dec_rep(m as int).push(
                dec_digit(d as int),
            ) + rev_digit_seq(old_ds));
        }
    }
    let ghost old_ds = ds@;
    ds.push(m);
    proof {
        assert(rev_digit_seq(ds@) =~= seq![dec_digit(m as int)] + rev_digit_seq(old_ds));
        assert(dec_rep(m as int) + rev_digit_seq(old_ds) =~= rev_digit_seq(ds@));
        assert(dec_rep(n as int) == rev_digit_seq(ds@));
    }
    let ghost rendering = rev_digit_seq(ds@);
    let k = ds.len();
    let mut i: usize = k;
    proof {
        assert(out@ =~= prefix + rendering.take(0));
    }
    while i > 0
        invariant
            k == ds@.len(),
            i <= k,
            forall|j: int| 0 <= j < ds@.len() ==> ds@[j] < 10,
            rendering == rev_digit_seq(ds@),
            out@ == prefix + rendering.take(k - i),
        decreases i,
    {
        i = i - 1;
        out.append(digit_str(ds[i]));
        proof {
            let c = k - i - 1;
            assert(rendering[c] == dec_digit(ds@[i as int] as int));
            assert(rendering.take(c + 1) =~= rendering.take(c).push(rendering[c]));
            assert(out@ =~= prefix + rendering.take(k - i));
        }
    }
    proof {
        assert(rendering.take(k as int) =~= rendering);
        assert(out@ =~= prefix + dec_rep(n as int));
    }
}

/// Render `n` in decimal.
pub fn u64_to_dec(n: u64) -> (r: String)
    ensures
        r@ == dec_rep(n as int),
{
    let mut r = String::new();
    append_dec(&mut r, n);
    proof {
        assert(r@ =~= dec_rep(n as int));
    }
    r
}

/// Character-exact equality of two string slices, decided on their UTF-8
/// bytes: two strings are equal exactly when their encodings are.
pub fn str_eq(a: &str, b: &str) -> (r: bool)
    ensures
        r == (a@ == b@),
{
    let ab = a.as_bytes();
    let bb = b.as_bytes();
    let n = ab.len();
    if n != bb.len() {
        proof {
            if a@ == b@ {
                assert(a.spec_bytes() == b.spec_bytes());
            }
        }
        return false;
    }
    let mut i: usize = 0;
    while i < n
        invariant
            ab@ == a.spec_bytes(),
            bb@ == b.spec_bytes(),
            n == ab@.len(),
            n == bb@.len(),
            i <= n,
            forall|j: int| 0 <= j < i ==> ab@[j] == bb@[j],
        decreases n - i,
    {
        if ab[i] != bb[i] {
            proof {
                if a@ == b@ {
                    assert(a.spec_bytes() == b.spec_bytes());
                }
            }
            return false;
        }
        i = i + 1;
    }
    proof {
        assert(ab@ =~= bb@);
        vstd::utf8::encode_utf8_decode_utf8(a@);
        vstd::utf8::encode_utf8_decode_utf8(b@);
    }
    true
}

} // verus!
