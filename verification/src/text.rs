//! Verified text building blocks: decimal rendering of integers, fixed-width
//! zero padding, and joining string pieces with a separator. Used by the log
//! record formatting and by panel content rendering.

use vstd::prelude::*;
use vstd::string::{StrSliceExecFns, StringExecFns};

verus! {

/// Relies on `alloc::string::String::push`: appends exactly the given
/// character to the end of the string.
pub assume_specification[ String::push ](s: &mut String, c: char)
    ensures
        final(s)@ == old(s)@.push(c),
;

/// The decimal digit character for a value below ten.
pub open spec fn digit_char(d: nat) -> char {
    if d == 0 {
        '0'
    } else if d == 1 {
        '1'
    } else if d == 2 {
        '2'
    } else if d == 3 {
        '3'
    } else if d == 4 {
        '4'
    } else if d == 5 {
        '5'
    } else if d == 6 {
        '6'
    } else if d == 7 {
        '7'
    } else if d == 8 {
        '8'
    } else {
        '9'
    }
}

/// The decimal rendering of a natural number, most significant digit first,
/// with no leading zeros (a single zero for the value zero).
pub open spec fn spec_dec(n: nat) -> Seq<char>
    decreases n,
{
    if n < 10 {
        seq![digit_char(n)]
    } else {
        spec_dec(n / 10).push(digit_char(n % 10))
    }
}

/// `s` left-padded with zero characters up to width `w` (unchanged when
/// already at least that wide).
pub open spec fn spec_pad(s: Seq<char>, w: nat) -> Seq<char> {
    if s.len() >= w {
        s
    } else {
        Seq::new((w - s.len()) as nat, |i: int| '0') + s
    }
}

/// `parts` joined with the separator `sep` between consecutive parts.
pub open spec fn spec_join(parts: Seq<Seq<char>>, sep: Seq<char>) -> Seq<char>
    decreases parts.len(),
{
    if parts.len() == 0 {
        Seq::empty()
    } else if parts.len() == 1 {
        parts.last()
    } else {
        spec_join(parts.drop_last(), sep) + sep + parts.last()
    }
}

fn digit_of(d: u64) -> (c: char)
    requires
        d < 10,
    ensures
        c == digit_char(d as nat),
{
    if d == 0 {
        '0'
    } else if d == 1 {
        '1'
    } else if d == 2 {
        '2'
    } else if d == 3 {
        '3'
    } else if d == 4 {
        '4'
    } else if d == 5 {
        '5'
    } else if d == 6 {
        '6'
    } else if d == 7 {
        '7'
    } else if d == 8 {
        '8'
    } else {
        '9'
    }
}

/// Renders `n` in decimal.
pub fn fmt_u64(n: u64) -> (r: String)
    ensures
        r@ == spec_dec(n as nat),
    decreases n,
{
    if n < 10 {
        let mut s = String::new();
        s.push(digit_of(n));
        proof {
            assert(s@ =~= seq![digit_char(n as nat)]);
        }
        s
    } else {
        let mut s = fmt_u64(n / 10);
        s.push(digit_of(n % 10));
        s
    }
}

proof fn lemma_dec_len_small(n: nat)
    ensures
        n < 10 ==> spec_dec(n).len() == 1,
        10 <= n < 100 ==> spec_dec(n).len() == 2,
        100 <= n < 1000 ==> spec_dec(n).len() == 3,
        1000 <= n < 10000 ==> spec_dec(n).len() == 4,
        10000 <= n < 100000 ==> spec_dec(n).len() == 5,
        100000 <= n < 1000000 ==> spec_dec(n).len() == 6,
        1000000 <= n ==> spec_dec(n).len() >= 7,
    decreases n,
{
    if n >= 10 {
        lemma_dec_len_small(n / 10);
    }
}

/// Renders `n` in decimal, zero-padded on the left to at least two digits.
pub fn fmt_u64_pad2(n: u64) -> (r: String)
    ensures
        r@ == spec_pad(spec_dec(n as nat), 2),
{
    let digits = fmt_u64(n);
    proof {
        lemma_dec_len_small(n as nat);
    }
    if n < 10 {
        let mut s: String = "0".to_owned();
        s.append(digits.as_str());
        proof {
            reveal_strlit("0");
            assert(s@ =~= spec_pad(spec_dec(n as nat), 2));
        }
        s
    } else {
        digits
    }
}

/// Renders `n` in decimal, zero-padded on the left to at least four digits.
pub fn fmt_u64_pad4(n: u64) -> (r: String)
    ensures
        r@ == spec_pad(spec_dec(n as nat), 4),
{
    let digits = fmt_u64(n);
    proof {
        lemma_dec_len_small(n as nat);
    }
    if n < 1000 {
        let prefix: &str = if n < 10 {
            "000"
        } else if n < 100 {
            "00"
        } else {
            "0"
        };
        let mut s: String = prefix.to_owned();
        s.append(digits.as_str());
        proof {
            reveal_strlit("000");
            reveal_strlit("00");
            reveal_strlit("0");
            assert(s@ =~= spec_pad(spec_dec(n as nat), 4));
        }
        s
    } else {
        digits
    }
}

/// Renders `n` in decimal, zero-padded on the left to at least six digits.
pub fn fmt_u64_pad6(n: u64) -> (r: String)
    ensures
        r@ == spec_pad(spec_dec(n as nat), 6),
{
    let digits = fmt_u64(n);
    proof {
        lemma_dec_len_small(n as nat);
    }
    if n < 100000 {
        let prefix: &str = if n < 10 {
            "00000"
        } else if n < 100 {
            "0000"
        } else if n < 1000 {
            "000"
        } else if n < 10000 {
            "00"
        } else {
            "0"
        };
        let mut s: String = prefix.to_owned();
        s.append(digits.as_str());
        proof {
            reveal_strlit("00000");
            reveal_strlit("0000");
            reveal_strlit("000");
            reveal_strlit("00");
            reveal_strlit("0");
            assert(s@ =~= spec_pad(spec_dec(n as nat), 6));
        }
        s
    } else {
        digits
    }
}

/// `s` fitted to a column of exactly `w` characters: truncated when longer,
/// padded on the right with spaces when shorter.
pub open spec fn spec_fit(s: Seq<char>, w: nat) -> Seq<char> {
    if s.len() >= w {
        s.take(w as int)
    } else {
        s + Seq::new((w - s.len()) as nat, |i: int| ' ')
    }
}

/// Fits `s` into a column of exactly `width` characters: truncates a longer
/// string, pads a shorter one with spaces on the right.
pub fn fit_columns(s: &str, width: usize) -> (r: String)
    ensures
        r@ == spec_fit(s@, width as nat),
{
    let n = s.unicode_len();
    let keep = if n < width {
        n
    } else {
        width
    };
    let mut out = String::new();
    let mut i: usize = 0;
    while i < keep
        invariant
            n == s@.len(),
            keep == if n < width {
                n
            } else {
                width
            },
            i <= keep,
            out@ =~= s@.take(i as int),
        decreases keep - i,
    {
        out.push(s.get_char(i));
        proof {
            assert(out@ =~= s@.take(i + 1 as int));
        }
        i = i + 1;
    }
    while i < width
        invariant
            n == s@.len(),
            keep == if n < width {
                n
            } else {
                width
            },
            keep <= i <= width,
            out@ =~= s@.take(keep as int) + Seq::new((i - keep) as nat, |j: int| ' '),
        decreases width - i,
    {
        out.push(' ');
        proof {
            assert(out@ =~= s@.take(keep as int) + Seq::new((i + 1 - keep) as nat, |j: int| ' '));
        }
        i = i + 1;
    }
    proof {
        if s@.len() >= width as nat {
            assert(out@ =~= spec_fit(s@, width as nat));
        } else {
            assert(s@.take(keep as int) =~= s@);
            assert(out@ =~= spec_fit(s@, width as nat));
        }
    }
    out
}

/// Joins the parts with a single `sep` between consecutive parts.
pub fn join_with(parts: &Vec<String>, sep: &str) -> (r: String)
    ensures
        r@ == spec_join(parts@.map_values(|p: String| p@), sep@),
{
    let ghost model = parts@.map_values(|p: String| p@);
    let mut s = String::new();
    let mut i: usize = 0;
    while i < parts.len()
        invariant
            i <= parts.len(),
            model == parts@.map_values(|p: String| p@),
            s@ == spec_join(model.take(i as int), sep@),
        decreases parts.len() - i,
    {
        if i > 0 {
            s.append(sep);
        }
        s.append(parts[i].as_str());
        proof {
            assert(model.take(i + 1 as int).drop_last() =~= model.take(i as int));
            assert(model.take(i + 1 as int).last() == parts@[i as int]@);
            if i == 0 {
                assert(s@ =~= spec_join(model.take(i + 1 as int), sep@));
            }
        }
        i = i + 1;
    }
    proof {
        assert(model.take(parts@.len() as int) =~= model);
    }
    s
}

} // verus!
