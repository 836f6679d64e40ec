//! Decimal rendering of integers and the fixed-point memory figure
//! "used GB / total GB" with exactly two decimal places.

use vstd::prelude::*;

verus! {

/// The decimal digit character for a value between 0 and 9.
pub open spec fn dec_digit(d: int) -> char {
    if d == 0 {
        '0'
    } else if d == 1 {
        '1'
    } else if d == 2 {
        '2'
    } else if d == 3 {
        '3'
    } else if d == 4 {
        '4'
    } else if d == 5 {
        '5'
    } else if d == 6 {
        '6'
    } else if d == 7 {
        '7'
    } else if d == 8 {
        '8'
    } else {
        '9'
    }
}

/// The decimal digit string of a nonnegative integer, most significant
/// digit first, with no leading zero except for zero itself.
pub open spec fn dec_seq(n: int) -> Seq<char>
    decreases n,
{
    if n < 10 {
        seq![dec_digit(n)]
    } else {
        dec_seq(n / 10).push(dec_digit(n % 10))
    }
}

fn digit_str(d: u64) -> (r: &'static str)
    requires
        d < 10,
    ensures
        r@ =~= seq![dec_digit(d as int)],
{
    proof {
        reveal_strlit("0");
        reveal_strlit("1");
        reveal_strlit("2");
        reveal_strlit("3");
        reveal_strlit("4");
        reveal_strlit("5");
        reveal_strlit("6");
        reveal_strlit("7");
        reveal_strlit("8");
        reveal_strlit("9");
    }
    if d == 0 {
        "0"
    } else if d == 1 {
        "1"
    } else if d == 2 {
        "2"
    } else if d == 3 {
        "3"
    } else if d == 4 {
        "4"
    } else if d == 5 {
        "5"
    } else if d == 6 {
        "6"
    } else if d == 7 {
        "7"
    } else if d == 8 {
        "8"
    } else {
        "9"
    }
}

/// Renders a machine integer in decimal.
pub fn u64_to_string(n: u64) -> (s: String)
    ensures
        s@ == dec_seq(n as int),
    decreases n,
{
    if n < 10 {
        let s = String::from_str(digit_str(n));
        proof {
            assert(s@ =~= dec_seq(n as int));
        }
        s
    } else {
        let mut s = u64_to_string(n / 10);
        s.append(digit_str(n % 10));
        proof {
            assert(s@ =~= dec_seq(n as int));
        }
        s
    }
}

/// How many hundredths of a gibibyte a byte count amounts to, rounded
/// down: the figure behind a "x.yz GB" rendering.
pub open spec fn gb_hundredths(bytes: u64) -> int {
    (bytes as int) * 100 / 0x40000000
}

/// A byte count rendered as gibibytes with exactly two decimal places.
pub open spec fn gb_seq(bytes: u64) -> Seq<char> {
    dec_seq(gb_hundredths(bytes) / 100) + "."@ + seq![
        dec_digit(gb_hundredths(bytes) % 100 / 10),
        dec_digit(gb_hundredths(bytes) % 10),
    ]
}

/// The memory line: used and total byte counts, each as gibibytes to
/// two decimal places, joined by " GB / " and closed by " GB".
pub open spec fn mem_seq(used: u64, total: u64) -> Seq<char> {
    gb_seq(used) + " GB / "@ + gb_seq(total) + " GB"@
}

fn format_gb(bytes: u64) -> (s: String)
    ensures
        s@ == gb_seq(bytes),
{
    let wide: u128 = (bytes as u128) * 100 / 0x40000000;
    proof {
        vstd::arithmetic::div_mod::lemma_div_is_ordered(
            (bytes as int) * 100,
            0xffffffffffffffffint * 100,
            0x40000000,
        );
    }
    let h: u64 = wide as u64;
    let mut s = u64_to_string(h / 100);
    s.append(".");
    s.append(digit_str(h % 100 / 10));
    s.append(digit_str(h % 10));
    proof {
        assert(s@ =~= gb_seq(bytes));
    }
    s
}

/// Renders the memory figure "used GB / total GB", both converted from
/// bytes to gibibytes and truncated to two decimal places.
pub fn format_memory(used: u64, total: u64) -> (s: String)
    ensures
        s@ == mem_seq(used, total),
{
    let mut s = format_gb(used);
    s.append(" GB / ");
    let t = format_gb(total);
    s.append(t.as_str());
    s.append(" GB");
    proof {
        assert(s@ =~= mem_seq(used, total));
    }
    s
}

} // verus!
