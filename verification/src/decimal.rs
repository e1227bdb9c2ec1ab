//! Decimal rendering of numbers, for failure messages that name a length.

use vstd::prelude::*;

use vstd::string::StringExecFns;

verus! {

/// The character of one decimal digit.
pub open spec fn digit_char(d: nat) -> char {
    if d == 0 {
        '0'
    } else if d == 1 {
        '1'
    } else if d == 2 {
        '2'
    } else if d == 3 {
        '3'
    } else if d == 4 {
        '4'
    } else if d == 5 {
        '5'
    } else if d == 6 {
        '6'
    } else if d == 7 {
        '7'
    } else if d == 8 {
        '8'
    } else {
        '9'
    }
}

/// The decimal writing of a number, most significant digit first, with no
/// leading zeros (zero itself is written "0").
pub open spec fn spec_decimal(n: nat) -> Seq<char>
    decreases n,
{
    if n < 10 {
        seq![digit_char(n)]
    } else {
        spec_decimal(n / 10).push(digit_char(n % 10))
    }
}

/// The text of one decimal digit.
fn digit_str(d: usize) -> (r: &'static str)
    requires
        d < 10,
    ensures
        r@ == seq![digit_char(d as nat)],
{
    proof {
        reveal_strlit("0");
        reveal_strlit("1");
        reveal_strlit("2");
        reveal_strlit("3");
        reveal_strlit("4");
        reveal_strlit("5");
        reveal_strlit("6");
        reveal_strlit("7");
        reveal_strlit("8");
        reveal_strlit("9");
    }
    let r: &'static str = match d {
        0 => "0",
        1 => "1",
        2 => "2",
        3 => "3",
        4 => "4",
        5 => "5",
        6 => "6",
        7 => "7",
        8 => "8",
        _ => "9",
    };
    proof {
        assert(r@ =~= seq![digit_char(d as nat)]);
    }
    r
}

/// Writes a number in decimal.
pub fn decimal_string(n: usize) -> (r: String)
    ensures
        r@ == spec_decimal(n as nat),
{
    let mut digits: Vec<usize> = Vec::new();
    let mut m: usize = n;
    proof {
        assert(spec_decimal(n as nat) =~= spec_decimal(m as nat) + Seq::new(
            digits@.len(),
            |j: int| digit_char(digits@[j] as nat),
        ).reverse());
    }
    loop
        invariant_except_break
            spec_decimal(n as nat) == spec_decimal(m as nat) + Seq::new(
                digits@.len(),
                |j: int| digit_char(digits@[j] as nat),
            ).reverse(),
        invariant
            forall|j: int| 0 <= j < digits@.len() ==> digits@[j] < 10,
        ensures
            digits@.len() > 0,
            spec_decimal(n as nat) == Seq::new(
                digits@.len(),
                |j: int| digit_char(digits@[j] as nat),
            ).reverse(),
        decreases m,
    {
        let ghost pre = digits@;
        let d = m % 10;
        let next = m / 10;
        digits.push(d);
        proof {
            let written_pre = Seq::new(pre.len(), |j: int| digit_char(pre[j] as nat));
            let written = Seq::new(digits@.len(), |j: int| digit_char(digits@[j] as nat));
            assert(written =~= written_pre.push(digit_char(d as nat)));
            assert(written.reverse() =~= seq![digit_char(d as nat)] + written_pre.reverse());
            if m < 10 {
                assert(spec_decimal(m as nat) == seq![digit_char(m as nat)]);
            } else {
                assert(spec_decimal(m as nat) == spec_decimal(next as nat).push(
                    digit_char(d as nat),
                ));
                assert(spec_decimal(next as nat).push(digit_char(d as nat)) =~= spec_decimal(
                    next as nat,
                ) + seq![digit_char(d as nat)]);
            }
            if next == 0 {
                assert(spec_decimal(n as nat) =~= written.reverse());
            } else {
                assert(spec_decimal(n as nat) =~= spec_decimal(next as nat) + written.reverse());
            }
        }
        m = next;
        if m == 0 {
            break;
        }
    }
    let mut r = String::new();
    let mut i: usize = digits.len();
    while i > 0
        invariant
            i <= digits@.len(),
            forall|j: int| 0 <= j < digits@.len() ==> digits@[j] < 10,
            spec_decimal(n as nat) == Seq::new(
                digits@.len(),
                |j: int| digit_char(digits@[j] as nat),
            ).reverse(),
            r@ =~= Seq::new(
                digits@.len(),
                |j: int| digit_char(digits@[j] as nat),
            ).reverse().take(digits@.len() - i),
        decreases i,
    {
        i = i - 1;
        r.append(digit_str(digits[i]));
        proof {
            let written = Seq::new(digits@.len(), |j: int| digit_char(digits@[j] as nat));
            assert(written.reverse()[digits@.len() - 1 - i] == digit_char(digits@[i as int] as nat));
            assert(r@ =~= written.reverse().take(digits@.len() - i));
        }
    }
    proof {
        let written = Seq::new(digits@.len(), |j: int| digit_char(digits@[j] as nat));
        assert(r@ =~= written.reverse());
    }
    r
}

} // verus!
