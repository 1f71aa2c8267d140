//! Resolving a requested device name and composing the caller-visible
//! lines: the one-based, two-column listing shown when a requested device
//! is not among the enumerated ones, and the success line that reports the
//! written byte count.

use vstd::prelude::*;

verus! {

/// The decimal digit character for a value below ten.
pub open spec fn dec_digit(d: int) -> char
    recommends
        0 <= d < 10,
{
    if d == 0 {
        '0'
    } else if d == 1 {
        '1'
    } else if d == 2 {
        '2'
    } else if d == 3 {
        '3'
    } else if d == 4 {
        '4'
    } else if d == 5 {
        '5'
    } else if d == 6 {
        '6'
    } else if d == 7 {
        '7'
    } else if d == 8 {
        '8'
    } else {
        '9'
    }
}

/// The usual decimal notation of a non-negative integer: no sign, no
/// leading zero except for zero itself.
pub open spec fn dec_of(n: int) -> Seq<char>
    recommends
        n >= 0,
    decreases n,
{
    if n < 10 {
        seq![dec_digit(n)]
    } else {
        dec_of(n / 10).push(dec_digit(n % 10))
    }
}

fn dec_digit_str(d: u64) -> (s: &'static str)
    requires
        d < 10,
    ensures
        s@ == seq![dec_digit(d as int)],
{
    proof {
        reveal_strlit("0");
        reveal_strlit("1");
        reveal_strlit("2");
        reveal_strlit("3");
        reveal_strlit("4");
        reveal_strlit("5");
        reveal_strlit("6");
        reveal_strlit("7");
        reveal_strlit("8");
        reveal_strlit("9");
    }
    match d {
        0 => "0",
        1 => "1",
        2 => "2",
        3 => "3",
        4 => "4",
        5 => "5",
        6 => "6",
        7 => "7",
        8 => "8",
        _ => "9",
    }
}

/// Render a number in decimal, exactly as [`dec_of`] spells it.
pub fn u64_to_decimal(n: u64) -> (s: String)
    ensures
        s@ == dec_of(n as int),
    decreases n,
{
    if n < 10 {
        let s = String::from_str(dec_digit_str(n));
        proof {
            assert(s@ =~= dec_of(n as int));
        }
        s
    } else {
        let quotient = n / 10;
        assert(quotient < n) by (nonlinear_arith)
            requires
                n >= 10,
                quotient == n / 10,
        ;
        let mut s = u64_to_decimal(quotient);
        s.append(dec_digit_str(n % 10));
        proof {
            assert(s@ =~= dec_of(n as int));
        }
        s
    }
}

/// Whether the requested device name is among the enumerated ones. The
/// membership check that decides between submitting the job and listing
/// what is available instead.
pub fn contains_name(available: &Vec<String>, requested: &String) -> (found: bool)
    ensures
        found == (exists|i: int| 0 <= i < available@.len() && available@[i]@ == requested@),
{
    let mut i: usize = 0;
    while i < available.len()
        invariant
            0 <= i <= available@.len(),
            forall|j: int| 0 <= j < i ==> available@[j]@ != requested@,
        decreases available@.len() - i,
    {
        if available[i].eq(requested) {
            return true;
        }
        i = i + 1;
    }
    false
}

/// The listing shown for an unavailable device: one line per available
/// device, a one-based index, a separating colon and space, then the name,
/// in enumeration order.
pub fn unavailable_listing(available: &Vec<String>) -> (lines: Vec<String>)
    ensures
        lines@.len() == available@.len(),
        forall|i: int|
            0 <= i < available@.len() ==> lines@[i]@ == dec_of(i + 1) + ": "@ + available@[i]@,
{
    let mut lines: Vec<String> = Vec::new();
    let mut i: usize = 0;
    while i < available.len()
        invariant
            0 <= i <= available@.len(),
            lines@.len() == i,
            forall|j: int| 0 <= j < i ==> lines@[j]@ == dec_of(j + 1) + ": "@ + available@[j]@,
        decreases available@.len() - i,
    {
        let mut line = u64_to_decimal((i as u64) + 1);
        line.append(": ");
        line.append(available[i].as_str());
        lines.push(line);
        i = i + 1;
    }
    lines
}

/// The single success line reported after a completed job, spelling the
/// byte count the job returned.
pub fn success_message(count: u64) -> (s: String)
    ensures
        s@ == "wrote "@ + dec_of(count as int) + " bytes"@,
{
    let mut s = String::from_str("wrote ");
    let digits = u64_to_decimal(count);
    s.append(digits.as_str());
    s.append(" bytes");
    proof {
        assert(s@ =~= "wrote "@ + dec_of(count as int) + " bytes"@);
    }
    s
}

} // verus!
