use vstd::prelude::*;

verus! {

use vstd::string::StringExecFns;

/// Relies on std's `String::push`: appends the given char to the end of
/// the string.
pub assume_specification[ String::push ](s: &mut String, c: char)
    ensures
        final(s)@ == old(s)@.push(c),
;

/// The character for a single decimal digit.
pub open spec fn digit_char(d: nat) -> char {
    if d == 0 {
        '0'
    } else if d == 1 {
        '1'
    } else if d == 2 {
        '2'
    } else if d == 3 {
        '3'
    } else if d == 4 {
        '4'
    } else if d == 5 {
        '5'
    } else if d == 6 {
        '6'
    } else if d == 7 {
        '7'
    } else if d == 8 {
        '8'
    } else {
        '9'
    }
}

/// Decimal representation of `n`: most significant digit first, no sign,
/// no leading zeros (zero itself is the single character '0').
pub open spec fn dec_str(n: nat) -> Seq<char>
    decreases n,
{
    if n < 10 {
        seq![digit_char(n)]
    } else {
        dec_str((n / 10) as nat).push(digit_char((n % 10) as nat))
    }
}

/// Signed decimal: a leading minus for negative values, then the digits
/// of the magnitude.
pub open spec fn dec_str_i64(n: int) -> Seq<char> {
    if n < 0 {
        seq!['-'] + dec_str((-n) as nat)
    } else {
        dec_str(n as nat)
    }
}

/// Decimal digits never contain a line break.
pub proof fn lemma_dec_str_no_newline(n: nat)
    ensures
        forall|k: int| 0 <= k < dec_str(n).len() ==> dec_str(n)[k] != '\n',
    decreases n,
{
    if n >= 10 {
        lemma_dec_str_no_newline((n / 10) as nat);
        assert forall|k: int| 0 <= k < dec_str(n).len() implies dec_str(n)[k] != '\n' by {
            if k < dec_str((n / 10) as nat).len() {
                assert(dec_str(n)[k] == dec_str((n / 10) as nat)[k]);
            }
        }
    }
}

/// Signed decimals never contain a line break either.
pub proof fn lemma_dec_str_i64_no_newline(n: int)
    ensures
        forall|k: int| 0 <= k < dec_str_i64(n).len() ==> dec_str_i64(n)[k] != '\n',
{
    if n < 0 {
        lemma_dec_str_no_newline((-n) as nat);
    } else {
        lemma_dec_str_no_newline(n as nat);
    }
}

/// `n` printed in decimal.
pub fn u64_to_string(n: u64) -> (s: String)
    ensures
        s@ == dec_str(n as nat),
{
    let mut m: u64 = n;
    let mut digits: Vec<char> = Vec::new();
    while m >= 10
        invariant
            dec_str(n as nat) == dec_str(m as nat) + digits@.reverse(),
        decreases m,
    {
        let d: u64 = m % 10;
        digits.push(digit_of(d));
        proof {
            assert(digits@.reverse() =~= seq![digit_char(d as nat)] + digits@.drop_last().reverse());
            assert(dec_str(m as nat) == dec_str((m / 10) as nat).push(
                digit_char((m % 10) as nat),
            ));
            assert(dec_str((m / 10) as nat).push(digit_char((m % 10) as nat))
                =~= dec_str((m / 10) as nat) + seq![digit_char((m % 10) as nat)]);
            assert(dec_str(n as nat) =~= dec_str((m / 10) as nat) + digits@.reverse());
        }
        m = m / 10;
    }
    digits.push(digit_of(m));
    proof {
        assert(digits@.reverse() =~= seq![digit_char(m as nat)] + digits@.drop_last().reverse());
        assert(dec_str(n as nat) =~= digits@.reverse());
    }
    let mut s = String::new();
    let mut i: usize = digits.len();
    while i > 0
        invariant
            i <= digits@.len(),
            s@ == digits@.subrange(i as int, digits@.len() as int).reverse(),
        decreases i,
    {
        i = i - 1;
        s.push(digits[i]);
        proof {
            assert(s@ =~= digits@.subrange(i as int, digits@.len() as int).reverse());
        }
    }
    proof {
        assert(digits@.subrange(0, digits@.len() as int) =~= digits@);
        assert(s@ == digits@.reverse());
    }
    s
}

/// `n` printed in signed decimal.
pub fn i64_to_string(n: i64) -> (s: String)
    ensures
        s@ == dec_str_i64(n as int),
{
    if n >= 0 {
        u64_to_string(n as u64)
    } else {
        let m: u64 = ((-(n + 1)) as u64) + 1;
        let mut s = String::new();
        s.push('-');
        s.append(u64_to_string(m).as_str());
        proof {
            assert(s@ =~= dec_str_i64(n as int));
        }
        s
    }
}

/// The character for digit `d`.
pub fn digit_of(d: u64) -> (c: char)
    requires
        d < 10,
    ensures
        c == digit_char(d as nat),
{
    if d == 0 {
        '0'
    } else if d == 1 {
        '1'
    } else if d == 2 {
        '2'
    } else if d == 3 {
        '3'
    } else if d == 4 {
        '4'
    } else if d == 5 {
        '5'
    } else if d == 6 {
        '6'
    } else if d == 7 {
        '7'
    } else if d == 8 {
        '8'
    } else {
        '9'
    }
}

} // verus!
