//! Numbers in messages, and byte buffers compared.

use vstd::prelude::*;

verus! {

/// The character of one decimal digit.
pub open spec fn digit_char(d: nat) -> char
    recommends
        d < 10,
{
    (0x30 + d) as char
}

/// A number in decimal, without leading zeros.
pub open spec fn decimal_chars(n: nat) -> Seq<char>
    decreases n,
{
    if n < 10 {
        seq![digit_char(n)]
    } else {
        decimal_chars(n / 10).push(digit_char(n % 10))
    }
}

fn digit(d: u64) -> (res: &'static str)
    requires
        d < 10,
    ensures
        res@ == seq![digit_char(d as nat)],
{
    proof {
        reveal_strlit("0");
        reveal_strlit("1");
        reveal_strlit("2");
        reveal_strlit("3");
        reveal_strlit("4");
        reveal_strlit("5");
        reveal_strlit("6");
        reveal_strlit("7");
        reveal_strlit("8");
        reveal_strlit("9");
    }
    match d {
        0 => "0",
        1 => "1",
        2 => "2",
        3 => "3",
        4 => "4",
        5 => "5",
        6 => "6",
        7 => "7",
        8 => "8",
        _ => "9",
    }
}

/// Writes a number in decimal.
pub fn decimal(n: u64) -> (res: String)
    ensures
        res@ == decimal_chars(n as nat),
    decreases n,
{
    if n < 10 {
        digit(n).to_string()
    } else {
        let mut res = decimal(n / 10);
        res.append(digit(n % 10));
        assert(res@ == decimal_chars((n / 10) as nat).push(digit_char((n % 10) as nat)));
        res
    }
}

/// Whether two byte buffers hold the same bytes.
pub fn same_bytes(a: &Vec<u8>, b: &Vec<u8>) -> (res: bool)
    ensures
        res == (a@ == b@),
{
    if a.len() != b.len() {
        return false;
    }
    for i in 0..a.len()
        invariant
            a.len() == b.len(),
            forall|k: int| 0 <= k < i ==> a[k] == b[k],
    {
        if a[i] != b[i] {
            return false;
        }
    }
    assert(a@ =~= b@);
    true
}

/// The number that decimal digits stand for.
pub open spec fn read_decimal(digits: Seq<char>) -> nat
    decreases digits.len(),
{
    if digits.len() == 0 {
        0
    } else {
        (10 * read_decimal(digits.drop_last()) + (digits.last() as int - '0' as int)) as nat
    }
}

/// A number is written in digits alone, at least one, that read back as the number, with no zero
/// in front unless the number is zero.
pub proof fn law_a_number_reads_back(n: nat)
    ensures
        read_decimal(decimal_chars(n)) == n,
        decimal_chars(n).len() > 0,
        forall|i: int|
            0 <= i < decimal_chars(n).len() ==> '0' as int <= (#[trigger] decimal_chars(n)[i]) as int
                <= '9' as int,
        decimal_chars(n)[0] == '0' <==> n == 0,
        n == 0 ==> decimal_chars(n).len() == 1,
    decreases n,
{
    reveal_with_fuel(read_decimal, 2);
    let digits = decimal_chars(n);
    if n < 10 {
        assert(digits.drop_last() =~= Seq::empty());
    } else {
        law_a_number_reads_back(n / 10);
        assert(digits.drop_last() =~= decimal_chars(n / 10));
        assert(digits.last() == digit_char(n % 10));
        assert(digits[0] == decimal_chars(n / 10)[0]);
        assert forall|i: int| 0 <= i < digits.len() implies '0' as int <= (#[trigger] digits[i]) as int
            <= '9' as int by {
            if i < digits.len() - 1 {
                assert(digits[i] == decimal_chars(n / 10)[i]);
            }
        }
    }
}

/// Numbers are told apart by how they are written.
pub proof fn law_numbers_are_written_apart(m: nat, n: nat)
    ensures
        decimal_chars(m) == decimal_chars(n) <==> m == n,
{
    law_a_number_reads_back(m);
    law_a_number_reads_back(n);
}

} // verus!
