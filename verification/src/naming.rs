//! The branch-naming rule: pull request number `n` owns branch `pr-n`.
//!
//! The mapping is total over the pull-request numbers and injective, so
//! no two pull requests ever contend for one branch.

use vstd::prelude::*;
use vstd::string::*;
use vstd::arithmetic::div_mod::lemma_fundamental_div_mod;

verus! {

/// The decimal digit character for `d`, for `d < 10`.
pub open spec fn spec_digit(d: nat) -> char {
    if d == 0 {
        '0'
    } else if d == 1 {
        '1'
    } else if d == 2 {
        '2'
    } else if d == 3 {
        '3'
    } else if d == 4 {
        '4'
    } else if d == 5 {
        '5'
    } else if d == 6 {
        '6'
    } else if d == 7 {
        '7'
    } else if d == 8 {
        '8'
    } else {
        '9'
    }
}

/// Numeric value of a decimal digit character; inverts `spec_digit`.
pub open spec fn digit_value(c: char) -> nat {
    if c == '0' {
        0
    } else if c == '1' {
        1
    } else if c == '2' {
        2
    } else if c == '3' {
        3
    } else if c == '4' {
        4
    } else if c == '5' {
        5
    } else if c == '6' {
        6
    } else if c == '7' {
        7
    } else if c == '8' {
        8
    } else {
        9
    }
}

/// Decimal digit sequence of `n`, most significant digit first, with no
/// leading zeros (a lone `0` for zero).
pub open spec fn spec_decimal(n: nat) -> Seq<char>
    decreases n,
{
    if n < 10 {
        seq![spec_digit(n)]
    } else {
        spec_decimal(n / 10).push(spec_digit(n % 10))
    }
}

/// The branch name owned by pull request number `n`: `pr-` followed by
/// the decimal digits of `n`.
pub open spec fn spec_branch_name(n: nat) -> Seq<char> {
    seq!['p', 'r', '-'] + spec_decimal(n)
}

/// Numeric value of a digit sequence read in base ten.
pub open spec fn decimal_value(s: Seq<char>) -> nat
    decreases s.len(),
{
    if s.len() == 0 {
        0
    } else {
        decimal_value(s.drop_last()) * 10 + digit_value(s.last())
    }
}

/// Reading the decimal digits of `n` back in base ten yields `n`: the
/// digit sequence determines the number.
pub proof fn lemma_decimal_value(n: nat)
    ensures
        decimal_value(spec_decimal(n)) == n,
    decreases n,
{
    if n < 10 {
        let s = seq![spec_digit(n)];
        assert(s.len() == 1);
        assert(s.last() == spec_digit(n));
        assert(s.drop_last() =~= Seq::<char>::empty());
        assert(decimal_value(Seq::<char>::empty()) == 0);
        assert(decimal_value(s) == digit_value(spec_digit(n)));
        assert(digit_value(spec_digit(n)) == n);
    } else {
        lemma_decimal_value(n / 10);
        let s = spec_decimal(n);
        assert(s == spec_decimal(n / 10).push(spec_digit(n % 10)));
        assert(s.len() == spec_decimal(n / 10).len() + 1);
        assert(s.last() == spec_digit(n % 10));
        assert(s.drop_last() =~= spec_decimal(n / 10));
        assert(decimal_value(s) == decimal_value(spec_decimal(n / 10)) * 10 + digit_value(
            spec_digit(n % 10),
        ));
        assert(digit_value(spec_digit(n % 10)) == n % 10);
        lemma_fundamental_div_mod(n as int, 10);
        assert(decimal_value(s) == (n / 10) * 10 + n % 10);
    }
}

/// Two numbers with the same decimal digit sequence are equal.
pub proof fn lemma_decimal_injective(a: nat, b: nat)
    requires
        spec_decimal(a) == spec_decimal(b),
    ensures
        a == b,
{
    lemma_decimal_value(a);
    lemma_decimal_value(b);
}

/// Naming is collision-free: two distinct pull request numbers never map
/// to the same branch name.
pub proof fn lemma_branch_name_injective(a: nat, b: nat)
    requires
        spec_branch_name(a) == spec_branch_name(b),
    ensures
        a == b,
{
    assert(spec_decimal(a) =~= spec_branch_name(a).subrange(
        3,
        spec_branch_name(a).len() as int,
    ));
    assert(spec_decimal(b) =~= spec_branch_name(b).subrange(
        3,
        spec_branch_name(b).len() as int,
    ));
    lemma_decimal_injective(a, b);
}

/// The literal for one decimal digit.
fn digit_str(d: u64) -> (s: &'static str)
    requires
        d < 10,
    ensures
        s@ == seq![spec_digit(d as nat)],
{
    match d {
        0 => {
            proof {
                reveal_strlit("0");
                assert("0"@ =~= seq![spec_digit(0)]);
            }
            "0"
        },
        1 => {
            proof {
                reveal_strlit("1");
                assert("1"@ =~= seq![spec_digit(1)]);
            }
            "1"
        },
        2 => {
            proof {
                reveal_strlit("2");
                assert("2"@ =~= seq![spec_digit(2)]);
            }
            "2"
        },
        3 => {
            proof {
                reveal_strlit("3");
                assert("3"@ =~= seq![spec_digit(3)]);
            }
            "3"
        },
        4 => {
            proof {
                reveal_strlit("4");
                assert("4"@ =~= seq![spec_digit(4)]);
            }
            "4"
        },
        5 => {
            proof {
                reveal_strlit("5");
                assert("5"@ =~= seq![spec_digit(5)]);
            }
            "5"
        },
        6 => {
            proof {
                reveal_strlit("6");
                assert("6"@ =~= seq![spec_digit(6)]);
            }
            "6"
        },
        7 => {
            proof {
                reveal_strlit("7");
                assert("7"@ =~= seq![spec_digit(7)]);
            }
            "7"
        },
        8 => {
            proof {
                reveal_strlit("8");
                assert("8"@ =~= seq![spec_digit(8)]);
            }
            "8"
        },
        _ => {
            proof {
                reveal_strlit("9");
                assert("9"@ =~= seq![spec_digit(9)]);
            }
            "9"
        },
    }
}

/// The decimal rendering of `n`, matching `spec_decimal`.
pub fn u64_decimal(n: u64) -> (s: String)
    ensures
        s@ == spec_decimal(n as nat),
    decreases n,
{
    if n < 10 {
        String::from_str(digit_str(n))
    } else {
        let mut s = u64_decimal(n / 10);
        s.append(digit_str(n % 10));
        proof {
            assert(s@ =~= spec_decimal((n / 10) as nat).push(spec_digit((n % 10) as nat)));
        }
        s
    }
}

/// The branch name owned by pull request `number`, as an owned string:
/// exactly `pr-` followed by the decimal digits of `number`.
pub fn branch_name(number: u64) -> (name: String)
    ensures
        name@ == spec_branch_name(number as nat),
{
    let mut name = String::from_str("pr-");
    let digits = u64_decimal(number);
    name.append(digits.as_str());
    proof {
        reveal_strlit("pr-");
        assert(name@ =~= spec_branch_name(number as nat));
    }
    name
}

} // verus!
