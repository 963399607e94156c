use vstd::prelude::*;

use crate::text::{is_space, is_space_char};

verus! {

/// The parallelism used when the processor-count query fails or its
/// output does not parse.
pub const DEFAULT_PARALLELISM: u32 = 8;

/// Whether `c` is an ASCII decimal digit.
pub open spec fn is_digit_char(c: char) -> bool {
    48 <= c as int <= 57
}

/// The numeric value of an ASCII decimal digit.
pub open spec fn digit_val(c: char) -> nat {
    (c as int - 48) as nat
}

/// Every character of `s` is a digit, and there is at least one.
pub open spec fn all_digits(s: Seq<char>) -> bool {
    s.len() > 0 && forall|i: int| 0 <= i < s.len() ==> is_digit_char(s[i])
}

/// The value of a digit string read in base ten, most significant first.
pub open spec fn digits_value(s: Seq<char>) -> nat
    decreases s.len(),
{
    if s.len() == 0 {
        0
    } else {
        digits_value(s.drop_last()) * 10 + digit_val(s.last())
    }
}

/// `s` with every whitespace character removed, wherever it stands.
pub open spec fn without_spaces(s: Seq<char>) -> Seq<char>
    decreases s.len(),
{
    if s.len() == 0 {
        Seq::empty()
    } else if is_space_char(s.last()) {
        without_spaces(s.drop_last())
    } else {
        without_spaces(s.drop_last()).push(s.last())
    }
}

/// The view of an optional query output.
pub open spec fn output_view(out: Option<&str>) -> Option<Seq<char>> {
    match out {
        Option::Some(s) => Option::Some(s@),
        Option::None => Option::None,
    }
}

/// The build parallelism decided by the processor-count query: the
/// digits of the query's output with whitespace removed, or the fixed
/// default when the query failed, the output is not purely digits
/// (a sign counts as a misparse; the query prints bare digits), or the
/// value does not fit in 32 bits.
pub open spec fn spec_parallelism(out: Option<Seq<char>>) -> u32 {
    match out {
        Option::None => DEFAULT_PARALLELISM,
        Option::Some(s) => {
            let f = without_spaces(s);
            if all_digits(f) && digits_value(f) <= u32::MAX as nat {
                digits_value(f) as u32
            } else {
                DEFAULT_PARALLELISM
            }
        },
    }
}

/// Determines the build parallelism from the captured output of the
/// processor-count query, falling back to the fixed default whenever the
/// query failed or misparses.
pub fn parallelism(out: Option<&str>) -> (r: u32)
    ensures
        r == spec_parallelism(output_view(out)),
{
    let s = match out {
        Option::Some(s) => s,
        Option::None => {
            return DEFAULT_PARALLELISM;
        },
    };
    let n = s.unicode_len();
    let mut acc: u64 = 0;
    let mut seen: bool = false;
    let mut bad: bool = false;
    let mut over: bool = false;
    let mut i: usize = 0;
    proof {
        assert(s@.take(0) =~= Seq::<char>::empty());
    }
    while i < n
        invariant
            i <= n,
            n == s@.len(),
            !bad ==> seen == (without_spaces(s@.take(i as int)).len() > 0),
            !bad <==> (forall|k: int|
                0 <= k < without_spaces(s@.take(i as int)).len() ==> is_digit_char(
                    #[trigger] without_spaces(s@.take(i as int))[k],
                )),
            !over ==> acc <= u32::MAX as u64,
            !bad && !over ==> acc as nat == digits_value(without_spaces(s@.take(i as int))),
            !bad && over ==> digits_value(without_spaces(s@.take(i as int))) > u32::MAX as nat,
        decreases n - i,
    {
        let c = s.get_char(i);
        let ghost f = without_spaces(s@.take(i as int));
        let ghost f1 = without_spaces(s@.take(i + 1));
        proof {
            assert(s@.take(i + 1).drop_last() =~= s@.take(i as int));
            assert(s@.take(i + 1).last() == s@[i as int]);
        }
        if is_space(c) {
            proof {
                assert(f1 == f);
            }
        } else {
            let code: u32 = c as u32;
            proof {
                assert(f1 == f.push(c));
                assert(f1.drop_last() =~= f);
                assert(f1.last() == c);
            }
            if 48 <= code && code <= 57 {
                seen = true;
                if !over {
                    acc = acc * 10 + ((code - 48) as u64);
                    if acc > (u32::MAX as u64) {
                        over = true;
                    }
                }
                proof {
                    if !bad {
                        assert(digits_value(f1) == digits_value(f) * 10 + digit_val(c));
                    }
                }
            } else {
                bad = true;
                proof {
                    assert(!is_digit_char(f1.last()));
                }
            }
        }
        i += 1;
    }
    proof {
        assert(s@.take(n as int) =~= s@);
    }
    if bad || !seen || over {
        DEFAULT_PARALLELISM
    } else {
        acc as u32
    }
}

/// The character of a decimal digit value.
pub open spec fn digit_char(d: nat) -> char {
    if d == 0 {
        '0'
    } else if d == 1 {
        '1'
    } else if d == 2 {
        '2'
    } else if d == 3 {
        '3'
    } else if d == 4 {
        '4'
    } else if d == 5 {
        '5'
    } else if d == 6 {
        '6'
    } else if d == 7 {
        '7'
    } else if d == 8 {
        '8'
    } else {
        '9'
    }
}

/// The decimal rendering of `n`, most significant digit first.
pub open spec fn dec_rep(n: nat) -> Seq<char>
    decreases n,
{
    if n < 10 {
        seq![digit_char(n)]
    } else {
        dec_rep(n / 10).push(digit_char(n % 10))
    }
}

/// The one-character string of a decimal digit value.
fn digit_str(d: u32) -> (r: &'static str)
    requires
        d < 10,
    ensures
        r@ == seq![digit_char(d as nat)],
{
    if d == 0 {
        proof {
            reveal_strlit("0");
        }
        "0"
    } else if d == 1 {
        proof {
            reveal_strlit("1");
        }
        "1"
    } else if d == 2 {
        proof {
            reveal_strlit("2");
        }
        "2"
    } else if d == 3 {
        proof {
            reveal_strlit("3");
        }
        "3"
    } else if d == 4 {
        proof {
            reveal_strlit("4");
        }
        "4"
    } else if d == 5 {
        proof {
            reveal_strlit("5");
        }
        "5"
    } else if d == 6 {
        proof {
            reveal_strlit("6");
        }
        "6"
    } else if d == 7 {
        proof {
            reveal_strlit("7");
        }
        "7"
    } else if d == 8 {
        proof {
            reveal_strlit("8");
        }
        "8"
    } else {
        proof {
            reveal_strlit("9");
        }
        "9"
    }
}

/// Renders `n` in decimal.
pub fn dec_string(n: u32) -> (r: String)
    ensures
        r@ == dec_rep(n as nat),
    decreases n,
{
    let d: u32 = n % 10;
    let ds = digit_str(d);
    if n < 10 {
        String::from_str(ds)
    } else {
        let mut s = dec_string(n / 10);
        s.append(ds);
        proof {
            assert(s@ =~= dec_rep((n / 10) as nat).push(digit_char((n % 10) as nat)));
        }
        s
    }
}

/// The single argument handed to the build tool: silent mode with the
/// given parallelism.
pub fn make_arg(par: u32) -> (r: String)
    ensures
        r@ == "-sj"@ + dec_rep(par as nat),
{
    let mut s = String::from_str("-sj");
    s.append(dec_string(par).as_str());
    s
}

} // verus!
