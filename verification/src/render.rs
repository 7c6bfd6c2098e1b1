//! Textual rendering of entries: decimal numerals built character by
//! character, and the exact line the service prints for a row.

use vstd::prelude::*;

verus! {

use vstd::arithmetic::div_mod::lemma_small_mod;
use vstd::string::StringExecFns;
use crate::percent::compute_percentage;
use crate::percent::percentage_of;
use crate::store::WaterRow;

/// The numeral for a single decimal digit.
pub open spec fn digit_char(d: int) -> char
    recommends
        0 <= d < 10,
{
    if d == 0 {
        '0'
    } else if d == 1 {
        '1'
    } else if d == 2 {
        '2'
    } else if d == 3 {
        '3'
    } else if d == 4 {
        '4'
    } else if d == 5 {
        '5'
    } else if d == 6 {
        '6'
    } else if d == 7 {
        '7'
    } else if d == 8 {
        '8'
    } else {
        '9'
    }
}

/// The decimal numeral of a natural number, most significant digit first,
/// with no leading zeros (a lone `0` for zero).
pub open spec fn dec_nat(n: nat) -> Seq<char>
    decreases n,
{
    if n < 10 {
        seq![digit_char(n as int)]
    } else {
        dec_nat(n / 10) + seq![digit_char((n % 10) as int)]
    }
}

/// The decimal numeral of an integer: a leading `-` for negative values.
pub open spec fn dec_int(n: int) -> Seq<char> {
    if n >= 0 {
        dec_nat(n as nat)
    } else {
        seq!['-'] + dec_nat((-n) as nat)
    }
}

fn digit_str(d: u64) -> (r: &'static str)
    requires
        d < 10,
    ensures
        r@ == seq![digit_char(d as int)],
{
    match d {
        0 => {
            proof {
                reveal_strlit("0");
                assert("0"@ =~= seq![digit_char(d as int)]);
            }
            "0"
        },
        1 => {
            proof {
                reveal_strlit("1");
                assert("1"@ =~= seq![digit_char(d as int)]);
            }
            "1"
        },
        2 => {
            proof {
                reveal_strlit("2");
                assert("2"@ =~= seq![digit_char(d as int)]);
            }
            "2"
        },
        3 => {
            proof {
                reveal_strlit("3");
                assert("3"@ =~= seq![digit_char(d as int)]);
            }
            "3"
        },
        4 => {
            proof {
                reveal_strlit("4");
                assert("4"@ =~= seq![digit_char(d as int)]);
            }
            "4"
        },
        5 => {
            proof {
                reveal_strlit("5");
                assert("5"@ =~= seq![digit_char(d as int)]);
            }
            "5"
        },
        6 => {
            proof {
                reveal_strlit("6");
                assert("6"@ =~= seq![digit_char(d as int)]);
            }
            "6"
        },
        7 => {
            proof {
                reveal_strlit("7");
                assert("7"@ =~= seq![digit_char(d as int)]);
            }
            "7"
        },
        8 => {
            proof {
                reveal_strlit("8");
                assert("8"@ =~= seq![digit_char(d as int)]);
            }
            "8"
        },
        _ => {
            proof {
                reveal_strlit("9");
                assert("9"@ =~= seq![digit_char(d as int)]);
            }
            "9"
        },
    }
}

/// Appends the decimal numeral of `n` to `s`.
pub fn push_u64(s: &mut String, n: u64)
    ensures
        final(s)@ == old(s)@ + dec_nat(n as nat),
    decreases n,
{
    if n >= 10 {
        push_u64(s, n / 10);
    }
    let d = digit_str(n % 10);
    s.append(d);
    proof {
        if n < 10 {
            lemma_small_mod(n as nat, 10);
        }
        assert(s@ =~= old(s)@ + dec_nat(n as nat));
    }
}

/// Appends the decimal numeral of `n`, with its sign, to `s`.
pub fn push_i64(s: &mut String, n: i64)
    requires
        n > i64::MIN,
    ensures
        final(s)@ == old(s)@ + dec_int(n as int),
{
    if n >= 0 {
        push_u64(s, n as u64);
    } else {
        s.append("-");
        push_u64(s, (-n) as u64);
        proof {
            reveal_strlit("-");
            assert("-"@ =~= seq!['-']);
            assert(s@ =~= old(s)@ + dec_int(n as int));
        }
    }
}

/// The line the service prints for one row.
pub open spec fn row_text(r: WaterRow) -> Seq<char>
    recommends
        r.target > 0,
{
    "id = "@ + dec_int(r.id as int) + " date = "@ + r.date@ + ", water_intake = "@ + dec_int(
        r.water_intake as int,
    ) + ", target = "@ + dec_int(r.target as int) + ", percentage = "@ + dec_int(
        percentage_of(r.water_intake as int, r.target as int),
    ) + "\n"@
}

/// Renders one row exactly as `row_text` states it.
pub fn format_row(r: &WaterRow) -> (out: String)
    requires
        r.target > 0,
    ensures
        out@ == row_text(*r),
{
    let mut out = String::new();
    out.append("id = ");
    push_i64(&mut out, r.id as i64);
    out.append(" date = ");
    out.append(r.date.as_str());
    out.append(", water_intake = ");
    push_i64(&mut out, r.water_intake as i64);
    out.append(", target = ");
    push_i64(&mut out, r.target as i64);
    out.append(", percentage = ");
    let p = compute_percentage(r.water_intake, r.target);
    push_i64(&mut out, p);
    out.append("\n");
    proof {
        assert(out@ =~= row_text(*r));
    }
    out
}

/// The full listing: every row's line, in store order.
pub open spec fn rows_text(s: Seq<WaterRow>) -> Seq<char>
    decreases s.len(),
{
    if s.len() == 0 {
        Seq::empty()
    } else {
        rows_text(s.drop_last()) + row_text(s.last())
    }
}

/// Renders the whole table, one line per row, in store order.
pub fn display_rows(rows: &Vec<WaterRow>) -> (out: String)
    requires
        forall|i: int| 0 <= i < rows@.len() ==> (#[trigger] rows@[i]).target > 0,
    ensures
        out@ == rows_text(rows@),
{
    let mut out = String::new();
    let mut i: usize = 0;
    while i < rows.len()
        invariant
            i <= rows@.len(),
            out@ == rows_text(rows@.take(i as int)),
            forall|j: int| 0 <= j < rows@.len() ==> (#[trigger] rows@[j]).target > 0,
        decreases rows@.len() - i,
    {
        let line = format_row(&rows[i]);
        out.append(line.as_str());
        proof {
            assert(rows@.take(i as int + 1).drop_last() =~= rows@.take(i as int));
            assert(rows@.take(i as int + 1).last() == rows@[i as int]);
            assert(out@ =~= rows_text(rows@.take(i as int + 1)));
        }
        i = i + 1;
    }
    proof {
        assert(rows@.take(rows@.len() as int) =~= rows@);
    }
    out
}

} // verus!
