//! Formatting a 256-bit amount for log output: the decimal digits with an
//! underscore before every group of three, counted from the right.

use vstd::prelude::*;
use vstd::arithmetic::div_mod::lemma_fundamental_div_mod_converse;
use crate::words::U256;

verus! {

/// The character of one decimal digit.
pub open spec fn digit_char(d: int) -> char {
    if d == 0 {
        '0'
    } else if d == 1 {
        '1'
    } else if d == 2 {
        '2'
    } else if d == 3 {
        '3'
    } else if d == 4 {
        '4'
    } else if d == 5 {
        '5'
    } else if d == 6 {
        '6'
    } else if d == 7 {
        '7'
    } else if d == 8 {
        '8'
    } else {
        '9'
    }
}

/// The decimal digits of a number, most significant first.
pub open spec fn dec_digits(v: nat) -> Seq<char>
    decreases v,
{
    if v < 10 {
        seq![digit_char(v as int)]
    } else {
        dec_digits(v / 10).push(digit_char((v % 10) as int))
    }
}

/// The digit characters of a least-significant-first digit list, read
/// back most significant first.
pub open spec fn rev_chars(ds: Seq<u8>) -> Seq<char>
    decreases ds.len(),
{
    if ds.len() == 0 {
        Seq::empty()
    } else {
        seq![digit_char(ds.last() as int)] + rev_chars(ds.drop_last())
    }
}

/// The digits with an underscore before every remaining group of three.
pub open spec fn grouped(s: Seq<char>) -> Seq<char>
    decreases s.len(),
{
    if s.len() == 0 {
        Seq::empty()
    } else if s.len() > 1 && (s.len() - 1) % 3 == 0 {
        seq![s[0]] + seq!['_'] + grouped(s.skip(1))
    } else {
        seq![s[0]] + grouped(s.skip(1))
    }
}

/// Appends one decimal digit character.
fn append_digit(out: &mut String, d: u8)
    requires
        d < 10,
    ensures
        final(out)@ == old(out)@ + seq![digit_char(d as int)],
{
    proof {
        reveal_strlit("0");
        reveal_strlit("1");
        reveal_strlit("2");
        reveal_strlit("3");
        reveal_strlit("4");
        reveal_strlit("5");
        reveal_strlit("6");
        reveal_strlit("7");
        reveal_strlit("8");
        reveal_strlit("9");
    }
    match d {
        0 => out.append("0"),
        1 => out.append("1"),
        2 => out.append("2"),
        3 => out.append("3"),
        4 => out.append("4"),
        5 => out.append("5"),
        6 => out.append("6"),
        7 => out.append("7"),
        8 => out.append("8"),
        _ => out.append("9"),
    }
    assert(final(out)@ =~= old(out)@ + seq![digit_char(d as int)]);
}

/// Formats an amount with digit grouping: `1000000` becomes `1_000_000`.
pub fn to_human_size(input: U256) -> (r: String)
    ensures
        r@ == grouped(dec_digits(input.as_nat())),
{
    let ghost v0 = input.as_nat();
    let mut digits_rev: Vec<u8> = Vec::new();
    let mut cur = input;
    loop
        invariant_except_break
            forall|j: int| 0 <= j < digits_rev@.len() ==> digits_rev@[j] < 10,
            if digits_rev@.len() == 0 {
                cur == input
            } else {
                cur.as_nat() > 0 && dec_digits(v0) == dec_digits(cur.as_nat()) + rev_chars(
                    digits_rev@,
                )
            },
            v0 == input.as_nat(),
        ensures
            forall|j: int| 0 <= j < digits_rev@.len() ==> digits_rev@[j] < 10,
            dec_digits(v0) == rev_chars(digits_rev@),
            digits_rev@.len() >= 1,
        decreases cur.as_nat(),
    {
        let ghost before = digits_rev@;
        let ghost cv = cur.as_nat();
        let (q, r) = cur.div_mod_10();
        digits_rev.push(r);
        proof {
            assert(digits_rev@.drop_last() =~= before);
            if cv >= 10 {
                lemma_fundamental_div_mod_converse(cv as int, 10, q.as_nat() as int, r as int);
                assert(dec_digits(cv) == dec_digits(cv / 10).push(digit_char((cv % 10) as int)));
                assert(dec_digits(cv) =~= dec_digits(q.as_nat()) + seq![digit_char(r as int)]);
            } else {
                assert(q.as_nat() == 0) by {
                    if q.as_nat() > 0 {
                        assert(q.as_nat() * 10 >= 10) by (nonlinear_arith)
                            requires
                                q.as_nat() >= 1,
                        ;
                    }
                }
                assert(r == cv);
                assert(dec_digits(cv) =~= seq![digit_char(r as int)]);
            }
            if before.len() == 0 {
                assert(dec_digits(v0) == dec_digits(cv));
            } else {
                assert(dec_digits(v0) == dec_digits(cv) + rev_chars(before));
            }
            assert(rev_chars(digits_rev@) == seq![digit_char(r as int)] + rev_chars(before));
            if before.len() == 0 {
                assert(rev_chars(digits_rev@) =~= seq![digit_char(r as int)]);
            }
            assert(dec_digits(v0) =~= dec_digits(q.as_nat()) + rev_chars(digits_rev@) || q.as_nat()
                == 0);
            if q.as_nat() == 0 {
                assert(dec_digits(v0) =~= rev_chars(digits_rev@));
            }
        }
        cur = q;
        if cur.is_zero() {
            break;
        }
    }
    let k = digits_rev.len();
    let ghost s = rev_chars(digits_rev@);
    proof {
        lemma_rev_chars_len(digits_rev@);
    }
    let mut out = String::new();
    proof {
        assert(s.skip(0) =~= s);
        assert(out@ + grouped(s.skip(0)) =~= grouped(s));
    }
    let mut i: usize = 0;
    while i < k
        invariant
            i <= k,
            k == digits_rev@.len(),
            k >= 1,
            s == rev_chars(digits_rev@),
            s.len() == k,
            forall|j: int| 0 <= j < digits_rev@.len() ==> digits_rev@[j] < 10,
            forall|j: int| 0 <= j < k ==> s[j] == digit_char(digits_rev@[k - 1 - j] as int),
            out@ + grouped(s.skip(i as int)) == grouped(s),
        decreases k - i,
    {
        let d = digits_rev[k - 1 - i];
        append_digit(&mut out, d);
        let remaining = k - 1 - i;
        if remaining % 3 == 0 && remaining > 0 {
            proof {
                reveal_strlit("_");
            }
            out.append("_");
        }
        proof {
            assert(s.skip(i as int).skip(1) =~= s.skip(i + 1));
            assert(s.skip(i as int)[0] == digit_char(d as int));
            assert(s.skip(i as int).len() == k - i);
            if remaining % 3 == 0 && remaining > 0 {
                assert(grouped(s.skip(i as int)) == seq![digit_char(d as int)] + seq!['_']
                    + grouped(s.skip(i + 1)));
                assert(out@ + grouped(s.skip(i + 1)) =~= grouped(s));
            } else {
                assert(grouped(s.skip(i as int)) == seq![digit_char(d as int)] + grouped(
                    s.skip(i + 1),
                ));
                assert(out@ + grouped(s.skip(i + 1)) =~= grouped(s));
            }
        }
        i = i + 1;
    }
    proof {
        assert(s.skip(k as int) =~= Seq::<char>::empty());
        assert(out@ =~= grouped(s));
    }
    out
}

/// The digit characters are as long as the digit list, and each is the
/// digit read from the other end.
proof fn lemma_rev_chars_len(ds: Seq<u8>)
    ensures
        rev_chars(ds).len() == ds.len(),
        forall|j: int| 0 <= j < ds.len() ==> rev_chars(ds)[j] == digit_char(
            ds[ds.len() - 1 - j] as int,
        ),
    decreases ds.len(),
{
    if ds.len() > 0 {
        lemma_rev_chars_len(ds.drop_last());
    }
}

} // verus!
