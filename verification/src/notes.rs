//! Musical note naming from a semitone offset against A4 = 440 Hz.
//!
//! The offset itself is `12 * log2(f / 440)` rounded to the nearest
//! integer, a transcendental quantity the caller computes; everything
//! from that integer to the rendered name — chromatic letter, octave
//! with floor semantics for negative offsets, decimal formatting — is
//! verified here.

use vstd::prelude::*;

verus! {

/// Chromatic letter of a note index in `[0, 12)`, counted upward from A.
pub open spec fn note_letter(idx: int) -> Seq<char> {
    if idx == 0 {
        seq!['A']
    } else if idx == 1 {
        seq!['A', '#']
    } else if idx == 2 {
        seq!['B']
    } else if idx == 3 {
        seq!['C']
    } else if idx == 4 {
        seq!['C', '#']
    } else if idx == 5 {
        seq!['D']
    } else if idx == 6 {
        seq!['D', '#']
    } else if idx == 7 {
        seq!['E']
    } else if idx == 8 {
        seq!['F']
    } else if idx == 9 {
        seq!['F', '#']
    } else if idx == 10 {
        seq!['G']
    } else {
        seq!['G', '#']
    }
}

/// Decimal digit character of a value in `[0, 10)`.
pub open spec fn digit_char(d: int) -> char {
    if d == 0 {
        '0'
    } else if d == 1 {
        '1'
    } else if d == 2 {
        '2'
    } else if d == 3 {
        '3'
    } else if d == 4 {
        '4'
    } else if d == 5 {
        '5'
    } else if d == 6 {
        '6'
    } else if d == 7 {
        '7'
    } else if d == 8 {
        '8'
    } else {
        '9'
    }
}

/// Decimal digits of `n`, most significant first; empty for `0`.
pub open spec fn dec_digits(n: nat) -> Seq<char>
    decreases n,
{
    if n == 0 {
        Seq::empty()
    } else {
        dec_digits(n / 10).push(digit_char((n % 10) as int))
    }
}

/// Decimal rendering of an integer: digits with a leading `-` when
/// negative, and the single digit `0` for zero.
pub open spec fn int_string(n: int) -> Seq<char> {
    if n == 0 {
        seq!['0']
    } else if n > 0 {
        dec_digits(n as nat)
    } else {
        seq!['-'] + dec_digits((-n) as nat)
    }
}

/// Name of the pitch `semitones` above A4 (below for negative values):
/// the chromatic letter of `semitones mod 12` followed by the octave
/// `4 + semitones div 12`, both with floor semantics, so that one step
/// below A4 is G#3 in this A-based octave numbering.
pub open spec fn note_name_spec(semitones: int) -> Seq<char> {
    note_letter(semitones % 12) + int_string(4 + semitones / 12)
}

/// Appends the digit character of `d` to `s`.
fn push_digit(s: &mut String, d: u64)
    requires
        d < 10,
    ensures
        final(s)@ == old(s)@.push(digit_char(d as int)),
{
    proof {
        reveal_strlit("0");
        reveal_strlit("1");
        reveal_strlit("2");
        reveal_strlit("3");
        reveal_strlit("4");
        reveal_strlit("5");
        reveal_strlit("6");
        reveal_strlit("7");
        reveal_strlit("8");
        reveal_strlit("9");
    }
    match d {
        0 => s.append("0"),
        1 => s.append("1"),
        2 => s.append("2"),
        3 => s.append("3"),
        4 => s.append("4"),
        5 => s.append("5"),
        6 => s.append("6"),
        7 => s.append("7"),
        8 => s.append("8"),
        _ => s.append("9"),
    }
    proof {
        assert(s@ =~= old(s)@.push(digit_char(d as int)));
    }
}

/// Digit characters of the low-to-high digit values `digits`, read in
/// reverse: most significant digit first.
spec fn digits_reversed(digits: Seq<u64>) -> Seq<char> {
    Seq::new(digits.len(), |t: int| digit_char(digits[digits.len() - 1 - t] as int))
}

/// Appends the decimal rendering of `n` to `s`; `n` must be positive so
/// the rendering never needs a leading zero.
#[verifier::loop_isolation(false)]
fn append_decimal(s: &mut String, n: u64)
    requires
        n > 0,
    ensures
        final(s)@ == old(s)@ + dec_digits(n as nat),
{
    let mut digits: Vec<u64> = Vec::new();
    let mut cur: u64 = n;
    while cur > 0
        invariant
            dec_digits(n as nat) == dec_digits(cur as nat) + digits_reversed(digits@),
            forall|t: int| 0 <= t < digits@.len() ==> #[trigger] digits@[t] < 10,
        decreases cur,
    {
        let ghost olddigits = digits@;
        let ghost oldcur = cur;
        let d: u64 = cur % 10;
        digits.push(d);
        cur = cur / 10;
        proof {
            assert(digits_reversed(digits@) =~= seq![digit_char(d as int)] + digits_reversed(
                olddigits,
            ));
            assert(dec_digits(oldcur as nat) == dec_digits(cur as nat).push(
                digit_char(d as int),
            ));
            assert(dec_digits(cur as nat) + digits_reversed(digits@) =~= dec_digits(
                oldcur as nat,
            ) + digits_reversed(olddigits));
        }
    }
    assert(dec_digits(n as nat) =~= digits_reversed(digits@));
    let mut j: usize = digits.len();
    while j > 0
        invariant
            j <= digits@.len(),
            s@ == old(s)@ + digits_reversed(digits@).subrange(
                0,
                digits@.len() - j as int,
            ),
        decreases j,
    {
        j = j - 1;
        let ghost before = s@;
        push_digit(s, digits[j]);
        proof {
            assert(s@ =~= old(s)@ + digits_reversed(digits@).subrange(
                0,
                digits@.len() - j as int,
            ));
        }
    }
    proof {
        assert(digits_reversed(digits@).subrange(0, digits@.len() as int) =~= digits_reversed(
            digits@,
        ));
        assert(s@ =~= old(s)@ + dec_digits(n as nat));
    }
}

/// Decimal rendering of a signed value, with `-` for negative values.
pub fn int_to_string(n: i64) -> (s: String)
    ensures
        s@ == int_string(n as int),
{
    proof {
        reveal_strlit("0");
        reveal_strlit("-");
        reveal_strlit("");
    }
    if n == 0 {
        return String::from_str("0");
    }
    let mut s = String::from_str(if n < 0 {
        "-"
    } else {
        ""
    });
    let magnitude: u64 = if n < 0 {
        (-(n as i128)) as u64
    } else {
        n as u64
    };
    append_decimal(&mut s, magnitude);
    proof {
        assert(s@ =~= int_string(n as int));
    }
    s
}

/// Chromatic letter and octave of the pitch `semitones` away from A4.
#[verifier::loop_isolation(false)]
pub fn note_name(semitones: i32) -> (s: String)
    ensures
        s@ == note_name_spec(semitones as int),
{
    let wide: i64 = semitones as i64;
    let (div12, mod12): (i64, i64) = if wide >= 0 {
        let w: u64 = wide as u64;
        ((w / 12) as i64, (w % 12) as i64)
    } else {
        let p: u64 = (-(wide as i128)) as u64;
        let q: u64 = (p + 11) / 12;
        let m: u64 = (12 - p % 12) % 12;
        proof {
            let pi = p as int;
            vstd::arithmetic::div_mod::lemma_fundamental_div_mod(pi, 12);
            let qq = pi / 12;
            let rr = pi % 12;
            if rr == 0 {
                vstd::arithmetic::div_mod::lemma_fundamental_div_mod_converse_div(
                    pi + 11,
                    12,
                    qq,
                    11,
                );
                vstd::arithmetic::div_mod::lemma_fundamental_div_mod_converse_div(
                    wide as int,
                    12,
                    -qq,
                    0,
                );
                vstd::arithmetic::div_mod::lemma_fundamental_div_mod_converse_mod(
                    wide as int,
                    12,
                    -qq,
                    0,
                );
            } else {
                vstd::arithmetic::div_mod::lemma_fundamental_div_mod_converse_div(
                    pi + 11,
                    12,
                    qq + 1,
                    rr - 1,
                );
                vstd::arithmetic::div_mod::lemma_fundamental_div_mod_converse_div(
                    wide as int,
                    12,
                    -qq - 1,
                    12 - rr,
                );
                vstd::arithmetic::div_mod::lemma_fundamental_div_mod_converse_mod(
                    wide as int,
                    12,
                    -qq - 1,
                    12 - rr,
                );
                vstd::arithmetic::div_mod::lemma_small_mod((12 - rr) as nat, 12);
            }
        }
        ((-(q as i64)), m as i64)
    };
    proof {
        assert(div12 == wide as int / 12);
        assert(mod12 == wide as int % 12);
        assert(0 <= mod12 < 12);
    }
    let letter: &str = if mod12 == 0 {
        "A"
    } else if mod12 == 1 {
        "A#"
    } else if mod12 == 2 {
        "B"
    } else if mod12 == 3 {
        "C"
    } else if mod12 == 4 {
        "C#"
    } else if mod12 == 5 {
        "D"
    } else if mod12 == 6 {
        "D#"
    } else if mod12 == 7 {
        "E"
    } else if mod12 == 8 {
        "F"
    } else if mod12 == 9 {
        "F#"
    } else if mod12 == 10 {
        "G"
    } else {
        "G#"
    };
    proof {
        reveal_strlit("A");
        reveal_strlit("A#");
        reveal_strlit("B");
        reveal_strlit("C");
        reveal_strlit("C#");
        reveal_strlit("D");
        reveal_strlit("D#");
        reveal_strlit("E");
        reveal_strlit("F");
        reveal_strlit("F#");
        reveal_strlit("G");
        reveal_strlit("G#");
        assert(letter@ =~= note_letter(mod12 as int));
    }
    let octave_str = int_to_string(4 + div12);
    let note = String::from_str(letter).concat(octave_str.as_str());
    proof {
        assert(note@ =~= note_name_spec(semitones as int));
    }
    note
}

/// Textual note report for an analyzed frequency in milli-hertz: the
/// silence marker for the sentinel, else the name of the pitch at the
/// caller-computed semitone offset from A4.
pub fn frequency_to_note(frequency_millihz: u64, semitones_from_a4: i32) -> (s: String)
    ensures
        frequency_millihz == 0 ==> s@ == "Silence"@,
        frequency_millihz > 0 ==> s@ == note_name_spec(semitones_from_a4 as int),
{
    if frequency_millihz == 0 {
        String::from_str("Silence")
    } else {
        note_name(semitones_from_a4)
    }
}

} // verus!
