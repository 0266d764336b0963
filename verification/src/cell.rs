//! Cell addresses: from a zero-based row and column to the name that a
//! formula uses for the cell, such as `A1` or `AA7`.

use crate::text::{decimal_digits, decimal_string, push_reversed};
use vstd::prelude::*;

verus! {

/// The `i`-th capital letter, counted from `A` at 0.
pub open spec fn letter(i: nat) -> char
    recommends
        i < 26,
{
    (('A' as u8) + (i as u8)) as char
}

/// Whether `c` is a capital letter from `A` to `Z`.
pub open spec fn is_letter(c: char) -> bool {
    'A' <= c <= 'Z'
}

/// The place of the capital letter `c` in the alphabet, `A` being 0.
pub open spec fn letter_index(c: char) -> nat
    recommends
        is_letter(c),
{
    (c as u32 - 'A' as u32) as nat
}

/// The letters that name the zero-based column `col`: `A` to `Z`, then `AA`
/// to `ZZ`, then `AAA`, and so on. This is base 26 without a zero digit.
pub open spec fn column_letters(col: nat) -> Seq<char>
    decreases col,
{
    if col < 26 {
        seq![letter(col)]
    } else {
        column_letters((col / 26 - 1) as nat).push(letter(col % 26))
    }
}

/// How many columns come before the one that `letters` names, plus one:
/// each letter counts as a digit from 1 to 26.
pub open spec fn letters_value(letters: Seq<char>) -> nat
    decreases letters.len(),
{
    if letters.len() == 0 {
        0
    } else {
        letters_value(letters.drop_last()) * 26 + letter_index(letters.last()) + 1
    }
}

/// The zero-based column that `letters` names.
pub open spec fn column_index(letters: Seq<char>) -> int {
    letters_value(letters) - 1
}

/// Whether `letters` is a column name: one or more capital letters.
pub open spec fn is_column_name(letters: Seq<char>) -> bool {
    letters.len() > 0 && forall|i: int| 0 <= i < letters.len() ==> is_letter(#[trigger] letters[i])
}

/// The number of columns whose name has at most `k` letters.
pub open spec fn columns_within(k: nat) -> nat
    decreases k,
{
    if k == 0 {
        0
    } else {
        26 * (columns_within((k - 1) as nat) + 1)
    }
}

/// The name of the cell in zero-based row `row` and column `col`: the
/// column's letters, then the row counted from one.
pub open spec fn cell_name_text(row: nat, col: nat) -> Seq<char> {
    column_letters(col) + decimal_digits(row + 1)
}

/// Reading a column's letters back gives the column: `column_index` undoes
/// `column_letters`, and the letters are a well-formed column name.
pub proof fn lemma_column_round_trip(col: nat)
    ensures
        is_column_name(column_letters(col)),
        column_index(column_letters(col)) == col,
    decreases col,
{
    if col < 26 {
        assert(column_letters(col).drop_last() =~= Seq::<char>::empty());
        assert(letters_value(Seq::<char>::empty()) == 0);
    } else {
        let up = (col / 26 - 1) as nat;
        lemma_column_round_trip(up);
        let name = column_letters(col);
        assert(name.drop_last() =~= column_letters(up));
        assert(name.last() == letter(col % 26));
        assert(letter_index(letter(col % 26)) == col % 26);
        assert forall|i: int| 0 <= i < name.len() implies is_letter(#[trigger] name[i]) by {
            if i < name.len() - 1 {
                assert(name[i] == column_letters(up)[i]);
            }
        }
    }
}

/// Every column name is the name of exactly the column it decodes to:
/// `column_letters` undoes `column_index`.
pub proof fn lemma_letters_round_trip(letters: Seq<char>)
    requires
        is_column_name(letters),
    ensures
        column_index(letters) >= 0,
        column_letters(column_index(letters) as nat) == letters,
    decreases letters.len(),
{
    let last = letter_index(letters.last());
    assert(is_letter(letters[letters.len() - 1]));
    assert(letter(last) == letters.last());
    if letters.len() == 1 {
        assert(letters.drop_last() =~= Seq::<char>::empty());
        assert(letters_value(letters.drop_last()) == 0);
        assert(column_letters(last) =~= letters);
    } else {
        let front = letters.drop_last();
        assert(is_column_name(front)) by {
            assert forall|i: int| 0 <= i < front.len() implies is_letter(#[trigger] front[i]) by {
                assert(front[i] == letters[i]);
            }
        }
        lemma_letters_round_trip(front);
        let v = letters_value(front);
        let col = (v * 26 + last) as nat;
        assert(col == column_index(letters));
        assert(col / 26 == v && col % 26 == last) by (nonlinear_arith)
            requires
                col == v * 26 + last,
                last < 26,
        ;
        assert(column_letters(col) =~= front.push(letters.last()));
        assert(front.push(letters.last()) =~= letters);
    }
}

/// A column's name has `k` letters exactly when at least `columns_within(k - 1)`
/// and fewer than `columns_within(k)` columns come before it: 26 names of one
/// letter, 676 of two, and so on.
pub proof fn lemma_column_letters_len(col: nat)
    ensures
        column_letters(col).len() >= 1,
        columns_within((column_letters(col).len() - 1) as nat) <= col < columns_within(
            column_letters(col).len(),
        ),
    decreases col,
{
    reveal_with_fuel(columns_within, 2);
    if col >= 26 {
        let up = (col / 26 - 1) as nat;
        lemma_column_letters_len(up);
        let k = column_letters(up).len();
        assert(column_letters(col).len() == k + 1);
        assert(columns_within(k) == 26 * (columns_within((k - 1) as nat) + 1));
        assert(columns_within(k + 1) == 26 * (columns_within(k) + 1));
    }
}

/// The name of the cell in zero-based row `row` and column `col`.
pub fn cell_name(row: u32, col: u32) -> (name: String)
    ensures
        name@ == cell_name_text(row as nat, col as nat),
{
    let mut rev: Vec<char> = Vec::new();
    let mut rest: u32 = col;
    while rest >= 26
        invariant
            column_letters(col as nat) == column_letters(rest as nat) + rev@.reverse(),
        decreases rest,
    {
        let r: u8 = (rest % 26) as u8;
        rev.push((65u8 + r) as char);
        proof {
            let prev = rev@.drop_last();
            assert(rev@.reverse() =~= seq![letter((rest % 26) as nat)] + prev.reverse());
            assert(column_letters(rest as nat) + prev.reverse() =~= column_letters(
                (rest / 26 - 1) as nat,
            ) + rev@.reverse());
        }
        rest = rest / 26 - 1;
    }
    let mut name = String::new();
    name.push((65u8 + (rest as u8)) as char);
    assert(name@ =~= column_letters(rest as nat));
    push_reversed(&mut name, &rev);
    let digits = decimal_string(row as u64 + 1);
    name.append(digits.as_str());
    name
}

} // verus!
