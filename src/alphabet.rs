//! The four fixed character categories a password may draw from.
use vstd::prelude::*;

verus! {

/// The 32 printable ASCII punctuation characters.
pub open spec fn symbols() -> Seq<char> {
    seq![
        '!', '"', '#', '$', '%', '&', '\'', '(', ')', '*', '+', ',', '-', '.', '/', ':',
        ';', '<', '=', '>', '?', '@', '[', '\\', ']', '^', '_', '`', '{', '|', '}', '~',
    ]
}

/// The ten decimal digits.
pub open spec fn numbers() -> Seq<char> {
    seq!['0', '1', '2', '3', '4', '5', '6', '7', '8', '9']
}

/// The 26 ASCII capital letters.
pub open spec fn uppercase() -> Seq<char> {
    seq![
        'A', 'B', 'C', 'D', 'E', 'F', 'G', 'H', 'I', 'J', 'K', 'L', 'M',
        'N', 'O', 'P', 'Q', 'R', 'S', 'T', 'U', 'V', 'W', 'X', 'Y', 'Z',
    ]
}

/// The 26 ASCII small letters.
pub open spec fn lowercase() -> Seq<char> {
    seq![
        'a', 'b', 'c', 'd', 'e', 'f', 'g', 'h', 'i', 'j', 'k', 'l', 'm',
        'n', 'o', 'p', 'q', 'r', 's', 't', 'u', 'v', 'w', 'x', 'y', 'z',
    ]
}

pub open spec fn is_digit(c: char) -> bool {
    '0' <= c && c <= '9'
}

pub open spec fn is_upper(c: char) -> bool {
    'A' <= c && c <= 'Z'
}

pub open spec fn is_lower(c: char) -> bool {
    'a' <= c && c <= 'z'
}

/// Every digit lies in the range '0'..='9'.
pub proof fn lemma_numbers_are_digits()
    ensures
        forall|c: char| numbers().contains(c) ==> is_digit(c),
{
    assert forall|c: char| numbers().contains(c) implies is_digit(c) by {
        let i = choose|i: int| 0 <= i < numbers().len() && numbers()[i] == c;
        assert(0 <= i < 10);
    }
}

/// Every capital letter lies in the range 'A'..='Z'.
pub proof fn lemma_uppercase_are_upper()
    ensures
        forall|c: char| uppercase().contains(c) ==> is_upper(c),
{
    assert forall|c: char| uppercase().contains(c) implies is_upper(c) by {
        let i = choose|i: int| 0 <= i < uppercase().len() && uppercase()[i] == c;
        assert(0 <= i < 26);
    }
}

/// Every small letter lies in the range 'a'..='z'.
pub proof fn lemma_lowercase_are_lower()
    ensures
        forall|c: char| lowercase().contains(c) ==> is_lower(c),
{
    assert forall|c: char| lowercase().contains(c) implies is_lower(c) by {
        let i = choose|i: int| 0 <= i < lowercase().len() && lowercase()[i] == c;
        assert(0 <= i < 26);
    }
}

/// No symbol is a digit or a letter.
pub proof fn lemma_symbols_are_punctuation()
    ensures
        forall|c: char|
            symbols().contains(c) ==> !is_digit(c) && !is_upper(c) && !is_lower(c),
{
    assert forall|c: char| symbols().contains(c) implies !is_digit(c) && !is_upper(c)
        && !is_lower(c) by {
        let i = choose|i: int| 0 <= i < symbols().len() && symbols()[i] == c;
        assert(0 <= i < 32);
    }
}

/// The symbols, in ASCII order.
pub fn symbol_chars() -> (v: Vec<char>)
    ensures
        v@ == symbols(),
{
    let v = vec![
        '!', '"', '#', '$', '%', '&', '\'', '(', ')', '*', '+', ',', '-', '.', '/', ':',
        ';', '<', '=', '>', '?', '@', '[', '\\', ']', '^', '_', '`', '{', '|', '}', '~',
    ];
    assert(v@ =~= symbols());
    v
}

/// The digits, in ascending order.
pub fn number_chars() -> (v: Vec<char>)
    ensures
        v@ == numbers(),
{
    let v = vec!['0', '1', '2', '3', '4', '5', '6', '7', '8', '9'];
    assert(v@ =~= numbers());
    v
}

/// The capital letters, in alphabetical order.
pub fn uppercase_chars() -> (v: Vec<char>)
    ensures
        v@ == uppercase(),
{
    let v = vec![
        'A', 'B', 'C', 'D', 'E', 'F', 'G', 'H', 'I', 'J', 'K', 'L', 'M',
        'N', 'O', 'P', 'Q', 'R', 'S', 'T', 'U', 'V', 'W', 'X', 'Y', 'Z',
    ];
    assert(v@ =~= uppercase());
    v
}

/// The small letters, in alphabetical order.
pub fn lowercase_chars() -> (v: Vec<char>)
    ensures
        v@ == lowercase(),
{
    let v = vec![
        'a', 'b', 'c', 'd', 'e', 'f', 'g', 'h', 'i', 'j', 'k', 'l', 'm',
        'n', 'o', 'p', 'q', 'r', 's', 't', 'u', 'v', 'w', 'x', 'y', 'z',
    ];
    assert(v@ =~= lowercase());
    v
}

} // verus!
