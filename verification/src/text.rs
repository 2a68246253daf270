//! The text forms of the listing: decimal numbers, labels of identifiers,
//! and a JSON array of labels.

use crate::asset::AssetId;
use vstd::prelude::*;
use vstd::string::StringExecFns;

verus! {

/// The character of a decimal digit.
pub open spec fn spec_digit(d: nat) -> char {
    if d == 0 {
        '0'
    } else if d == 1 {
        '1'
    } else if d == 2 {
        '2'
    } else if d == 3 {
        '3'
    } else if d == 4 {
        '4'
    } else if d == 5 {
        '5'
    } else if d == 6 {
        '6'
    } else if d == 7 {
        '7'
    } else if d == 8 {
        '8'
    } else {
        '9'
    }
}

/// A number in decimal, without leading zeros.
pub open spec fn spec_decimal(v: nat) -> Seq<char>
    decreases v,
{
    if v < 10 {
        seq![spec_digit(v)]
    } else {
        spec_decimal(v / 10).push(spec_digit(v % 10))
    }
}

/// The label of an identifier: its collection and its serial in decimal,
/// with a colon between them.
pub open spec fn spec_label(id: AssetId) -> Seq<char> {
    spec_decimal(id.collection as nat) + seq![':'] + spec_decimal(id.serial as nat)
}

/// The labels of a list of identifiers, in order.
pub open spec fn spec_labels(ids: Seq<AssetId>) -> Seq<Seq<char>> {
    Seq::new(ids.len(), |i: int| spec_label(ids[i]))
}

/// A character that JSON writes between quotes as it is.
pub open spec fn spec_plain(c: char) -> bool {
    c as u32 >= 0x20 && c != '"' && c != '\\'
}

/// Tells whether a text is made of plain characters only.
pub open spec fn spec_all_plain(text: Seq<char>) -> bool {
    forall|i: int| 0 <= i < text.len() ==> spec_plain(#[trigger] text[i])
}

/// A text between double quotes.
pub open spec fn spec_quoted(text: Seq<char>) -> Seq<char> {
    seq!['"'] + text + seq!['"']
}

/// The texts between double quotes, with commas between them.
pub open spec fn spec_joined(texts: Seq<Seq<char>>) -> Seq<char>
    decreases texts.len(),
{
    if texts.len() == 0 {
        Seq::empty()
    } else if texts.len() == 1 {
        spec_quoted(texts[0])
    } else {
        spec_joined(texts.drop_last()) + seq![','] + spec_quoted(texts.last())
    }
}

/// The JSON array of a list of plain texts, written compactly.
pub open spec fn spec_json_array(texts: Seq<Seq<char>>) -> Seq<char> {
    seq!['['] + spec_joined(texts) + seq![']']
}

/// A number in decimal is made of plain characters.
pub proof fn lemma_decimal_plain(v: nat)
    ensures
        spec_all_plain(spec_decimal(v)),
    decreases v,
{
    if v >= 10 {
        lemma_decimal_plain(v / 10);
    }
}

/// A label is made of plain characters.
pub proof fn lemma_label_plain(id: AssetId)
    ensures
        spec_all_plain(spec_label(id)),
{
    lemma_decimal_plain(id.collection as nat);
    lemma_decimal_plain(id.serial as nat);
}

/// The text of one decimal digit.
fn digit_text(d: u8) -> (text: &'static str)
    requires
        d < 10,
    ensures
        text@ == seq![spec_digit(d as nat)],
{
    proof {
        reveal_strlit("0");
        reveal_strlit("1");
        reveal_strlit("2");
        reveal_strlit("3");
        reveal_strlit("4");
        reveal_strlit("5");
        reveal_strlit("6");
        reveal_strlit("7");
        reveal_strlit("8");
        reveal_strlit("9");
    }
    if d == 0 {
        "0"
    } else if d == 1 {
        "1"
    } else if d == 2 {
        "2"
    } else if d == 3 {
        "3"
    } else if d == 4 {
        "4"
    } else if d == 5 {
        "5"
    } else if d == 6 {
        "6"
    } else if d == 7 {
        "7"
    } else if d == 8 {
        "8"
    } else {
        "9"
    }
}

/// Writes a number in decimal at the end of a text.
pub fn push_decimal(text: &mut String, v: u128)
    ensures
        final(text)@ == old(text)@ + spec_decimal(v as nat),
    decreases v,
{
    if v >= 10 {
        push_decimal(text, v / 10);
    }
    text.append(digit_text((v % 10) as u8));
}

/// Writes the label of an identifier.
pub fn instance_label(id: &AssetId) -> (label: String)
    ensures
        label@ == spec_label(*id),
{
    let mut label = String::new();
    push_decimal(&mut label, id.collection);
    label.append(":");
    push_decimal(&mut label, id.serial);
    proof {
        reveal_strlit(":");
    }
    label
}

} // verus!
