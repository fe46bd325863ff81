//! Text helpers: comparison and decimal rendering.

use vstd::prelude::*;

verus! {

/// The character of a decimal digit.
pub open spec fn digit(d: nat) -> char {
    (('0' as u32) + d) as char
}

/// The decimal notation of `n`, without leading zeros.
pub open spec fn decimal(n: nat) -> Seq<char>
    decreases n,
{
    if n < 10 {
        seq![digit(n)]
    } else {
        decimal(n / 10).push(digit(n % 10))
    }
}

/// The text inside an optional string.
pub open spec fn optional_text(value: Option<String>) -> Option<Seq<char>> {
    match value {
        Some(text) => Some(text@),
        None => None,
    }
}

/// The texts of a list of strings, in order.
pub open spec fn texts(values: Seq<String>) -> Seq<Seq<char>> {
    values.map_values(|value: String| value@)
}

/// The texts inside an optional list of strings.
pub open spec fn optional_texts(values: Option<Vec<String>>) -> Option<Seq<Seq<char>>> {
    match values {
        Some(list) => Some(texts(list@)),
        None => None,
    }
}

/// Returns whether two texts hold the same characters.
pub fn same_text(left: &str, right: &str) -> (same: bool)
    ensures
        same == (left@ == right@),
{
    left.to_string() == right.to_string()
}

fn digit_text(d: u64) -> (text: &'static str)
    requires
        d < 10,
    ensures
        text@ == seq![digit(d as nat)],
{
    proof {
        reveal_strlit("0");
        reveal_strlit("1");
        reveal_strlit("2");
        reveal_strlit("3");
        reveal_strlit("4");
        reveal_strlit("5");
        reveal_strlit("6");
        reveal_strlit("7");
        reveal_strlit("8");
        reveal_strlit("9");
    }
    if d == 0 {
        "0"
    } else if d == 1 {
        "1"
    } else if d == 2 {
        "2"
    } else if d == 3 {
        "3"
    } else if d == 4 {
        "4"
    } else if d == 5 {
        "5"
    } else if d == 6 {
        "6"
    } else if d == 7 {
        "7"
    } else if d == 8 {
        "8"
    } else {
        "9"
    }
}

/// Renders `n` in decimal notation.
pub fn decimal_text(n: u64) -> (text: String)
    ensures
        text@ == decimal(n as nat),
    decreases n,
{
    if n < 10 {
        digit_text(n).to_string()
    } else {
        let mut text = decimal_text(n / 10);
        text.append(digit_text(n % 10));
        assert(text@ =~= decimal((n / 10) as nat).push(digit((n % 10) as nat)));
        text
    }
}

/// Copies an optional string.
pub fn copy_optional(value: &Option<String>) -> (copy: Option<String>)
    ensures
        optional_text(copy) == optional_text(*value),
{
    match value {
        Some(text) => Some(text.clone()),
        None => None,
    }
}

/// Copies a list of strings.
pub fn copy_texts(values: &Vec<String>) -> (copy: Vec<String>)
    ensures
        texts(copy@) == texts(values@),
{
    let mut copy: Vec<String> = Vec::new();
    let mut i: usize = 0;
    while i < values.len()
        invariant
            i <= values.len(),
            texts(copy@) =~= texts(values@).take(i as int),
        decreases values.len() - i,
    {
        let ghost before = copy@;
        copy.push(values[i].clone());
        assert(texts(copy@) =~= texts(before).push(values@[i as int]@));
        i = i + 1;
    }
    assert(texts(values@).take(i as int) =~= texts(values@));
    copy
}

/// The number that a text spells digit by digit, most significant digit first.
pub open spec fn spelled_number(text: Seq<char>) -> int
    decreases text.len(),
{
    if text.len() == 0 {
        0
    } else {
        10 * spelled_number(text.drop_last()) + (text.last() as int - '0' as int)
    }
}

proof fn lemma_decimal_spells(n: nat)
    ensures
        spelled_number(decimal(n)) == n,
        decimal(n).len() > 0,
        forall|i: int|
            0 <= i < decimal(n).len() ==> '0' <= #[trigger] decimal(n)[i] && decimal(n)[i] <= '9',
        n > 0 ==> decimal(n)[0] != '0',
        n == 0 ==> decimal(n).len() == 1,
    decreases n,
{
    if n < 10 {
        let text = decimal(n);
        assert(text.len() == 1 && text[0] == digit(n));
        assert(spelled_number(text.drop_last()) == 0);
    } else {
        lemma_decimal_spells(n / 10);
        let head = decimal(n / 10);
        assert(decimal(n) == head.push(digit(n % 10)));
        assert(decimal(n).drop_last() =~= head);
        assert(decimal(n).last() == digit(n % 10));
        assert(decimal(n)[0] == head[0]);
    }
}

/// A number is rendered in decimal digits that spell it, without leading zeros.
pub proof fn law_rendered_numbers_spell_themselves(n: u64, text: String)
    requires
        call_ensures(decimal_text, (n,), text),
    ensures
        spelled_number(text@) == n,
        text@.len() > 0,
        forall|i: int| 0 <= i < text@.len() ==> '0' <= #[trigger] text@[i] && text@[i] <= '9',
        text@[0] == '0' ==> text@.len() == 1,
        text@ == decimal(n as nat),
{
    lemma_decimal_spells(n as nat);
}

/// A copy of an optional text has a text exactly where the original has one, and the same.
pub proof fn law_copied_options_are_the_same(value: Option<String>, copy: Option<String>)
    requires
        call_ensures(copy_optional, (&value,), copy),
    ensures
        copy is Some <==> value is Some,
        copy is Some ==> copy->0@ == value->0@,
{
}

/// A copied list holds the same texts in the same places.
pub proof fn law_copied_lists_are_the_same(values: Vec<String>, copy: Vec<String>)
    requires
        call_ensures(copy_texts, (&values,), copy),
    ensures
        copy@.len() == values@.len(),
        forall|i: int| 0 <= i < values@.len() ==> (#[trigger] copy@[i])@ == values@[i]@,
{
    assert(texts(copy@).len() == copy@.len());
    assert(texts(values@).len() == values@.len());
    assert forall|i: int| 0 <= i < values@.len() implies (#[trigger] copy@[i])@ == values@[i]@ by {
        assert(texts(copy@)[i] == copy@[i]@);
        assert(texts(values@)[i] == values@[i]@);
    }
}

} // verus!
