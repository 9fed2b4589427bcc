//! Pieces of text: numbers in decimal, lists, and dotted paths.

use vstd::prelude::*;
use vstd::string::StringExecFns;

verus! {

/// The text of one decimal digit.
pub open spec fn digit_text(digit: nat) -> Seq<char> {
    seq![
        if digit == 0 {
            '0'
        } else if digit == 1 {
            '1'
        } else if digit == 2 {
            '2'
        } else if digit == 3 {
            '3'
        } else if digit == 4 {
            '4'
        } else if digit == 5 {
            '5'
        } else if digit == 6 {
            '6'
        } else if digit == 7 {
            '7'
        } else if digit == 8 {
            '8'
        } else {
            '9'
        },
    ]
}

/// The text of a number in decimal, without leading zeros.
pub open spec fn decimal(number: nat) -> Seq<char>
    decreases number,
{
    if number < 10 {
        digit_text(number)
    } else {
        decimal(number / 10) + digit_text(number % 10)
    }
}

fn push_digit(text: &mut String, digit: usize)
    requires
        digit < 10,
    ensures
        final(text)@ == old(text)@ + digit_text(digit as nat),
{
    proof {
        reveal_strlit("0");
        reveal_strlit("1");
        reveal_strlit("2");
        reveal_strlit("3");
        reveal_strlit("4");
        reveal_strlit("5");
        reveal_strlit("6");
        reveal_strlit("7");
        reveal_strlit("8");
        reveal_strlit("9");
    }
    let shown = match digit {
        0 => "0",
        1 => "1",
        2 => "2",
        3 => "3",
        4 => "4",
        5 => "5",
        6 => "6",
        7 => "7",
        8 => "8",
        _ => "9",
    };
    assert(shown@ == digit_text(digit as nat));
    text.append(shown);
}

/// Appends a number in decimal.
pub fn push_decimal(text: &mut String, number: usize)
    ensures
        final(text)@ == old(text)@ + decimal(number as nat),
    decreases number,
{
    if number < 10 {
        push_digit(text, number);
    } else {
        push_decimal(text, number / 10);
        push_digit(text, number % 10);
        assert(text@ == old(text)@ + decimal(number as nat));
    }
}

/// The numbers in decimal, with a comma and a space between them.
pub open spec fn comma_list(numbers: Seq<usize>) -> Seq<char>
    decreases numbers.len(),
{
    if numbers.len() == 0 {
        seq![]
    } else if numbers.len() == 1 {
        decimal(numbers[0] as nat)
    } else {
        comma_list(numbers.drop_last()) + seq![',', ' '] + decimal(numbers.last() as nat)
    }
}

/// Appends numbers in decimal, with a comma and a space between them.
pub fn push_comma_list(text: &mut String, numbers: &Vec<usize>)
    ensures
        final(text)@ == old(text)@ + comma_list(numbers@),
{
    let ghost start = text@;
    assert(text@ == start + comma_list(numbers@.take(0)));
    for i in 0..numbers.len()
        invariant
            text@ == start + comma_list(numbers@.take(i as int)),
    {
        let ghost before = numbers@.take(i as int);
        let ghost after = numbers@.take(i + 1);
        assert(after.drop_last() == before);
        assert(after.last() == numbers@[i as int]);
        if i > 0 {
            proof {
                reveal_strlit(", ");
            }
            assert(", "@ == seq![',', ' ']);
            text.append(", ");
        }
        push_decimal(text, numbers[i]);
        assert(text@ == start + comma_list(after));
    }
    assert(numbers@.take(numbers@.len() as int) == numbers@);
}

/// The names with a dot between them.
pub open spec fn dotted(names: Seq<Seq<char>>) -> Seq<char>
    decreases names.len(),
{
    if names.len() == 0 {
        seq![]
    } else if names.len() == 1 {
        names[0]
    } else {
        dotted(names.drop_last()) + seq!['.'] + names.last()
    }
}

/// The characters of each text.
pub open spec fn texts(strings: Seq<String>) -> Seq<Seq<char>> {
    Seq::new(strings.len(), |i: int| strings[i]@)
}

/// The names with a dot between them.
pub fn join_dotted(names: &Vec<String>) -> (text: String)
    ensures
        text@ == dotted(texts(names@)),
{
    let mut text = String::new();
    assert(text@ == dotted(texts(names@).take(0)));
    for i in 0..names.len()
        invariant
            text@ == dotted(texts(names@).take(i as int)),
    {
        let ghost before = texts(names@).take(i as int);
        let ghost after = texts(names@).take(i + 1);
        assert(after.drop_last() == before);
        assert(after.last() == names@[i as int]@);
        if i > 0 {
            proof {
                reveal_strlit(".");
            }
            assert("."@ == seq!['.']);
            text.append(".");
        }
        text.append(names[i].as_str());
        assert(text@ == dotted(after));
    }
    assert(texts(names@).take(names@.len() as int) == texts(names@));
    text
}

/// Whether `part` occurs in `whole` at `start`.
pub open spec fn occurs_at(whole: Seq<char>, part: Seq<char>, start: int) -> bool {
    &&& 0 <= start
    &&& start + part.len() <= whole.len()
    &&& whole.subrange(start, start + part.len()) == part
}

/// Whether `part` occurs in `whole`, as characters in a row.
pub open spec fn occurs(whole: Seq<char>, part: Seq<char>) -> bool {
    exists|start: int| occurs_at(whole, part, start)
}

fn chars_of(text: &str) -> (chars: Vec<char>)
    ensures
        chars@ == text@,
{
    let mut chars: Vec<char> = Vec::new();
    for c in iter: text.chars()
        invariant
            chars@ == text@.take(iter.index() as int),
            iter.seq() == text@,
    {
        chars.push(c);
    }
    chars
}

/// Tells whether `part` occurs in `whole`, as characters in a row. The empty
/// text occurs everywhere.
pub fn text_contains(whole: &str, part: &str) -> (found: bool)
    ensures
        found == occurs(whole@, part@),
{
    let whole_chars = chars_of(whole);
    let part_chars = chars_of(part);
    let whole_len: usize = whole_chars.len();
    let part_len: usize = part_chars.len();
    let mut start: usize = 0;
    while part_len <= whole_len - start
        invariant
            whole_chars@ == whole@,
            part_chars@ == part@,
            whole_len == whole@.len(),
            part_len == part@.len(),
            start <= whole_len,
            forall|s: int| 0 <= s < start ==> !#[trigger] occurs_at(whole@, part@, s),
        decreases whole_len - start,
    {
        let mut k: usize = 0;
        while k < part_len && whole_chars[start + k] == part_chars[k]
            invariant
                whole_chars@ == whole@,
                part_chars@ == part@,
                whole_len == whole@.len(),
                part_len == part@.len(),
                start + part_len <= whole_len,
                k <= part_len,
                forall|i: int| 0 <= i < k ==> whole@[start + i] == #[trigger] part@[i],
            decreases part_len - k,
        {
            k = k + 1;
        }
        if k == part_len {
            assert(whole@.subrange(start as int, start + part_len) == part@);
            assert(occurs_at(whole@, part@, start as int));
            return true;
        }
        assert(!occurs_at(whole@, part@, start as int)) by {
            if occurs_at(whole@, part@, start as int) {
                assert(whole@.subrange(start as int, start + part_len)[k as int]
                    == part@[k as int]);
            }
        }
        start = start + 1;
    }
    false
}

} // verus!
