//! What the texts of numbers, lists, paths and parameters are.

use vstd::prelude::*;

use crate::param::tensor::described;
use crate::text::{comma_list, decimal, dotted, occurs, texts};

verus! {

/// A digit is written as its character, and a digit is appended to a number by
/// appending its character.
pub proof fn decimals_grow_by_digits(number: nat, digit: nat)
    requires
        digit < 10,
    ensures
        decimal(digit) == seq![(48 + digit) as char],
        number > 0 ==> decimal(10 * number + digit) == decimal(number).push((48 + digit) as char),
{
    assert(crate::text::digit_text(digit) == seq![(48 + digit) as char]);
    if number > 0 {
        assert((10 * number + digit) / 10 == number);
        assert((10 * number + digit) % 10 == digit);
        assert(decimal(number) + seq![(48 + digit) as char] == decimal(number).push(
            (48 + digit) as char,
        ));
    }
}

/// Two lists in a row are written as the first, a comma and a space, and the
/// second. A list of one number is written as the number, an empty list as
/// nothing.
pub proof fn lists_are_joined_by_commas(first: Seq<usize>, second: Seq<usize>, number: usize)
    ensures
        comma_list(Seq::<usize>::empty()) == Seq::<char>::empty(),
        comma_list(seq![number]) == decimal(number as nat),
        first.len() > 0 && second.len() > 0 ==> comma_list(first + second) == comma_list(first)
            + seq![',', ' '] + comma_list(second),
    decreases second.len(),
{
    if first.len() > 0 && second.len() > 0 {
        let all = first + second;
        assert(all.last() == second.last());
        if second.len() == 1 {
            assert(all.drop_last() == first);
            assert(second[0] == second.last());
        } else {
            lists_are_joined_by_commas(first, second.drop_last(), number);
            assert(all.drop_last() == first + second.drop_last());
        }
        assert(comma_list(all) == comma_list(first) + seq![',', ' '] + comma_list(second));
    }
}

/// Two paths in a row are written as the first, a dot, and the second. A path of
/// one name is written as the name, an empty path as nothing.
pub proof fn paths_are_joined_by_dots(
    first: Seq<Seq<char>>,
    second: Seq<Seq<char>>,
    name: Seq<char>,
)
    ensures
        dotted(Seq::<Seq<char>>::empty()) == Seq::<char>::empty(),
        dotted(seq![name]) == name,
        first.len() > 0 && second.len() > 0 ==> dotted(first + second) == dotted(first)
            + seq!['.'] + dotted(second),
    decreases second.len(),
{
    if first.len() > 0 && second.len() > 0 {
        let all = first + second;
        assert(all.last() == second.last());
        if second.len() == 1 {
            assert(all.drop_last() == first);
            assert(second[0] == second.last());
        } else {
            paths_are_joined_by_dots(first, second.drop_last(), name);
            assert(all.drop_last() == first + second.drop_last());
        }
        assert(dotted(all) == dotted(first) + seq!['.'] + dotted(second));
    }
}

/// A text occurs in another if and only if the other is that text with something
/// before and something after it.
pub proof fn occurring_is_being_in_the_middle(whole: Seq<char>, part: Seq<char>)
    ensures
        occurs(whole, part) <==> exists|before: Seq<char>, after: Seq<char>|
            whole == #[trigger] before.add(part).add(after),
        occurs(whole, Seq::<char>::empty()),
        occurs(whole, whole),
{
    if occurs(whole, part) {
        let start = choose|start: int| crate::text::occurs_at(whole, part, start);
        let before = whole.subrange(0, start);
        let after = whole.subrange(start + part.len(), whole.len() as int);
        assert(whole == before.add(part).add(after));
    }
    if exists|before: Seq<char>, after: Seq<char>|
        whole == #[trigger] before.add(part).add(after) {
        let (before, after) = choose|before: Seq<char>, after: Seq<char>|
            whole == #[trigger] before.add(part).add(after);
        let start = before.len() as int;
        assert(whole.subrange(start, start + part.len()) == part);
        assert(crate::text::occurs_at(whole, part, start));
    }
    assert(whole.subrange(0, 0) == Seq::<char>::empty());
    assert(crate::text::occurs_at(whole, Seq::<char>::empty(), 0));
    assert(whole.subrange(0, whole.len() as int) == whole);
    assert(crate::text::occurs_at(whole, whole, 0));
}

/// The characters of each text, in order.
pub proof fn texts_are_read_one_by_one(strings: Seq<String>, parts: Seq<&str>, i: int)
    ensures
        texts(strings).len() == strings.len(),
        0 <= i < strings.len() ==> texts(strings)[i] == strings[i]@,
        crate::lora::str_texts(parts).len() == parts.len(),
        0 <= i < parts.len() ==> crate::lora::str_texts(parts)[i] == parts[i]@,
{
}

/// The description of a parameter names its rank, its dimensions and its kind, in
/// this order. Showing the identity puts it before the closing brace and changes
/// nothing else.
pub proof fn descriptions_show_what_they_say(dims: Seq<usize>, kind: Seq<char>, id: Seq<char>)
    ensures
        described(dims, kind, None) == "ParamTensor {rank: "@ + decimal(dims.len())
            + ", shape: ["@ + comma_list(dims) + "], kind: "@ + kind + "}"@,
        described(dims, kind, Some(id)) == described(dims, kind, None).drop_last() + ", id: "@ + id
            + "}"@,
{
    reveal_strlit("}");
    let head = "ParamTensor {rank: "@ + decimal(dims.len()) + ", shape: ["@ + comma_list(dims)
        + "], kind: "@ + kind;
    assert(described(dims, kind, None) == head + "}"@);
    assert((head + "}"@).drop_last() == head);
    assert(described(dims, kind, Some(id)) == head + ", id: "@ + id + "}"@);
}

} // verus!
