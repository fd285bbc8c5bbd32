//! Lists and texts as scripts see them: the first item of a list, and the
//! first letter of a text, has the number 1.
use vstd::prelude::*;
use vstd::string::{StrSliceExecFns, StringExecFns};

verus! {

/// Whether a number counts an item of a list of the given length.
pub open spec fn counts_item(index: int, len: int) -> bool {
    1 <= index <= len
}

/// The item with the given number, or `default` where the list has none.
pub fn get_vec_element<'a, T>(vec: &'a Vec<T>, index: usize, default: &'a T) -> (item: &'a T)
    ensures
        counts_item(index as int, vec@.len() as int) ==> *item == vec@[index - 1],
        !counts_item(index as int, vec@.len() as int) ==> *item == *default,
{
    if 1 <= index && index <= vec.len() {
        &vec[index - 1]
    } else {
        default
    }
}

/// Puts `value` in place of the item with the given number; a list that has
/// no such item stays as it is.
pub fn set_vec_element<T>(vec: &mut Vec<T>, index: usize, value: T)
    ensures
        counts_item(index as int, old(vec)@.len() as int) ==> final(vec)@ == old(vec)@.update(
            index - 1,
            value,
        ),
        !counts_item(index as int, old(vec)@.len() as int) ==> final(vec)@ == old(vec)@,
{
    if 1 <= index && index <= vec.len() {
        vec[index - 1] = value;
    }
}

/// The length of a list.
pub fn len_of_vec<T>(vec: &Vec<T>) -> (len: usize)
    ensures
        len == vec@.len(),
{
    vec.len()
}

/// The number of the first item that is `value`, or 0 where none is.
pub fn index_of_bool(vec: &Vec<bool>, value: bool) -> (index: usize)
    ensures
        index <= vec@.len(),
        index > 0 ==> vec@[index - 1] == value,
        index > 0 ==> forall|k: int| 0 <= k < index - 1 ==> vec@[k] != value,
        index == 0 ==> forall|k: int| 0 <= k < vec@.len() ==> vec@[k] != value,
{
    let mut i: usize = 0;
    while i < vec.len()
        invariant
            i <= vec.len(),
            forall|k: int| 0 <= k < i ==> vec@[k] != value,
        decreases vec.len() - i,
    {
        if vec[i] == value {
            return i + 1;
        }
        i += 1;
    }
    0
}

/// The number of the first item that reads `value`, or 0 where none does.
pub fn index_of_string(vec: &Vec<String>, value: &String) -> (index: usize)
    ensures
        index <= vec@.len(),
        index > 0 ==> vec@[index - 1]@ == value@,
        index > 0 ==> forall|k: int| 0 <= k < index - 1 ==> vec@[k]@ != value@,
        index == 0 ==> forall|k: int| 0 <= k < vec@.len() ==> vec@[k]@ != value@,
{
    let mut i: usize = 0;
    while i < vec.len()
        invariant
            i <= vec.len(),
            forall|k: int| 0 <= k < i ==> vec@[k]@ != value@,
        decreases vec.len() - i,
    {
        if vec[i] == *value {
            return i + 1;
        }
        i += 1;
    }
    0
}

/// The items one after the other, a comma and a blank between each two.
pub open spec fn listed(items: Seq<String>) -> Seq<char>
    decreases items.len(),
{
    if items.len() == 0 {
        Seq::empty()
    } else if items.len() == 1 {
        items[0]@
    } else {
        listed(items.drop_last()) + seq![',', ' '] + items.last()@
    }
}

/// Writes a list out as one text, see [`listed`].
pub fn cast_vec_to_string(vec: &Vec<String>) -> (text: String)
    ensures
        text@ == listed(vec@),
{
    let mut text = String::new();
    let mut i: usize = 0;
    assert(vec@.take(0) == Seq::<String>::empty());
    while i < vec.len()
        invariant
            i <= vec.len(),
            text@ == listed(vec@.take(i as int)),
        decreases vec.len() - i,
    {
        let ghost before = vec@.take(i as int);
        let ghost now = vec@.take(i + 1);
        assert(now.drop_last() == before);
        assert(now.last() == vec@[i as int]);
        if i > 0 {
            proof {
                reveal_strlit(", ");
                assert(", "@ == seq![',', ' ']);
            }
            text.append(", ");
        } else {
            assert(before.len() == 0);
            assert(Seq::<char>::empty() + vec@[0]@ == vec@[0]@);
        }
        text.append(vec[i].as_str());
        i += 1;
    }
    assert(vec@.take(i as int) == vec@);
    text
}

/// Two texts as one.
pub fn join(first: &str, second: &str) -> (joined: String)
    ensures
        joined@ == first@ + second@,
{
    String::from_str(first).concat(second)
}

/// The letter with the given number as a text, or the empty text where
/// `text` is shorter.
pub fn letter_of(text: &str, index: usize) -> (letter: String)
    ensures
        counts_item(index as int, text@.len() as int) ==> letter@ == seq![text@[index - 1]],
        !counts_item(index as int, text@.len() as int) ==> letter@ == Seq::<char>::empty(),
{
    if 1 <= index && index <= text.unicode_len() {
        let letter = text.substring_char(index - 1, index);
        assert(letter@ == seq![text@[index - 1]]);
        letter.to_owned()
    } else {
        String::new()
    }
}

/// Whether two texts read the same.
pub fn string_eq(first: &String, second: &String) -> (same: bool)
    ensures
        same == (first@ == second@),
{
    *first == *second
}

} // verus!
