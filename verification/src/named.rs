//! Values kept under names: a list that serves as a map from text.
//!
//! Entries stay in the order in which their names first came, and no name
//! occurs twice.

use crate::text::same_text;
use vstd::prelude::*;
use vstd::string::*;

verus! {

/// A value and the name it goes under.
#[derive(Debug, Clone, PartialEq, Eq)]
pub struct Named<T> {
    pub name: String,
    pub value: T,
}

/// Whether the entry at `index` goes under `name`.
pub open spec fn is_named_at<T>(list: Seq<Named<T>>, name: Seq<char>, index: int) -> bool {
    0 <= index < list.len() && list[index].name@ == name
}

/// Whether no entry goes under `name`.
pub open spec fn unnamed<T>(list: Seq<Named<T>>, name: Seq<char>) -> bool {
    forall|j: int| 0 <= j < list.len() ==> (#[trigger] list[j]).name@ != name
}

/// Whether no two entries go under one name.
pub open spec fn names_distinct<T>(list: Seq<Named<T>>) -> bool {
    forall|i: int, j: int|
        0 <= i < j < list.len() ==> (#[trigger] list[i]).name@ != (#[trigger] list[j]).name@
}

/// The value kept under `name`, if there is one.
pub open spec fn value_under<T>(list: Seq<Named<T>>, name: Seq<char>) -> Option<T> {
    if exists|i: int| is_named_at(list, name, i) {
        Some(list[choose|i: int| is_named_at(list, name, i)].value)
    } else {
        None
    }
}

/// Where names are distinct, the entry found under a name holds the value
/// kept under it.
pub proof fn lemma_value_at<T>(list: Seq<Named<T>>, name: Seq<char>, index: int)
    requires
        names_distinct(list),
        is_named_at(list, name, index),
    ensures
        value_under(list, name) == Some(list[index].value),
{
    let chosen = choose|i: int| is_named_at(list, name, i);
    if chosen < index {
        assert(list[chosen].name@ != list[index].name@);
    }
    if index < chosen {
        assert(list[index].name@ != list[chosen].name@);
    }
}

/// Nothing is kept under a name that no entry goes under.
pub proof fn lemma_value_absent<T>(list: Seq<Named<T>>, name: Seq<char>)
    requires
        unnamed(list, name),
    ensures
        value_under(list, name).is_none(),
{
    if exists|i: int| is_named_at(list, name, i) {
        let i = choose|i: int| is_named_at(list, name, i);
        assert(list[i].name@ != name);
    }
}

/// Replacing the value of one entry leaves names distinct and what is kept
/// under every other name as it was.
pub proof fn lemma_value_replaced<T>(
    before: Seq<Named<T>>,
    after: Seq<Named<T>>,
    index: int,
)
    requires
        names_distinct(before),
        0 <= index < before.len(),
        after.len() == before.len(),
        forall|i: int| 0 <= i < before.len() ==> (#[trigger] after[i]).name@ == before[i].name@,
        forall|i: int| 0 <= i < before.len() && i != index ==> (#[trigger] after[i]) == before[i],
    ensures
        names_distinct(after),
        value_under(after, before[index].name@) == Some(after[index].value),
        forall|other: Seq<char>|
            other != before[index].name@ ==> #[trigger] value_under(after, other) == value_under(
                before,
                other,
            ),
{
    assert forall|i: int, j: int| 0 <= i < j < after.len() implies (#[trigger] after[i]).name@ != (
    #[trigger] after[j]).name@ by {
        assert(before[i].name@ != before[j].name@);
    }
    assert(is_named_at(after, before[index].name@, index));
    lemma_value_at(after, before[index].name@, index);
    assert forall|other: Seq<char>| other != before[index].name@ implies #[trigger] value_under(
        after,
        other,
    ) == value_under(before, other) by {
        if exists|i: int| is_named_at(before, other, i) {
            let i = choose|i: int| is_named_at(before, other, i);
            assert(after[i] == before[i]);
            assert(is_named_at(after, other, i));
            lemma_value_at(after, other, i);
            lemma_value_at(before, other, i);
        } else {
            if exists|i: int| is_named_at(after, other, i) {
                let i = choose|i: int| is_named_at(after, other, i);
                assert(after[i].name@ == before[i].name@);
                assert(is_named_at(before, other, i));
            }
        }
    }
}

/// One more entry under a new name leaves names distinct and what is kept
/// under every other name as it was.
pub proof fn lemma_value_added<T>(before: Seq<Named<T>>, entry: Named<T>)
    requires
        names_distinct(before),
        unnamed(before, entry.name@),
    ensures
        names_distinct(before.push(entry)),
        value_under(before.push(entry), entry.name@) == Some(entry.value),
        forall|other: Seq<char>|
            other != entry.name@ ==> #[trigger] value_under(before.push(entry), other)
                == value_under(before, other),
{
    let after = before.push(entry);
    let last = before.len() as int;
    assert forall|i: int, j: int| 0 <= i < j < after.len() implies (#[trigger] after[i]).name@ != (
    #[trigger] after[j]).name@ by {
        if j < last {
            assert(before[i].name@ != before[j].name@);
        } else {
            assert(after[i] == before[i]);
        }
    }
    assert(is_named_at(after, entry.name@, last));
    lemma_value_at(after, entry.name@, last);
    assert forall|other: Seq<char>| other != entry.name@ implies #[trigger] value_under(
        after,
        other,
    ) == value_under(before, other) by {
        if exists|i: int| is_named_at(before, other, i) {
            let i = choose|i: int| is_named_at(before, other, i);
            assert(after[i] == before[i]);
            assert(is_named_at(after, other, i));
            lemma_value_at(after, other, i);
            lemma_value_at(before, other, i);
        } else {
            if exists|i: int| is_named_at(after, other, i) {
                let i = choose|i: int| is_named_at(after, other, i);
                if i < last {
                    assert(after[i] == before[i]);
                    assert(is_named_at(before, other, i));
                }
            }
        }
    }
}

/// The place of the entry that goes under `name`.
pub fn find_named<T>(list: &Vec<Named<T>>, name: &str) -> (place: Option<usize>)
    ensures
        match place {
            Some(index) => is_named_at(list@, name@, index as int),
            None => unnamed(list@, name@),
        },
{
    let mut i: usize = 0;
    while i < list.len()
        invariant
            i <= list.len(),
            forall|j: int| 0 <= j < i ==> (#[trigger] list@[j]).name@ != name@,
        decreases list.len() - i,
    {
        if same_text(list[i].name.as_str(), name) {
            return Some(i);
        }
        i += 1;
    }
    None
}

/// Keeps `value` under `name`, in place of what was kept under it before.
pub fn put_named<T>(list: &mut Vec<Named<T>>, name: &str, value: T)
    requires
        names_distinct(old(list)@),
    ensures
        names_distinct(final(list)@),
        value_under(final(list)@, name@) == Some(value),
        forall|other: Seq<char>|
            other != name@ ==> #[trigger] value_under(final(list)@, other) == value_under(
                old(list)@,
                other,
            ),
{
    let ghost before = list@;
    match find_named(list, name) {
        Some(index) => {
            list[index].value = value;
            proof {
                lemma_value_replaced(before, list@, index as int);
            }
        },
        None => {
            list.push(Named { name: String::from_str(name), value });
            proof {
                lemma_value_added(before, list@.last());
                assert(list@ =~= before.push(list@.last()));
            }
        },
    }
}

} // verus!
