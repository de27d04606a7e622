//! Texts of several parts.

use vstd::prelude::*;

verus! {

/// The contents of a row of strings.
pub open spec fn texts(strings: Seq<String>) -> Seq<Seq<char>> {
    strings.map_values(|s: String| s@)
}

/// All parts in order, with `separator` between each two.
pub open spec fn joined(parts: Seq<Seq<char>>, separator: Seq<char>) -> Seq<char>
    decreases parts.len(),
{
    if parts.len() == 0 {
        Seq::empty()
    } else {
        let gap = if parts.len() == 1 { Seq::empty() } else { separator };
        joined(parts.drop_last(), separator) + gap + parts.last()
    }
}

/// Joins strings with a separator between each two.
pub fn join(strings: &Vec<String>, separator: &str) -> (text: String)
    ensures
        text@ == joined(texts(strings@), separator@),
{
    let mut text: String = String::new();
    let mut i: usize = 0;
    while i < strings.len()
        invariant
            i <= strings.len(),
            text@ == joined(texts(strings@).take(i as int), separator@),
        decreases strings.len() - i,
    {
        proof {
            let more = texts(strings@).take(i + 1);
            assert(more.drop_last() =~= texts(strings@).take(i as int));
            assert(more.last() == strings@[i as int]@);
        }
        if i > 0 {
            text.append(separator);
        }
        text.append(strings[i].as_str());
        i = i + 1;
    }
    assert(texts(strings@).take(i as int) =~= texts(strings@));
    text
}

/// A label with a value behind it.
pub(crate) fn labelled(label: &str, value: &str) -> (text: String)
    ensures
        text@ == label@ + value@,
{
    let mut text: String = label.to_owned();
    text.append(value);
    text
}

/// A row of strings has a content for each string, in order.
pub proof fn texts_are_contents(strings: Seq<String>)
    ensures
        texts(strings).len() == strings.len(),
        forall|i: int| 0 <= i < strings.len() ==> #[trigger] texts(strings)[i] == strings[i]@,
{
}

/// One part alone is its own text, and no part makes an empty one.
pub proof fn joined_alone(part: Seq<char>, separator: Seq<char>)
    ensures
        joined(Seq::empty(), separator) == Seq::<char>::empty(),
        joined(seq![part], separator) == part,
{
    let one = seq![part];
    assert(one.drop_last() =~= Seq::empty());
    assert(joined(one.drop_last(), separator) =~= Seq::empty());
    assert(joined(one, separator) =~= part);
}

/// Two rows of parts, one behind the other, make the text of the first, a separator and the
/// text of the second.
pub proof fn joined_of_both(
    first: Seq<Seq<char>>,
    second: Seq<Seq<char>>,
    separator: Seq<char>,
)
    requires
        first.len() > 0,
        second.len() > 0,
    ensures
        joined(first + second, separator) == joined(first, separator) + separator + joined(
            second,
            separator,
        ),
    decreases second.len(),
{
    let both = first + second;
    assert(both.drop_last() =~= first + second.drop_last());
    assert(both.last() == second.last());
    if second.len() == 1 {
        assert(second.drop_last() =~= Seq::empty());
        assert(both.drop_last() =~= first);
        assert(joined(second.drop_last(), separator) =~= Seq::empty());
    } else {
        joined_of_both(first, second.drop_last(), separator);
    }
    assert(joined(both, separator) =~= joined(first, separator) + separator + joined(
        second,
        separator,
    ));
}

} // verus!
