//! Sets of names, and how they are written out.

use vstd::prelude::*;
use crate::text::Text;

verus! {

/// A text between quotation marks, as `Debug` writes it: what does not print is escaped.
pub uninterp spec fn quoted(text: Seq<char>) -> Seq<char>;

/// Writes a text with the `Debug` of std's `str`. What it writes depends on the text alone and is
/// named, not spelled out: which characters are escaped follows std's tables.
#[verifier::external_body]
fn quote(text: &str) -> (r: String)
    ensures
        r@ == quoted(text@),
{
    format!("{:?}", text)
}

/// Names in their order, with another name in its place; one that is there already is not
/// repeated.
pub open spec fn with_name(names: Seq<Seq<char>>, name: Seq<char>) -> Seq<Seq<char>>
    decreases names.len(),
{
    if names.len() == 0 {
        seq![name]
    } else if names.last() == name {
        names
    } else if crate::text::text_precedes(names.last(), name) {
        names.push(name)
    } else {
        with_name(names.drop_last(), name).push(names.last())
    }
}

/// Names in their order, each once.
pub open spec fn in_order(names: Seq<Text>) -> Seq<Seq<char>>
    decreases names.len(),
{
    if names.len() == 0 {
        Seq::empty()
    } else {
        with_name(in_order(names.drop_last()), names.last()@)
    }
}

/// Names between quotation marks, with commas between them.
pub open spec fn enumerated(names: Seq<Seq<char>>) -> Seq<char>
    decreases names.len(),
{
    if names.len() == 0 {
        Seq::empty()
    } else if names.len() == 1 {
        quoted(names[0])
    } else {
        enumerated(names.drop_last()) + ", "@ + quoted(names.last())
    }
}

/// A set of names, written out in its order between braces.
pub open spec fn listing(names: Seq<Text>) -> Seq<char> {
    "{"@ + enumerated(in_order(names)) + "}"@
}

/// Whether each name comes before those that follow it.
pub open spec fn is_increasing(names: Seq<Seq<char>>) -> bool {
    forall|i: int, j: int|
        0 <= i < j < names.len() ==> crate::text::text_precedes(
            #[trigger] names[i],
            #[trigger] names[j],
        )
}

/// What the texts of names are.
spec fn texts(names: Seq<Text>) -> Seq<Seq<char>> {
    names.map_values(|name: Text| name@)
}

proof fn lemma_with_name(names: Seq<Seq<char>>, name: Seq<char>)
    requires
        is_increasing(names),
    ensures
        is_increasing(with_name(names, name)),
        forall|other: Seq<char>|
            #[trigger] with_name(names, name).contains(other) <==> (names.contains(other) || other == name),
    decreases names.len(),
{
    let result = with_name(names, name);
    if names.len() == 0 {
        assert(result[0] == name);
    } else if names.last() == name {
        assert(names[names.len() - 1] == name);
    } else if crate::text::text_precedes(names.last(), name) {
        assert forall|i: int, j: int| 0 <= i < j < result.len() implies crate::text::text_precedes(
            #[trigger] result[i],
            #[trigger] result[j],
        ) by {
            if j == names.len() && i < names.len() - 1 {
                crate::text::lemma_precedes_transitive(names[i], names.last(), name);
            }
        }
        assert forall|other: Seq<char>|
            #[trigger] result.contains(other) <==> (names.contains(other) || other == name) by {
            if names.contains(other) {
                let k = choose|k: int| 0 <= k < names.len() && names[k] == other;
                assert(result[k] == other);
            }
            if other == name {
                assert(result[names.len() as int] == name);
            }
        }
    } else {
        let rest = names.drop_last();
        let last = names.last();
        let earlier = with_name(rest, name);
        lemma_with_name(rest, name);
        crate::text::lemma_precedes_total(last, name);
        assert forall|i: int, j: int| 0 <= i < j < result.len() implies crate::text::text_precedes(
            #[trigger] result[i],
            #[trigger] result[j],
        ) by {
            if j == earlier.len() {
                assert(earlier.contains(earlier[i]));
                if rest.contains(earlier[i]) {
                    let k = choose|k: int| 0 <= k < rest.len() && rest[k] == earlier[i];
                    assert(names[k] == earlier[i]);
                    assert(crate::text::text_precedes(names[k], names[names.len() - 1]));
                }
            }
        }
        assert forall|other: Seq<char>|
            #[trigger] result.contains(other) <==> (names.contains(other) || other == name) by {
            if result.contains(other) {
                let k = choose|k: int| 0 <= k < result.len() && result[k] == other;
                if k < earlier.len() {
                    assert(earlier.contains(other));
                    if rest.contains(other) {
                        let m = choose|m: int| 0 <= m < rest.len() && rest[m] == other;
                        assert(names[m] == other);
                    }
                } else {
                    assert(names[names.len() - 1] == other);
                }
            }
            if names.contains(other) || other == name {
                if other == last {
                    assert(result[earlier.len() as int] == other);
                } else {
                    if names.contains(other) {
                        let m = choose|m: int| 0 <= m < names.len() && names[m] == other;
                        assert(rest[m] == other);
                    }
                    assert(earlier.contains(other));
                    let k = choose|k: int| 0 <= k < earlier.len() && earlier[k] == other;
                    assert(result[k] == other);
                }
            }
        }
    }
}

/// A listing holds each of the names once, in their order, and no other.
pub proof fn law_listings_are_in_order(names: Seq<Text>)
    ensures
        is_increasing(in_order(names)),
        forall|name: Seq<char>|
            #[trigger] in_order(names).contains(name) <==> crate::schema_objects::names_hold(names, name),
    decreases names.len(),
{
    if names.len() > 0 {
        let rest = names.drop_last();
        law_listings_are_in_order(rest);
        lemma_with_name(in_order(rest), names.last()@);
        assert forall|name: Seq<char>|
            #[trigger] in_order(names).contains(name) <==> crate::schema_objects::names_hold(names, name) by {
            if crate::schema_objects::names_hold(rest, name) {
                let k = choose|k: int| 0 <= k < rest.len() && (#[trigger] rest[k])@ == name;
                assert(names[k]@ == name);
            }
            if crate::schema_objects::names_hold(names, name) {
                let k = choose|k: int| 0 <= k < names.len() && (#[trigger] names[k])@ == name;
                if k < rest.len() {
                    assert(rest[k]@ == name);
                }
            }
            assert(names[names.len() - 1]@ == names.last()@);
        }
    }
}

proof fn lemma_place_of_name(names: Seq<Seq<char>>, name: Seq<char>, place: int)
    requires
        0 <= place <= names.len(),
        forall|j: int|
            place <= j < names.len() ==> #[trigger] names[j] != name && !crate::text::text_precedes(
                names[j],
                name,
            ),
        place > 0 ==> names[place - 1] == name || crate::text::text_precedes(
            names[place - 1],
            name,
        ),
    ensures
        with_name(names, name) == (if place > 0 && names[place - 1] == name {
            names
        } else {
            names.insert(place, name)
        }),
    decreases names.len(),
{
    if place == names.len() {
        assert(names.insert(place, name) =~= names.push(name));
    } else {
        let rest = names.drop_last();
        assert(names[names.len() - 1] == names.last());
        assert forall|j: int| place <= j < rest.len() implies #[trigger] rest[j] != name
            && !crate::text::text_precedes(rest[j], name) by {
            assert(rest[j] == names[j]);
        }
        lemma_place_of_name(rest, name, place);
        if place > 0 && names[place - 1] == name {
            assert(rest.push(names.last()) =~= names);
        } else {
            assert(rest.insert(place, name).push(names.last()) =~= names.insert(place, name));
        }
    }
}

fn put_in_order(names: &Vec<Text>) -> (r: Vec<Text>)
    ensures
        texts(r@) == in_order(names@),
{
    let mut ordered: Vec<Text> = Vec::new();
    assert(texts(ordered@) =~= in_order(names@.take(0)));
    let mut i: usize = 0;
    while i < names.len()
        invariant
            i <= names@.len(),
            texts(ordered@) == in_order(names@.take(i as int)),
        decreases names.len() - i,
    {
        let mut place: usize = ordered.len();
        while place > 0 && names[i].precedes(&ordered[place - 1])
            invariant
                i < names@.len(),
                place <= ordered@.len(),
                forall|j: int|
                    place <= j < ordered@.len() ==> crate::text::text_precedes(
                        names@[i as int]@,
                        #[trigger] texts(ordered@)[j],
                    ),
            decreases place,
        {
            place -= 1;
        }
        let ghost before = texts(ordered@);
        proof {
            let name = names@[i as int]@;
            assert forall|j: int| place <= j < before.len() implies #[trigger] before[j] != name
                && !crate::text::text_precedes(before[j], name) by {
                crate::text::lemma_precedes_irreflexive(name);
                if crate::text::text_precedes(before[j], name) {
                    crate::text::lemma_precedes_transitive(name, before[j], name);
                }
            }
            if place > 0 && before[place - 1] != name {
                crate::text::lemma_precedes_total(before[place - 1], name);
            }
            lemma_place_of_name(before, name, place as int);
            assert(names@.take(i + 1).drop_last() =~= names@.take(i as int));
            assert(names@.take(i + 1).last() == names@[i as int]);
        }
        if place == 0 || ordered[place - 1] != names[i] {
            ordered.insert(place, names[i].clone());
            assert(texts(ordered@) =~= before.insert(place as int, names@[i as int]@));
        }
        i += 1;
    }
    assert(names@.take(i as int) =~= names@);
    ordered
}

/// Writes out a set of names.
pub fn list_names(names: &Vec<Text>) -> (r: Text)
    ensures
        r@ == listing(names@),
{
    let ordered = put_in_order(names);
    let mut text = Text::of("");
    proof {
        reveal_strlit("");
    }
    assert(text@ =~= enumerated(texts(ordered@).take(0)));
    let mut i: usize = 0;
    while i < ordered.len()
        invariant
            i <= ordered@.len(),
            text@ == enumerated(texts(ordered@).take(i as int)),
        decreases ordered.len() - i,
    {
        let ghost listed = texts(ordered@).take(i + 1);
        assert(listed.drop_last() =~= texts(ordered@).take(i as int));
        assert(listed.last() == ordered@[i as int]@);
        let name = Text { value: quote(ordered[i].value.as_str()) };
        if i > 0 {
            text = text.followed_by(&Text::of(", ")).followed_by(&name);
        } else {
            text = name;
        }
        i += 1;
    }
    assert(texts(ordered@).take(i as int) =~= texts(ordered@));
    Text::around("{", &text, "}")
}

} // verus!
