//! Texts, and values that go by a name.

use vstd::prelude::*;
use vstd::relations::injective_on;
use vstd::set_lib::{
    lemma_int_range, lemma_map_size, lemma_subset_equality, set_int_range,
};
use vstd::string::*;
use vstd::utf8::*;

verus! {

/// A name with a value: a parameter of a request, or a member of a JSON
/// object.
#[derive(Clone, Debug, PartialEq, Eq)]
pub struct Named<V> {
    pub name: String,
    pub value: V,
}

impl<V: View> View for Named<V> {
    type V = (Seq<char>, V::V);

    open spec fn view(&self) -> (Seq<char>, V::V) {
        (self.name@, self.value@)
    }
}

/// A name with a text value.
pub type Field = Named<String>;

/// The views of `fields`, in their order.
pub open spec fn fields_view<V: View>(fields: Seq<Named<V>>) -> Seq<(Seq<char>, V::V)> {
    fields.map_values(|f: Named<V>| f@)
}

/// The value of the first of `fields` that is called `name`.
pub open spec fn lookup<V>(fields: Seq<(Seq<char>, V)>, name: Seq<char>) -> Option<V>
    decreases fields.len(),
{
    if fields.len() == 0 {
        None
    } else if fields[0].0 == name {
        Some(fields[0].1)
    } else {
        lookup(fields.skip(1), name)
    }
}

/// The place of the first of `fields` that is called `name`, or their count
/// where none is called so.
pub open spec fn position<V>(fields: Seq<(Seq<char>, V)>, name: Seq<char>) -> int
    decreases fields.len(),
{
    if fields.len() == 0 {
        0
    } else if fields[0].0 == name {
        0
    } else {
        1 + position(fields.skip(1), name)
    }
}

/// A name is looked up by going to its place.
pub proof fn lemma_lookup_at_position<V>(fields: Seq<(Seq<char>, V)>, name: Seq<char>)
    ensures
        0 <= position(fields, name) <= fields.len(),
        lookup(fields, name) is Some <==> position(fields, name) < fields.len(),
        lookup(fields, name) is Some ==> fields[position(fields, name)].0 == name && lookup(
            fields,
            name,
        ) == Some(fields[position(fields, name)].1),
    decreases fields.len(),
{
    if fields.len() > 0 && fields[0].0 != name {
        lemma_lookup_at_position(fields.skip(1), name);
    }
}

/// Fields that are as many as `names` are called by these names and by no
/// others, where the names differ from one another and each of them is
/// the name of a field.
pub proof fn lemma_names_cover_fields<V>(fields: Seq<(Seq<char>, V)>, names: Seq<Seq<char>>)
    requires
        names.no_duplicates(),
        fields.len() == names.len(),
        forall|k: int| 0 <= k < names.len() ==> lookup(fields, #[trigger] names[k]) is Some,
    ensures
        forall|i: int| 0 <= i < fields.len() ==> names.contains(#[trigger] fields[i].0),
{
    let n = names.len() as int;
    let places = set_int_range(0, n);
    let place = |k: int| position(fields, names[k]);
    lemma_int_range(0, n);
    assert forall|k: int| 0 <= k < n implies 0 <= #[trigger] place(k) < n && fields[place(k)].0
        == names[k] by {
        lemma_lookup_at_position(fields, names[k]);
    }
    assert(injective_on(place, places)) by {
        assert forall|j: int, k: int|
            places.contains(j) && places.contains(k) && #[trigger] place(j) == #[trigger] place(
                k,
            ) implies j == k by {
            assert(names[j] == fields[place(j)].0);
            assert(names[k] == fields[place(k)].0);
        }
    }
    let taken = places.map(place);
    lemma_map_size(places, taken, place);
    assert(taken.subset_of(places)) by {
        assert forall|p: int| taken.contains(p) implies places.contains(p) by {
            let k = choose|k: int| places.contains(k) && p == place(k);
            assert(0 <= place(k) < n);
        }
    }
    lemma_subset_equality(taken, places);
    assert forall|i: int| 0 <= i < fields.len() implies names.contains(#[trigger] fields[i].0) by {
        assert(places.contains(i));
        assert(taken.contains(i));
        let k = choose|k: int| places.contains(k) && i == place(k);
        assert(0 <= place(k) < n && fields[place(k)].0 == names[k]);
        assert(names[k] == fields[i].0);
    }
}

/// Finds the value of the first of `fields` that is called `name`.
pub fn find<'a, V: View>(fields: &'a Vec<Named<V>>, name: &str) -> (found: Option<&'a V>)
    ensures
        match found {
            Some(value) => lookup(fields_view(fields@), name@) == Some(value@),
            None => lookup(fields_view(fields@), name@) is None,
        },
{
    let ghost all = fields_view(fields@);
    let mut i: usize = 0;
    assert(all.skip(0) =~= all);
    while i < fields.len()
        invariant
            i <= fields.len(),
            all == fields_view(fields@),
            lookup(all, name@) == lookup(all.skip(i as int), name@),
        decreases fields.len() - i,
    {
        proof {
            assert(all.skip(i as int)[0] == fields@[i as int]@);
            assert(all.skip(i as int).skip(1) =~= all.skip(i + 1));
        }
        if same_text(fields[i].name.as_str(), name) {
            return Some(&fields[i].value);
        }
        i += 1;
    }
    None
}

/// Whether two texts hold the same characters.
pub fn same_text(left: &str, right: &str) -> (same: bool)
    ensures
        same == (left@ == right@),
{
    let a = left.as_bytes();
    let b = right.as_bytes();
    if a.len() != b.len() {
        return false;
    }
    let mut i: usize = 0;
    while i < a.len()
        invariant
            a@ == left.spec_bytes(),
            b@ == right.spec_bytes(),
            a.len() == b.len(),
            i <= a.len(),
            forall|j: int| 0 <= j < i ==> a@[j] == b@[j],
        decreases a.len() - i,
    {
        if a[i] != b[i] {
            return false;
        }
        i += 1;
    }
    proof {
        assert(a@ =~= b@);
        encode_utf8_decode_utf8(left@);
        encode_utf8_decode_utf8(right@);
    }
    true
}

} // verus!
