//! The field extractor: from a record as declared to the list of its named fields.

use vstd::prelude::*;
use crate::classify::key_is;
use crate::model::{Attribute, FieldInfo, FieldSource, ItemStruct};

verus! {

/// Whether an attribute is the bare marker that opts a field out.
pub open spec fn marks_ignored(a: &Attribute) -> bool {
    match a {
        Attribute::Path(segments) => segments@.len() == 1 && segments@[0]@ == "tlayuda_ignore"@,
        Attribute::Other => false,
    }
}

/// Whether any of a field's attributes opts it out.
pub open spec fn any_marks_ignored(attrs: Seq<Attribute>) -> bool {
    exists|i: int| 0 <= i < attrs.len() && marks_ignored(#[trigger] &attrs[i])
}

/// The description of a named field: its name and type untouched, and whether it is
/// opted out.
pub open spec fn described<'a>(f: &'a FieldSource) -> FieldInfo<'a>
    recommends
        f.name is Some,
{
    FieldInfo {
        identifier: &f.name->0,
        field_type: &f.ty,
        is_ignored: any_marks_ignored(f.attrs@),
    }
}

/// The descriptions of the named fields among `fields`, in the order they were declared.
pub open spec fn extracted<'a>(fields: Seq<FieldSource>) -> Seq<FieldInfo<'a>>
    decreases fields.len(),
{
    if fields.len() == 0 {
        Seq::empty()
    } else if fields.last().name is Some {
        extracted(fields.drop_last()).push(described(&fields.last()))
    } else {
        extracted(fields.drop_last())
    }
}

/// Extraction never adds a field, and keeps all of them when every field is named.
pub proof fn lemma_extracted_len(fields: Seq<FieldSource>)
    ensures
        extracted(fields).len() <= fields.len(),
        (forall|i: int| 0 <= i < fields.len() ==> (#[trigger] fields[i]).name is Some)
            ==> extracted(fields).len() == fields.len(),
    decreases fields.len(),
{
    if fields.len() > 0 {
        lemma_extracted_len(fields.drop_last());
        assert(forall|i: int|
            0 <= i < fields.drop_last().len() ==> fields.drop_last()[i] == fields[i]);
    }
}

/// Every extracted field stands for a named declared field, and two extracted fields
/// stand in the order of the fields they came from.
pub proof fn lemma_extracted_in_order(fields: Seq<FieldSource>)
    ensures
        exists|origin: Seq<int>|
            #![trigger origin.len()]
            {
                &&& origin.len() == extracted(fields).len()
                &&& forall|k: int|
                    0 <= k < origin.len() ==> 0 <= #[trigger] origin[k] < fields.len()
                &&& forall|k: int|
                    0 <= k < origin.len() ==> fields[#[trigger] origin[k]].name is Some
                        && extracted(fields)[k] == described(&fields[origin[k]])
                &&& forall|j: int, k: int|
                    0 <= j < k < origin.len() ==> #[trigger] origin[j] < #[trigger] origin[k]
            },
    decreases fields.len(),
{
    if fields.len() == 0 {
        let origin = Seq::<int>::empty();
        assert(origin.len() == extracted(fields).len());
    } else {
        let front = fields.drop_last();
        lemma_extracted_in_order(front);
        let before = choose|origin: Seq<int>|
            #![trigger origin.len()]
            {
                &&& origin.len() == extracted(front).len()
                &&& forall|k: int|
                    0 <= k < origin.len() ==> 0 <= #[trigger] origin[k] < front.len()
                &&& forall|k: int|
                    0 <= k < origin.len() ==> front[#[trigger] origin[k]].name is Some
                        && extracted(front)[k] == described(&front[origin[k]])
                &&& forall|j: int, k: int|
                    0 <= j < k < origin.len() ==> #[trigger] origin[j] < #[trigger] origin[k]
            };
        let origin = if fields.last().name is Some {
            before.push(fields.len() - 1)
        } else {
            before
        };
        assert(origin.len() == extracted(fields).len());
        assert forall|k: int| 0 <= k < origin.len() implies fields[#[trigger] origin[k]].name
            is Some && extracted(fields)[k] == described(&fields[origin[k]]) by {}
    }
}

/// The number of opted-out fields.
pub open spec fn count_ignored(fields: Seq<FieldInfo>) -> nat
    decreases fields.len(),
{
    if fields.len() == 0 {
        0
    } else if fields.last().is_ignored {
        count_ignored(fields.drop_last()) + 1
    } else {
        count_ignored(fields.drop_last())
    }
}

/// Counting the opted-out fields of a prefix never gives more than counting all.
pub proof fn lemma_count_ignored_grows(fields: Seq<FieldInfo>, k: int)
    requires
        0 <= k <= fields.len(),
    ensures
        count_ignored(fields.take(k)) <= count_ignored(fields),
    decreases fields.len() - k,
{
    if k == fields.len() {
        assert(fields.take(k) =~= fields);
    } else {
        assert(fields.take(k + 1).drop_last() =~= fields.take(k));
        lemma_count_ignored_grows(fields, k + 1);
    }
}

/// Tells whether an attribute is the bare opt-out marker.
pub fn is_ignore_marker(a: &Attribute) -> (r: bool)
    ensures
        r == marks_ignored(a),
{
    match a {
        Attribute::Path(segments) => segments.len() == 1 && key_is(&segments[0], "tlayuda_ignore"),
        Attribute::Other => false,
    }
}

/// Tells whether any attribute of a field opts it out.
pub fn has_ignore_marker(attrs: &Vec<Attribute>) -> (r: bool)
    ensures
        r == any_marks_ignored(attrs@),
{
    let mut i: usize = 0;
    while i < attrs.len()
        invariant
            0 <= i <= attrs.len(),
            forall|j: int| 0 <= j < i ==> !marks_ignored(#[trigger] &attrs@[j]),
        decreases attrs.len() - i,
    {
        if is_ignore_marker(&attrs[i]) {
            return true;
        }
        i = i + 1;
    }
    false
}

/// Lists the named fields of a record in declaration order. A field without a name is
/// left out; a field's type is not looked into.
pub fn get_fields<'a>(item_struct: &'a ItemStruct) -> (r: Vec<FieldInfo<'a>>)
    ensures
        r@ == extracted(item_struct.fields@),
{
    let mut out: Vec<FieldInfo<'a>> = Vec::new();
    let mut i: usize = 0;
    while i < item_struct.fields.len()
        invariant
            0 <= i <= item_struct.fields.len(),
            out@ == extracted(item_struct.fields@.take(i as int)),
        decreases item_struct.fields.len() - i,
    {
        let x = &item_struct.fields[i];
        proof {
            let next = item_struct.fields@.take(i + 1);
            assert(next.drop_last() =~= item_struct.fields@.take(i as int));
        }
        match &x.name {
            Some(name) => {
                let is_ignored = has_ignore_marker(&x.attrs);
                out.push(FieldInfo { identifier: name, field_type: &x.ty, is_ignored });
            },
            None => {},
        }
        i = i + 1;
    }
    assert(item_struct.fields@.take(i as int) =~= item_struct.fields@);
    out
}

} // verus!
