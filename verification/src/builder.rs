//! What a written builder does, as an executable model: one slot per field, a running
//! index, overrides, single and bulk builds.

use vstd::prelude::*;
use vstd::string::*;
use crate::classify::{
    admitted, class_of, classify_field_type, field_type_of, first_refusal,
    lemma_no_refusal_iff_admitted, lemma_refusal_stays, parse_field_type,
};
use crate::emit::full_text_of;
use crate::extract::{count_ignored, lemma_count_ignored_grows};
use crate::model::{ClassifyError, FieldInfo, FieldType, Refusal, TypeClass};
use crate::value::{default_value, is_default, Value};

verus! {

/// Where the value of a field comes from.
pub enum Generator<I, F> {
    /// The caller's value for an opted-out field, cloned at each build.
    Kept(I),
    /// The default of the field's class; the text is that of the field's type.
    Default(TypeClass, String),
    /// A generator that the caller put in place of the default.
    Custom(F),
}

/// The storage for one field.
pub struct Slot<I, F> {
    pub name: String,
    pub generator: Generator<I, F>,
}

/// The value of one field of a built instance.
#[derive(Debug, PartialEq, Eq)]
pub enum FieldValue<I> {
    /// A clone of the caller's value.
    Kept(I),
    /// A value that a generator made.
    Made(Value),
}

/// One field of a built instance.
#[derive(Debug, PartialEq, Eq)]
pub struct Field<I> {
    pub name: String,
    pub value: FieldValue<I>,
}

/// A built instance: every field of the record, by name, in declaration order.
#[derive(Debug, PartialEq, Eq)]
pub struct Instance<I> {
    pub fields: Vec<Field<I>>,
}

/// Why no builder can be made.
#[derive(Clone, Copy, Debug, PartialEq, Eq)]
pub enum BuildError {
    /// A field that is not opted out has a type without a default.
    Unsupported(Refusal),
    /// The values handed in are not one per opted-out field.
    Arity,
}

/// The builder of a record: the index of the next instance and one slot per field.
pub struct Builder<I, F> {
    pub index: usize,
    pub slots: Vec<Slot<I, F>>,
}

/// Whether `slot` is what a fresh builder holds for the field at position `j`: the
/// field's name, and either the caller's value for it, taken in the order of the
/// opted-out fields, or the default of its class.
pub open spec fn initial_slot<I, F>(
    slot: Slot<I, F>,
    fields: Seq<FieldInfo>,
    j: int,
    ignored: Seq<I>,
) -> bool {
    let f = fields[j];
    &&& slot.name == *f.identifier
    &&& if f.is_ignored {
        slot.generator == Generator::<I, F>::Kept(ignored[count_ignored(fields.take(j)) as int])
    } else {
        slot.generator matches Generator::Default(class, full) && Ok::<TypeClass, ClassifyError>(class)
            == class_of(f.field_type) && full@ == full_text_of(field_type_of(f.field_type)->Ok_0)
    }
}

/// Whether `b` is the builder that the entry point returns for `fields` and the
/// caller's values `ignored`.
pub open spec fn fresh<I, F>(b: Builder<I, F>, fields: Seq<FieldInfo>, ignored: Seq<I>) -> bool {
    &&& b.index == 0
    &&& b.slots@.len() == fields.len()
    &&& forall|j: int| 0 <= j < fields.len() ==> initial_slot(#[trigger] b.slots@[j], fields, j, ignored)
}

/// Whether the slot at `j` is the one that an override of the field `name` replaces: the
/// first slot of that name that does not keep a caller's value.
pub open spec fn overridden_at<I, F>(slots: Seq<Slot<I, F>>, name: Seq<char>, j: int) -> bool {
    &&& 0 <= j < slots.len()
    &&& slots[j].name@ == name
    &&& !(slots[j].generator is Kept)
    &&& forall|k: int| 0 <= k < j ==> !(#[trigger] slots[k].name@ == name && !(slots[k].generator is Kept))
}

/// The slots after an override of the field `name` by `f`: the slot that the override
/// replaces holds `f` under the same name, every other slot is as it was.
pub open spec fn with_override<I, F>(slots: Seq<Slot<I, F>>, name: Seq<char>, f: F) -> Seq<Slot<I, F>> {
    Seq::new(
        slots.len(),
        |j: int|
            if overridden_at(slots, name, j) {
                Slot { name: slots[j].name, generator: Generator::Custom(f) }
            } else {
                slots[j]
            },
    )
}

/// Whether `v` is a value that `slot` may give at the index `i`: a clone of the value it
/// keeps, the default of its class, or a result of its custom generator.
pub open spec fn produced<I: Clone, F: Fn(usize) -> Value>(slot: Slot<I, F>, i: usize, v: FieldValue<I>) -> bool {
    match slot.generator {
        Generator::Kept(x) => v matches FieldValue::Kept(y) && cloned(x, y),
        Generator::Default(class, full) => v matches FieldValue::Made(made) && is_default(
            class,
            slot.name@,
            full@,
            i,
            made,
        ),
        Generator::Custom(f) => v matches FieldValue::Made(made) && call_ensures(f, (i,), made),
    }
}

/// Whether `instance` is what one build gives at the index `i`: every field under its
/// name, in order, each with a value that its slot may give at `i`.
pub open spec fn built_at<I: Clone, F: Fn(usize) -> Value>(
    slots: Seq<Slot<I, F>>,
    i: usize,
    instance: Instance<I>,
) -> bool {
    &&& instance.fields@.len() == slots.len()
    &&& forall|j: int|
        0 <= j < slots.len() ==> (#[trigger] instance.fields@[j]).name == slots[j].name && produced(
            slots[j],
            i,
            instance.fields@[j].value,
        )
}

/// Whether every custom generator may be called at the index `i`.
pub open spec fn callable_at<I, F: Fn(usize) -> Value>(slots: Seq<Slot<I, F>>, i: usize) -> bool {
    forall|j: int|
        0 <= j < slots.len() ==> ((#[trigger] slots[j]).generator matches Generator::Custom(f)
            ==> call_requires(f, (i,)))
}

/// Whether `instances` is what a bulk build gives from the index `start`: the instance
/// at position `k` is one built at `start + k`.
pub open spec fn bulk_built<I: Clone, F: Fn(usize) -> Value>(
    slots: Seq<Slot<I, F>>,
    start: usize,
    instances: Seq<Instance<I>>,
) -> bool {
    &&& start + instances.len() <= usize::MAX
    &&& forall|k: int|
        0 <= k < instances.len() ==> built_at(slots, (start + k) as usize, #[trigger] instances[k])
}

/// Whether `instances` is what successive single builds give from the index `start`:
/// the first is built at `start` and advances the index by one, the rest follow from
/// there.
pub open spec fn successively_built<I: Clone, F: Fn(usize) -> Value>(
    slots: Seq<Slot<I, F>>,
    start: usize,
    instances: Seq<Instance<I>>,
) -> bool
    decreases instances.len(),
{
    if instances.len() == 0 {
        true
    } else {
        &&& start < usize::MAX
        &&& built_at(slots, start, instances[0])
        &&& successively_built(slots, (start + 1) as usize, instances.drop_first())
    }
}

/// A bulk build gives what as many single builds in a row give, and nothing else.
pub proof fn lemma_bulk_is_successive<I: Clone, F: Fn(usize) -> Value>(
    slots: Seq<Slot<I, F>>,
    start: usize,
    instances: Seq<Instance<I>>,
)
    ensures
        bulk_built(slots, start, instances) <==> successively_built(slots, start, instances),
    decreases instances.len(),
{
    if instances.len() > 0 {
        let rest = instances.drop_first();
        if start < usize::MAX {
            let next = (start + 1) as usize;
            lemma_bulk_is_successive(slots, next, rest);
            if bulk_built(slots, start, instances) {
                assert forall|k: int| 0 <= k < rest.len() implies built_at(
                    slots,
                    (next + k) as usize,
                    #[trigger] rest[k],
                ) by {}
            }
            if successively_built(slots, start, instances) {
                assert forall|k: int| 0 <= k < instances.len() implies built_at(
                    slots,
                    (start + k) as usize,
                    #[trigger] instances[k],
                ) by {
                    if k > 0 {
                        assert(built_at(slots, (next + (k - 1)) as usize, rest[k - 1]));
                    }
                }
            }
        }
    }
}

/// Builds in a row use the index they start from, then the next, and so on: build number
/// `k + 1` of a builder whose index is `start` uses `start + k`. A fresh builder starts
/// from zero, so its build number `k + 1` uses `k`; a builder whose index was set to `m`
/// goes on with `m`, `m + 1`, `m + 2`.
pub proof fn lemma_successive_indices<I: Clone, F: Fn(usize) -> Value>(
    slots: Seq<Slot<I, F>>,
    start: usize,
    instances: Seq<Instance<I>>,
    k: int,
)
    requires
        successively_built(slots, start, instances),
        0 <= k < instances.len(),
    ensures
        start + k < usize::MAX,
        built_at(slots, (start + k) as usize, instances[k]),
        successively_built(slots, (start + k) as usize, instances.skip(k)),
    decreases k,
{
    if k == 0 {
        assert(instances.skip(0) =~= instances);
    } else {
        let rest = instances.drop_first();
        lemma_successive_indices(slots, (start + 1) as usize, rest, k - 1);
        assert(rest.skip(k - 1) =~= instances.skip(k));
    }
}

/// An override reaches one field at most, and only one of the given name that is not
/// opted out: every other slot, default or overridden before, stays as it was, and no
/// slot changes its name or loses the caller's value.
pub proof fn lemma_override_scope<I, F>(slots: Seq<Slot<I, F>>, name: Seq<char>, f: F)
    ensures
        with_override(slots, name, f).len() == slots.len(),
        forall|j: int, k: int|
            overridden_at(slots, name, j) && overridden_at(slots, name, k) ==> j == k,
        forall|j: int|
            0 <= j < slots.len() && slots[j].name@ != name ==> #[trigger] with_override(
                slots,
                name,
                f,
            )[j] == slots[j],
        forall|j: int|
            0 <= j < slots.len() && slots[j].generator is Kept ==> #[trigger] with_override(
                slots,
                name,
                f,
            )[j] == slots[j],
        forall|j: int|
            0 <= j < slots.len() ==> (#[trigger] with_override(slots, name, f)[j]).name
                == slots[j].name,
        forall|j: int|
            overridden_at(slots, name, j) ==> (#[trigger] with_override(slots, name, f)[j]).generator
                == Generator::<I, F>::Custom(f),
{
    assert forall|j: int, k: int|
        overridden_at(slots, name, j) && overridden_at(slots, name, k) implies j == k by {}
}

/// A field that is not opted out, in an instance that a fresh builder makes at the
/// index `i`, holds the default of its class at `i`: the field's name followed by `i`
/// for a text, the digit of `i` or the letter `a` for a character, false for a boolean,
/// `i` converted for a number, nothing for a sequence, as many copies of `i` converted
/// as the length says for an array, the stand-in at `i` for a record.
pub proof fn lemma_fresh_build_gives_defaults<I: Clone, F: Fn(usize) -> Value>(
    b: Builder<I, F>,
    fields: Seq<FieldInfo>,
    ignored: Seq<I>,
    i: usize,
    instance: Instance<I>,
    j: int,
)
    requires
        fresh(b, fields, ignored),
        built_at(b.slots@, i, instance),
        0 <= j < fields.len(),
        !fields[j].is_ignored,
    ensures
        class_of(fields[j].field_type) is Ok,
        instance.fields@[j].name == *fields[j].identifier,
        instance.fields@[j].value matches FieldValue::Made(v) && is_default(
            class_of(fields[j].field_type)->Ok_0,
            fields[j].identifier@,
            full_text_of(field_type_of(fields[j].field_type)->Ok_0),
            i,
            v,
        ),
{
}

/// An opted-out field of every instance that a builder makes is a clone of the value
/// the caller handed to the entry point for it, whatever the index.
pub proof fn lemma_ignored_passthrough<I: Clone, F: Fn(usize) -> Value>(
    b: Builder<I, F>,
    fields: Seq<FieldInfo>,
    ignored: Seq<I>,
    slots: Seq<Slot<I, F>>,
    i: usize,
    instance: Instance<I>,
    j: int,
)
    requires
        fresh(b, fields, ignored),
        slots.len() == b.slots@.len(),
        forall|k: int| 0 <= k < slots.len() && b.slots@[k].generator is Kept ==> slots[k] == b.slots@[k],
        built_at(slots, i, instance),
        0 <= j < fields.len(),
        fields[j].is_ignored,
    ensures
        instance.fields@[j].name == *fields[j].identifier,
        instance.fields@[j].value matches FieldValue::Kept(y) && cloned(
            ignored[count_ignored(fields.take(j)) as int],
            y,
        ),
{
}

/// Whether `v` stands for `instance`: `v` is the stand-in for a record built at some
/// index, and `instance` is what a builder with the slots `slots` builds at that index.
pub open spec fn stands_for<I: Clone, F: Fn(usize) -> Value>(
    v: Value,
    slots: Seq<Slot<I, F>>,
    instance: Instance<I>,
) -> bool {
    v matches Value::Record(_, at) && built_at(slots, at, instance)
}

/// The default of a field whose type is a record of the user's, at the index `i`, names
/// that type and stands for what the type's own builder builds once its index is set
/// to `i`.
pub proof fn lemma_record_field_delegates<I: Clone, F: Fn(usize) -> Value>(
    name: Seq<char>,
    full: Seq<char>,
    i: usize,
    v: Value,
    inner: Builder<I, F>,
    seeded: Builder<I, F>,
    instance: Instance<I>,
)
    requires
        is_default(TypeClass::UserRecord, name, full, i, v),
        seeded.index == i,
        seeded.slots == inner.slots,
        built_at(seeded.slots@, seeded.index, instance),
    ensures
        v matches Value::Record(path, at) && path@ == full && at == i,
        stands_for(v, inner.slots@, instance),
{
}

impl<I: Clone, F: Fn(usize) -> Value> Builder<I, F> {
    /// Makes the builder of a record from its described fields and the caller's values
    /// for the opted-out fields, in the order of those fields.
    ///
    /// Fails when a field that is not opted out has no class, with the position and
    /// the reason of the first such field; otherwise fails when the values are not one
    /// per opted-out field.
    pub fn new<'a>(fields: &Vec<FieldInfo<'a>>, ignored: Vec<I>) -> (r: Result<Self, BuildError>)
        ensures
            r is Ok <==> admitted(fields@) && ignored@.len() == count_ignored(fields@),
            r is Err ==> r->Err_0 == (match first_refusal(fields@) {
                Some(refusal) => BuildError::Unsupported(refusal),
                None => BuildError::Arity,
            }),
            r is Ok ==> fresh(r->Ok_0, fields@, ignored@),
    {
        proof {
            lemma_no_refusal_iff_admitted(fields@);
        }
        let mut classes: Vec<TypeClass> = Vec::new();
        let mut opted_out: usize = 0;
        let mut i: usize = 0;
        while i < fields.len()
            invariant
                0 <= i <= fields.len(),
                first_refusal(fields@.take(i as int)) is None,
                opted_out == count_ignored(fields@.take(i as int)),
                opted_out <= i,
                classes@.len() == i,
                forall|j: int|
                    0 <= j < i && !fields@[j].is_ignored ==> Ok::<TypeClass, ClassifyError>(
                        #[trigger] classes@[j],
                    ) == class_of(fields@[j].field_type),
            decreases fields.len() - i,
        {
            proof {
                let next = fields@.take(i + 1);
                assert(next.drop_last() =~= fields@.take(i as int));
            }
            if fields[i].is_ignored {
                opted_out = opted_out + 1;
                // An opted-out field has no class; its entry is never read.
                classes.push(TypeClass::Bool);
            } else {
                let found = match parse_field_type(fields[i].field_type) {
                    Err(e) => Err(e),
                    Ok(ft) => classify_field_type(&ft),
                };
                match found {
                    Err(e) => {
                        proof {
                            lemma_refusal_stays(fields@, i + 1);
                        }
                        return Err(BuildError::Unsupported(Refusal { field: i, reason: e }));
                    },
                    Ok(class) => {
                        classes.push(class);
                    },
                }
            }
            i = i + 1;
        }
        assert(fields@.take(i as int) =~= fields@);
        if ignored.len() != opted_out {
            return Err(BuildError::Arity);
        }
        let ghost given = ignored@;
        let mut rest = ignored;
        let mut slots: Vec<Slot<I, F>> = Vec::new();
        let mut taken: usize = 0;
        let mut j: usize = 0;
        while j < fields.len()
            invariant
                0 <= j <= fields.len(),
                classes@.len() == fields.len(),
                forall|k: int|
                    0 <= k < fields.len() && !fields@[k].is_ignored ==> Ok::<TypeClass, ClassifyError>(
                        #[trigger] classes@[k],
                    ) == class_of(fields@[k].field_type),
                taken == count_ignored(fields@.take(j as int)),
                taken <= count_ignored(fields@),
                taken <= j,
                given.len() == count_ignored(fields@),
                rest@ == given.skip(taken as int),
                slots@.len() == j,
                forall|k: int| 0 <= k < j ==> initial_slot(#[trigger] slots@[k], fields@, k, given),
            decreases fields.len() - j,
        {
            proof {
                let next = fields@.take(j + 1);
                assert(next.drop_last() =~= fields@.take(j as int));
                lemma_count_ignored_grows(fields@, j + 1);
            }
            let name = fields[j].identifier.clone();
            if fields[j].is_ignored {
                let value = rest.remove(0);
                slots.push(Slot { name, generator: Generator::Kept(value) });
                taken = taken + 1;
            } else {
                let class = classes[j];
                let full = match parse_field_type(fields[j].field_type) {
                    Ok(FieldType::Basic(_, full)) => full.clone(),
                    Ok(FieldType::Array(_, full, _)) => full.clone(),
                    Err(_) => String::new(),
                };
                slots.push(Slot { name, generator: Generator::Default(class, full) });
            }
            j = j + 1;
        }
        Ok(Builder { index: 0, slots })
    }

    /// Puts `f` in place of the generator of the field `name`. Nothing else changes; a
    /// builder without such a field, or where it is opted out, is returned as it was.
    pub fn set(self, name: &str, f: F) -> (r: Self)
        ensures
            r.index == self.index,
            r.slots@ == with_override(self.slots@, name@, f),
    {
        let mut b = self;
        let wanted = String::from_str(name);
        let mut j: usize = 0;
        while j < b.slots.len()
            invariant
                b == self,
                wanted@ == name@,
                0 <= j <= b.slots@.len(),
                forall|k: int|
                    0 <= k < j ==> !(#[trigger] b.slots@[k].name@ == name@ && !(b.slots@[k].generator is Kept)),
            decreases b.slots@.len() - j,
        {
            let here = b.slots[j].name == wanted && match &b.slots[j].generator {
                Generator::Kept(_) => false,
                _ => true,
            };
            if here {
                let kept_name = b.slots[j].name.clone();
                b.slots.set(j, Slot { name: kept_name, generator: Generator::Custom(f) });
                return b;
            }
            j = j + 1;
        }
        b
    }

    /// Sets the index that the next build uses. The slots stay as they are.
    pub fn with_index(self, index: usize) -> (r: Self)
        ensures
            r.index == index,
            r.slots == self.slots,
    {
        let mut b = self;
        b.index = index;
        b
    }

    /// Hands out the current index and moves on to the next.
    pub fn take_index(&mut self) -> (i: usize)
        requires
            old(self).index < usize::MAX,
        ensures
            i == old(self).index,
            final(self).index == old(self).index + 1,
            final(self).slots == old(self).slots,
    {
        let i = self.index;
        self.index = i + 1;
        i
    }

    /// Builds one instance at the current index and advances the index by one. Every
    /// generator sees the same index; opted-out fields are cloned from the caller's
    /// values.
    pub fn build(&mut self) -> (r: Instance<I>)
        requires
            old(self).index < usize::MAX,
            callable_at(old(self).slots@, old(self).index),
        ensures
            built_at(old(self).slots@, old(self).index, r),
            final(self).index == old(self).index + 1,
            final(self).slots == old(self).slots,
    {
        let i = self.take_index();
        let mut fields: Vec<Field<I>> = Vec::new();
        let mut j: usize = 0;
        while j < self.slots.len()
            invariant
                self.slots == old(self).slots,
                self.index == old(self).index + 1,
                i == old(self).index,
                callable_at(self.slots@, i),
                0 <= j <= self.slots@.len(),
                fields@.len() == j,
                forall|k: int|
                    0 <= k < j ==> (#[trigger] fields@[k]).name == self.slots@[k].name && produced(
                        self.slots@[k],
                        i,
                        fields@[k].value,
                    ),
            decreases self.slots@.len() - j,
        {
            let slot = &self.slots[j];
            let value = match &slot.generator {
                Generator::Kept(x) => FieldValue::Kept(x.clone()),
                Generator::Default(class, full) => FieldValue::Made(
                    default_value(*class, slot.name.as_str(), full.as_str(), i),
                ),
                Generator::Custom(f) => FieldValue::Made(f(i)),
            };
            fields.push(Field { name: slot.name.clone(), value });
            j = j + 1;
        }
        Instance { fields }
    }

    /// Builds `count` instances in a row, as `count` single builds would.
    pub fn build_vec(&mut self, count: usize) -> (r: Vec<Instance<I>>)
        requires
            old(self).index + count <= usize::MAX,
            forall|k: int|
                0 <= k < count ==> callable_at(old(self).slots@, #[trigger] (old(self).index + k) as usize),
        ensures
            r@.len() == count,
            bulk_built(old(self).slots@, old(self).index, r@),
            successively_built(old(self).slots@, old(self).index, r@),
            final(self).index == old(self).index + count,
            final(self).slots == old(self).slots,
    {
        let mut out: Vec<Instance<I>> = Vec::new();
        let mut n: usize = 0;
        while n < count
            invariant
                self.slots == old(self).slots,
                self.index == old(self).index + n,
                old(self).index + count <= usize::MAX,
                0 <= n <= count,
                out@.len() == n,
                forall|k: int|
                    0 <= k < count ==> callable_at(
                        old(self).slots@,
                        #[trigger] (old(self).index + k) as usize,
                    ),
                forall|k: int|
                    0 <= k < n ==> built_at(
                        old(self).slots@,
                        (old(self).index + k) as usize,
                        #[trigger] out@[k],
                    ),
            decreases count - n,
        {
            let instance = self.build();
            out.push(instance);
            n = n + 1;
        }
        proof {
            lemma_bulk_is_successive(old(self).slots@, old(self).index, out@);
        }
        out
    }
}

} // verus!
