//! What holds of every derived builder.
use vstd::prelude::*;
use crate::types::{TypeExpr, wrapped_inner};
use crate::plan::{BuilderField, PlanView, SetterKind, field_ok, has_setter, is_optional, plan_of};
use crate::model::{
    Call, ValueView, assembled, fresh, lemma_first_missing, missing, not_set_message, run,
    valid_call,
};

verus! {

/// The plans of well-formed fields.
pub open spec fn plans_of(fields: Seq<BuilderField>) -> Seq<PlanView> {
    fields.map_values(|f: BuilderField| plan_of(f))
}

pub open spec fn all_ok(fields: Seq<BuilderField>) -> bool {
    forall|k: int| 0 <= k < fields.len() ==> field_ok(#[trigger] fields[k])
}

pub open spec fn all_valid(ps: Seq<PlanView>, calls: Seq<Call>) -> bool {
    forall|k: int| 0 <= k < calls.len() ==> valid_call(ps, #[trigger] calls[k])
}

/// The call goes to field `i`.
pub open spec fn touches(c: Call, i: int) -> bool {
    match c {
        Call::Replace(j, _) => j == i,
        Call::Append(j, _) => j == i,
    }
}

/// The value of the last replace call on field `i`, if any.
pub open spec fn last_set(calls: Seq<Call>, i: int) -> Option<ValueView>
    decreases calls.len(),
{
    if calls.len() == 0 {
        None
    } else {
        match calls.last() {
            Call::Replace(j, v) if j == i => Some(v),
            _ => last_set(calls.drop_last(), i),
        }
    }
}

proof fn lemma_wrappers_differ(t: TypeExpr)
    ensures
        !(wrapped_inner(t, "Option"@) is Some && wrapped_inner(t, "Vec"@) is Some),
{
    reveal_strlit("Option");
    reveal_strlit("Vec");
    assert("Option"@.len() != "Vec"@.len());
}

proof fn lemma_run_len(ps: Seq<PlanView>, slots: Seq<Option<ValueView>>, calls: Seq<Call>)
    requires
        all_valid(ps, calls),
        slots.len() == ps.len(),
    ensures
        run(slots, calls).len() == ps.len(),
    decreases calls.len(),
{
    if calls.len() > 0 {
        assert(valid_call(ps, calls[calls.len() - 1]));
        lemma_run_len(ps, slots, calls.drop_last());
    }
}

proof fn lemma_run_untouched(ps: Seq<PlanView>, slots: Seq<Option<ValueView>>, calls: Seq<Call>, i: int)
    requires
        all_valid(ps, calls),
        slots.len() == ps.len(),
        0 <= i < ps.len(),
        forall|k: int| 0 <= k < calls.len() ==> !touches(#[trigger] calls[k], i),
    ensures
        run(slots, calls)[i] == slots[i],
    decreases calls.len(),
{
    if calls.len() > 0 {
        assert(!touches(calls[calls.len() - 1], i));
        lemma_run_untouched(ps, slots, calls.drop_last(), i);
        lemma_run_len(ps, slots, calls.drop_last());
    }
}

proof fn lemma_run_replaces(ps: Seq<PlanView>, slots: Seq<Option<ValueView>>, calls: Seq<Call>, i: int)
    requires
        all_valid(ps, calls),
        forall|k: int| 0 <= k < calls.len() ==> (#[trigger] calls[k]) is Replace,
        slots.len() == ps.len(),
        0 <= i < ps.len(),
    ensures
        run(slots, calls)[i] == match last_set(calls, i) {
            Some(v) => Some(v),
            None => slots[i],
        },
    decreases calls.len(),
{
    if calls.len() > 0 {
        assert(valid_call(ps, calls[calls.len() - 1]));
        assert(calls[calls.len() - 1] is Replace);
        lemma_run_replaces(ps, slots, calls.drop_last(), i);
        lemma_run_len(ps, slots, calls.drop_last());
    }
}

/// A required field that no setter call reaches and that does not start as
/// an empty collection makes assembly fail; once every field before it is
/// present, the error is the one that names it.
pub proof fn lemma_unset_required_field_fails(fields: Seq<BuilderField>, calls: Seq<Call>, i: int)
    requires
        all_ok(fields),
        all_valid(plans_of(fields), calls),
        0 <= i < fields.len(),
        !is_optional(fields[i]),
        wrapped_inner(fields[i].ty, "Vec"@) is None,
        forall|k: int| 0 <= k < calls.len() ==> !touches(#[trigger] calls[k], i),
    ensures
        assembled(plans_of(fields), run(fresh(plans_of(fields)), calls)) is Err,
        (forall|j: int| 0 <= j < i ==> !missing(plans_of(fields)[j], #[trigger] run(fresh(plans_of(fields)), calls)[j]))
            ==> assembled(plans_of(fields), run(fresh(plans_of(fields)), calls))
                == Err::<Seq<Option<ValueView>>, Seq<char>>(not_set_message(fields[i].name@)),
{
    let ps = plans_of(fields);
    let s = run(fresh(ps), calls);
    lemma_run_untouched(ps, fresh(ps), calls, i);
    lemma_run_len(ps, fresh(ps), calls);
    assert(missing(ps[i], s[i]));
    lemma_first_missing(ps, s, ps.len());
}

/// An optional field that no setter call reaches assembles to nothing, and
/// assembly succeeds when every other field is present.
pub proof fn lemma_unset_optional_field_absent(fields: Seq<BuilderField>, calls: Seq<Call>, i: int)
    requires
        all_ok(fields),
        all_valid(plans_of(fields), calls),
        0 <= i < fields.len(),
        is_optional(fields[i]),
        forall|k: int| 0 <= k < calls.len() ==> !touches(#[trigger] calls[k], i),
        forall|j: int| 0 <= j < fields.len() && j != i ==> !missing(plans_of(fields)[j], #[trigger] run(fresh(plans_of(fields)), calls)[j]),
    ensures
        assembled(plans_of(fields), run(fresh(plans_of(fields)), calls))
            == Ok::<Seq<Option<ValueView>>, Seq<char>>(run(fresh(plans_of(fields)), calls)),
        run(fresh(plans_of(fields)), calls)[i] is None,
{
    let ps = plans_of(fields);
    let s = run(fresh(ps), calls);
    lemma_wrappers_differ(fields[i].ty);
    lemma_run_untouched(ps, fresh(ps), calls, i);
    lemma_run_len(ps, fresh(ps), calls);
    lemma_first_missing(ps, s, ps.len());
    assert(!missing(ps[i], s[i]));
}

/// A collection field whose append-one setter bears the field's own name has
/// that setter alone; calling it on each element in turn, from the fresh
/// empty collection, leaves exactly those elements in call order, and so
/// they are assembled.
pub proof fn lemma_append_only_accumulates(
    fields: Seq<BuilderField>,
    slots: Seq<Option<ValueView>>,
    es: Seq<u64>,
    i: int,
)
    requires
        all_ok(fields),
        0 <= i < fields.len(),
        fields[i].each == Some(fields[i].name),
        wrapped_inner(fields[i].ty, "Vec"@) is Some,
        slots.len() == fields.len(),
        slots[i] == fresh(plans_of(fields))[i],
    ensures
        plans_of(fields)[i].setters.len() == 1,
        plans_of(fields)[i].setters[0].0 == fields[i].name@,
        plans_of(fields)[i].setters[0].2 == SetterKind::AppendOne,
        !has_setter(plans_of(fields)[i], SetterKind::Replace),
        all_valid(plans_of(fields), es.map_values(|e: u64| Call::Append(i, e))),
        run(slots, es.map_values(|e: u64| Call::Append(i, e)))[i] == Some(ValueView::List(es)),
        match assembled(plans_of(fields), run(slots, es.map_values(|e: u64| Call::Append(i, e)))) {
            Ok(vs) => vs[i] == Some(ValueView::List(es)),
            Err(_) => true,
        },
    decreases es.len(),
{
    let ps = plans_of(fields);
    let calls = es.map_values(|e: u64| Call::Append(i, e));
    lemma_wrappers_differ(fields[i].ty);
    assert(ps[i].setters[0].2 == SetterKind::AppendOne);
    assert forall|k: int| 0 <= k < calls.len() implies valid_call(ps, #[trigger] calls[k]) by {
        assert(ps[i].setters[0].2 == SetterKind::AppendOne);
    }
    if es.len() > 0 {
        lemma_append_only_accumulates(fields, slots, es.drop_last(), i);
        assert(calls.drop_last() =~= es.drop_last().map_values(|e: u64| Call::Append(i, e)));
        lemma_run_len_free(slots, calls.drop_last(), i);
        assert(calls.last() == Call::Append(i, es.last()));
        assert(es.drop_last().push(es.last()) =~= es);
    } else {
        assert(es =~= Seq::<u64>::empty());
        assert(calls.len() == 0);
    }
}

/// A collection field whose append-one setter has a name of its own also has
/// the replace setter, and a replace call discards whatever was appended
/// before it.
pub proof fn lemma_replace_discards_appended(
    fields: Seq<BuilderField>,
    slots: Seq<Option<ValueView>>,
    es: Seq<u64>,
    v: ValueView,
    i: int,
)
    requires
        all_ok(fields),
        0 <= i < fields.len(),
        fields[i].each is Some,
        fields[i].each->Some_0@ != fields[i].name@,
        slots.len() == fields.len(),
    ensures
        has_setter(plans_of(fields)[i], SetterKind::AppendOne),
        has_setter(plans_of(fields)[i], SetterKind::Replace),
        run(slots, es.map_values(|e: u64| Call::Append(i, e)).push(Call::Replace(i, v)))[i] == Some(v),
{
    let ps = plans_of(fields);
    let calls = es.map_values(|e: u64| Call::Append(i, e)).push(Call::Replace(i, v));
    assert(ps[i].setters[0].2 == SetterKind::AppendOne);
    assert(ps[i].setters[1].2 == SetterKind::Replace);
    assert(calls.drop_last() =~= es.map_values(|e: u64| Call::Append(i, e)));
    assert(calls.last() == Call::Replace(i, v));
    assert(es.map_values(|e: u64| Call::Append(i, e)).len() == es.len());
    lemma_run_len_free(slots, calls.drop_last(), i);
}

proof fn lemma_run_len_free(slots: Seq<Option<ValueView>>, calls: Seq<Call>, i: int)
    requires
        0 <= i < slots.len(),
        forall|k: int| 0 <= k < calls.len() ==> (#[trigger] calls[k]) == Call::Append(i, calls[k]->Append_1),
    ensures
        run(slots, calls).len() == slots.len(),
    decreases calls.len(),
{
    if calls.len() > 0 {
        assert(calls[calls.len() - 1] == Call::Append(i, calls[calls.len() - 1]->Append_1));
        lemma_run_len_free(slots, calls.drop_last(), i);
    }
}

/// When setter calls give every required field that does not start as an
/// empty collection a value, assembly succeeds and each field holds the
/// value of its last replace call, or its fresh value where it had none.
pub proof fn lemma_last_write_wins(fields: Seq<BuilderField>, calls: Seq<Call>)
    requires
        all_ok(fields),
        all_valid(plans_of(fields), calls),
        forall|k: int| 0 <= k < calls.len() ==> (#[trigger] calls[k]) is Replace,
        forall|i: int|
            0 <= i < fields.len() && !is_optional(#[trigger] fields[i]) && wrapped_inner(fields[i].ty, "Vec"@) is None
                ==> last_set(calls, i) is Some,
    ensures
        assembled(plans_of(fields), run(fresh(plans_of(fields)), calls))
            == Ok::<Seq<Option<ValueView>>, Seq<char>>(run(fresh(plans_of(fields)), calls)),
        forall|i: int| 0 <= i < fields.len() ==> (#[trigger] run(fresh(plans_of(fields)), calls)[i]) == match last_set(calls, i) {
            Some(v) => Some(v),
            None => fresh(plans_of(fields))[i],
        },
{
    let ps = plans_of(fields);
    let s = run(fresh(ps), calls);
    lemma_run_len(ps, fresh(ps), calls);
    assert forall|i: int| 0 <= i < fields.len() implies (#[trigger] s[i]) == match last_set(calls, i) {
        Some(v) => Some(v),
        None => fresh(ps)[i],
    } && !missing(ps[i], s[i]) by {
        lemma_run_replaces(ps, fresh(ps), calls, i);
    }
    lemma_first_missing(ps, s, ps.len());
}

/// An append-one setter asked for on a field whose setter type is not a
/// collection makes the field, and so the whole derivation, fail.
pub proof fn lemma_accumulator_needs_collection(f: BuilderField)
    requires
        f.each is Some,
        f.ty is Plain,
    ensures
        !field_ok(f),
{
}

} // verus!
