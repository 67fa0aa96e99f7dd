//! How an emitted builder behaves: its storage per field, its setters and its
//! assembly, run on abstract values.
use vstd::prelude::*;
use crate::plan::{FieldPlan, PlanView, SetterKind, has_setter};
use crate::emit::plan_views;

verus! {

/// A value held for a field: a single value, or a collection of elements.
#[derive(Debug, PartialEq, Eq)]
pub enum Value {
    Single(u64),
    List(Vec<u64>),
}

/// A value as plain data.
pub enum ValueView {
    Single(u64),
    List(Seq<u64>),
}

impl View for Value {
    type V = ValueView;

    open spec fn view(&self) -> ValueView {
        match self {
            Value::Single(x) => ValueView::Single(*x),
            Value::List(v) => ValueView::List(v@),
        }
    }
}

pub open spec fn opt_view(v: Option<Value>) -> Option<ValueView> {
    match v {
        Some(x) => Some(x@),
        None => None,
    }
}

pub open spec fn opt_views(vs: Seq<Option<Value>>) -> Seq<Option<ValueView>> {
    vs.map_values(|v: Option<Value>| opt_view(v))
}

/// A setter call on the builder: the field's index and the argument.
pub enum Call {
    Replace(int, ValueView),
    Append(int, u64),
}

/// The storage of a fresh builder: an empty collection for a field that
/// starts empty, nothing for any other.
pub open spec fn fresh(ps: Seq<PlanView>) -> Seq<Option<ValueView>> {
    ps.map_values(
        |p: PlanView|
            if p.starts_empty {
                Some(ValueView::List(Seq::empty()))
            } else {
                None
            },
    )
}

/// A field's storage after one element is appended.
pub open spec fn appended(slot: Option<ValueView>, e: u64) -> Option<ValueView> {
    match slot {
        Some(ValueView::List(vs)) => Some(ValueView::List(vs.push(e))),
        _ => Some(ValueView::List(seq![e])),
    }
}

/// The builder has a setter for the call.
pub open spec fn valid_call(ps: Seq<PlanView>, c: Call) -> bool {
    match c {
        Call::Replace(i, _) => 0 <= i < ps.len() && has_setter(ps[i], SetterKind::Replace),
        Call::Append(i, _) => 0 <= i < ps.len() && has_setter(ps[i], SetterKind::AppendOne),
    }
}

/// The storage after one setter call.
pub open spec fn step(slots: Seq<Option<ValueView>>, c: Call) -> Seq<Option<ValueView>> {
    match c {
        Call::Replace(i, v) => slots.update(i, Some(v)),
        Call::Append(i, e) => slots.update(i, appended(slots[i], e)),
    }
}

/// The storage after the calls, in order.
pub open spec fn run(slots: Seq<Option<ValueView>>, calls: Seq<Call>) -> Seq<Option<ValueView>>
    decreases calls.len(),
{
    if calls.len() == 0 {
        slots
    } else {
        step(run(slots, calls.drop_last()), calls.last())
    }
}

/// A required field whose storage holds nothing.
pub open spec fn missing(p: PlanView, slot: Option<ValueView>) -> bool {
    !p.optional && slot is None
}

/// The first of the first `n` fields that is missing.
pub open spec fn first_missing(ps: Seq<PlanView>, slots: Seq<Option<ValueView>>, n: nat) -> Option<int>
    decreases n,
{
    if n == 0 {
        None
    } else {
        match first_missing(ps, slots, (n - 1) as nat) {
            Some(i) => Some(i),
            None => if missing(ps[n - 1], slots[n - 1]) {
                Some(n - 1)
            } else {
                None
            },
        }
    }
}

/// The message of the assembly error for the field named `name`.
pub open spec fn not_set_message(name: Seq<char>) -> Seq<char> {
    name + " was not set"@
}

/// The outcome of assembly: the stored values, or the error of the first
/// missing field.
pub open spec fn assembled(ps: Seq<PlanView>, slots: Seq<Option<ValueView>>) -> Result<
    Seq<Option<ValueView>>,
    Seq<char>,
> {
    match first_missing(ps, slots, ps.len()) {
        Some(i) => Err(not_set_message(ps[i].name)),
        None => Ok(slots),
    }
}

pub proof fn lemma_first_missing(ps: Seq<PlanView>, slots: Seq<Option<ValueView>>, n: nat)
    requires
        n <= ps.len(),
        n <= slots.len(),
    ensures
        match first_missing(ps, slots, n) {
            Some(i) => 0 <= i < n && missing(ps[i], slots[i]) && forall|j: int|
                0 <= j < i ==> !missing(ps[j], #[trigger] slots[j]),
            None => forall|j: int| 0 <= j < n ==> !missing(ps[j], #[trigger] slots[j]),
        },
    decreases n,
{
    if n > 0 {
        lemma_first_missing(ps, slots, (n - 1) as nat);
    }
}

/// A builder in the making, for target fields planned as `plans`.
pub struct Builder {
    plans: Vec<FieldPlan>,
    slots: Vec<Option<Value>>,
}

impl Builder {
    /// The plans of the fields, in declaration order.
    pub closed spec fn plans(&self) -> Seq<PlanView> {
        plan_views(self.plans@)
    }

    /// The storage of each field.
    pub closed spec fn slots(&self) -> Seq<Option<ValueView>> {
        opt_views(self.slots@)
    }

    pub closed spec fn wf(&self) -> bool {
        self.plans@.len() == self.slots@.len()
    }

    /// A fresh builder for fields planned as `plans`.
    pub fn new(plans: Vec<FieldPlan>) -> (r: Builder)
        ensures
            r.wf(),
            r.plans() == plan_views(plans@),
            r.slots() == fresh(plan_views(plans@)),
    {
        let mut slots: Vec<Option<Value>> = Vec::new();
        let mut k: usize = 0;
        while k < plans.len()
            invariant
                k <= plans@.len(),
                slots@.len() == k,
                forall|j: int| 0 <= j < k ==> opt_view(#[trigger] slots@[j]) == fresh(plan_views(plans@))[j],
            decreases plans@.len() - k,
        {
            if plans[k].starts_empty {
                slots.push(Some(Value::List(Vec::new())));
            } else {
                slots.push(None);
            }
            k = k + 1;
        }
        let r = Builder { plans, slots };
        assert(r.slots() =~= fresh(plan_views(r.plans@)));
        r
    }

    /// Calls the replace setter of field `i`, if the builder has one; tells
    /// whether it has.
    pub fn replace(&mut self, i: usize, v: Value) -> (ok: bool)
        requires
            old(self).wf(),
        ensures
            final(self).wf(),
            final(self).plans() == old(self).plans(),
            ok == valid_call(old(self).plans(), Call::Replace(i as int, v@)),
            final(self).slots() == if ok {
                step(old(self).slots(), Call::Replace(i as int, v@))
            } else {
                old(self).slots()
            },
    {
        if i >= self.plans.len() || !has_kind(&self.plans[i], SetterKind::Replace) {
            return false;
        }
        let ghost v_view = v@;
        self.slots.set(i, Some(v));
        assert(self.slots() =~= step(old(self).slots(), Call::Replace(i as int, v_view)));
        true
    }

    /// Calls the append-one setter of field `i`, if the builder has one;
    /// tells whether it has.
    pub fn append(&mut self, i: usize, e: u64) -> (ok: bool)
        requires
            old(self).wf(),
        ensures
            final(self).wf(),
            final(self).plans() == old(self).plans(),
            ok == valid_call(old(self).plans(), Call::Append(i as int, e)),
            final(self).slots() == if ok {
                step(old(self).slots(), Call::Append(i as int, e))
            } else {
                old(self).slots()
            },
    {
        if i >= self.plans.len() || !has_kind(&self.plans[i], SetterKind::AppendOne) {
            return false;
        }
        let ghost before = self.slots()[i as int];
        let slot = match &self.slots[i] {
            Some(Value::List(vs)) => {
                let mut w = copy_items(vs);
                w.push(e);
                Some(Value::List(w))
            },
            _ => {
                let mut w: Vec<u64> = Vec::new();
                w.push(e);
                assert(w@ =~= seq![e]);
                Some(Value::List(w))
            },
        };
        assert(opt_view(slot) == appended(before, e));
        self.slots.set(i, slot);
        assert(self.slots() =~= step(old(self).slots(), Call::Append(i as int, e)));
        true
    }

    /// Assembles the target's field values from the current storage, without
    /// changing it.
    pub fn build(&self) -> (r: Result<Vec<Option<Value>>, String>)
        requires
            self.wf(),
        ensures
            match r {
                Ok(vs) => assembled(self.plans(), self.slots()) == Ok::<Seq<Option<ValueView>>, Seq<char>>(opt_views(vs@)),
                Err(m) => assembled(self.plans(), self.slots()) == Err::<Seq<Option<ValueView>>, Seq<char>>(m@),
            },
    {
        proof {
            lemma_first_missing(self.plans(), self.slots(), self.plans().len());
        }
        let mut out: Vec<Option<Value>> = Vec::new();
        let mut k: usize = 0;
        while k < self.slots.len()
            invariant
                self.wf(),
                k <= self.slots@.len(),
                out@.len() == k,
                forall|j: int| 0 <= j < k ==> opt_view(#[trigger] out@[j]) == self.slots()[j],
                forall|j: int| 0 <= j < k ==> !missing(self.plans()[j], #[trigger] self.slots()[j]),
                match first_missing(self.plans(), self.slots(), self.plans().len()) {
                    Some(i) => k <= i,
                    None => true,
                },
            decreases self.slots@.len() - k,
        {
            proof {
                lemma_first_missing(self.plans(), self.slots(), self.plans().len());
            }
            let p = &self.plans[k];
            match &self.slots[k] {
                Some(v) => out.push(Some(v.copy())),
                None => {
                    if !p.optional {
                        let mut m = p.name.clone();
                        m.append(" was not set");
                        assert(missing(self.plans()[k as int], self.slots()[k as int]));
                        assert(first_missing(self.plans(), self.slots(), self.plans().len()) == Some(k as int));
                        assert(m@ == not_set_message(self.plans()[k as int].name));
                        return Err(m);
                    }
                    out.push(None);
                },
            }
            k = k + 1;
        }
        assert(opt_views(out@) =~= self.slots());
        Ok(out)
    }
}

impl Value {
    /// A copy of this value.
    pub fn copy(&self) -> (r: Value)
        ensures
            r@ == self@,
    {
        match self {
            Value::Single(x) => Value::Single(*x),
            Value::List(vs) => Value::List(copy_items(vs)),
        }
    }
}

/// A copy of the elements.
fn copy_items(vs: &Vec<u64>) -> (r: Vec<u64>)
    ensures
        r@ == vs@,
{
    let mut w: Vec<u64> = Vec::new();
    let mut k: usize = 0;
    while k < vs.len()
        invariant
            k <= vs@.len(),
            w@ == vs@.subrange(0, k as int),
        decreases vs@.len() - k,
    {
        w.push(vs[k]);
        k = k + 1;
    }
    assert(w@ =~= vs@);
    w
}

/// The plan holds a setter of the given kind.
fn has_kind(p: &FieldPlan, kind: SetterKind) -> (r: bool)
    ensures
        r == has_setter(p@, kind),
{
    let mut k: usize = 0;
    while k < p.setters.len()
        invariant
            k <= p.setters@.len(),
            forall|j: int| 0 <= j < k ==> (#[trigger] p@.setters[j]).2 != kind,
        decreases p.setters@.len() - k,
    {
        if p.setters[k].kind == kind {
            assert(p@.setters[k as int].2 == kind);
            return true;
        }
        k = k + 1;
    }
    false
}

} // verus!
