//! Source text of the builder: factory method, storage declaration, setters
//! and assembly.
use vstd::prelude::*;
use crate::plan::{BuilderField, BuilderInput, FieldPlan, GenerationError, PlanView, SetterKind, SetterSpec, plan_field, plan_of, field_ok};

verus! {

/// `parts` separated by `sep`.
pub open spec fn joined(parts: Seq<Seq<char>>, sep: Seq<char>) -> Seq<char>
    decreases parts.len(),
{
    if parts.len() == 0 {
        Seq::empty()
    } else if parts.len() == 1 {
        parts[0]
    } else {
        joined(parts.drop_last(), sep) + sep + parts.last()
    }
}

/// The factory's initializer of one field.
pub open spec fn init_text(p: PlanView) -> Seq<char> {
    p.name + if p.starts_empty {
        ": std::option::Option::Some(vec!())"@
    } else {
        ": std::option::Option::None"@
    }
}

/// The storage declaration of one field.
pub open spec fn storage_decl_text(p: PlanView) -> Seq<char> {
    p.name + ": "@ + p.storage
}

/// The assembly of one field: a copy of an optional field's storage, the
/// present value of any other field or an error naming it.
pub open spec fn assign_text(p: PlanView) -> Seq<char> {
    if p.optional {
        p.name + ": self."@ + p.name + ".clone()"@
    } else {
        p.name + ": self."@ + p.name + ".clone().ok_or(\""@ + p.name + " was not set\")?"@
    }
}

/// One setter method of the field named `field`.
pub open spec fn setter_text(field: Seq<char>, s: (Seq<char>, Seq<char>, SetterKind)) -> Seq<char> {
    let head = "pub fn "@ + s.0 + "(&mut self, "@ + s.0 + ": "@ + s.1 + ") -> &mut Self { "@;
    match s.2 {
        SetterKind::Replace => head + "self."@ + field + " = std::option::Option::Some("@ + s.0
            + "); self }"@,
        SetterKind::AppendOne => head + "if let std::option::Option::Some(ref mut vs) = self."@
            + field + " { vs.push("@ + s.0 + "); } else { self."@ + field
            + " = std::option::Option::Some(vec!["@ + s.0 + "]); } self }"@,
    }
}

/// All setter methods of one field, one per line.
pub open spec fn setters_text(p: PlanView) -> Seq<char> {
    joined(p.setters.map_values(|s: (Seq<char>, Seq<char>, SetterKind)| setter_text(p.name, s)), "\n"@)
}

/// Joins `parts` with `sep` between each two.
pub fn join_parts(parts: &Vec<String>, sep: &str) -> (r: String)
    ensures
        r@ == joined(parts@.map_values(|s: String| s@), sep@),
{
    let ghost views = parts@.map_values(|s: String| s@);
    let mut r = String::new();
    let mut i: usize = 0;
    while i < parts.len()
        invariant
            i <= parts@.len(),
            views == parts@.map_values(|s: String| s@),
            r@ == joined(views.subrange(0, i as int), sep@),
        decreases parts@.len() - i,
    {
        if i > 0 {
            r.append(sep);
        }
        r.append(parts[i].as_str());
        assert(views.subrange(0, i + 1).drop_last() =~= views.subrange(0, i as int));
        i = i + 1;
    }
    assert(views.subrange(0, parts@.len() as int) =~= views);
    r
}

/// The factory's initializer of the planned field.
pub fn init_field(p: &FieldPlan) -> (r: String)
    ensures
        r@ == init_text(p@),
{
    let mut r = p.name.clone();
    if p.starts_empty {
        r.append(": std::option::Option::Some(vec!())");
    } else {
        r.append(": std::option::Option::None");
    }
    r
}

/// The storage declaration of the planned field.
pub fn optionize_field(p: &FieldPlan) -> (r: String)
    ensures
        r@ == storage_decl_text(p@),
{
    let mut r = p.name.clone();
    r.append(": ");
    r.append(p.storage_type.as_str());
    r
}

/// The assembly of the planned field.
pub fn assign_field(p: &FieldPlan) -> (r: String)
    ensures
        r@ == assign_text(p@),
{
    let mut r = p.name.clone();
    r.append(": self.");
    r.append(p.name.as_str());
    if p.optional {
        r.append(".clone()");
    } else {
        r.append(".clone().ok_or(\"");
        r.append(p.name.as_str());
        r.append(" was not set\")?");
    }
    r
}

/// One setter method of the field named `field`.
pub fn setter_method(field: &String, s: &SetterSpec) -> (r: String)
    ensures
        r@ == setter_text(field@, crate::plan::setter_view(*s)),
{
    let mut r = String::from_str("pub fn ");
    r.append(s.method.as_str());
    r.append("(&mut self, ");
    r.append(s.method.as_str());
    r.append(": ");
    r.append(s.param_type.as_str());
    r.append(") -> &mut Self { ");
    match s.kind {
        SetterKind::Replace => {
            r.append("self.");
            r.append(field.as_str());
            r.append(" = std::option::Option::Some(");
            r.append(s.method.as_str());
            r.append("); self }");
        },
        SetterKind::AppendOne => {
            r.append("if let std::option::Option::Some(ref mut vs) = self.");
            r.append(field.as_str());
            r.append(" { vs.push(");
            r.append(s.method.as_str());
            r.append("); } else { self.");
            r.append(field.as_str());
            r.append(" = std::option::Option::Some(vec![");
            r.append(s.method.as_str());
            r.append("]); } self }");
        },
    }
    r
}

/// All setter methods of the planned field.
pub fn gen_setter(p: &FieldPlan) -> (r: String)
    ensures
        r@ == setters_text(p@),
{
    let mut parts: Vec<String> = Vec::new();
    let mut k: usize = 0;
    while k < p.setters.len()
        invariant
            k <= p.setters@.len(),
            parts@.len() == k,
            forall|j: int| 0 <= j < k ==> (#[trigger] parts@[j])@ == setter_text(p.name@, p@.setters[j]),
        decreases p.setters@.len() - k,
    {
        let m = setter_method(&p.name, &p.setters[k]);
        parts.push(m);
        k = k + 1;
    }
    let r = join_parts(&parts, "\n");
    assert(parts@.map_values(|s: String| s@) =~= p@.setters.map_values(
        |s: (Seq<char>, Seq<char>, SetterKind)| setter_text(p.name@, s),
    ));
    r
}

/// The factory method attached to the target type.
pub open spec fn factory_text(ident: Seq<char>, ps: Seq<PlanView>) -> Seq<char> {
    "impl "@ + ident + " { pub fn builder() -> "@ + ident + "Builder { "@ + ident + "Builder { "@
        + joined(ps.map_values(|p: PlanView| init_text(p)), ", "@) + " } } }"@
}

/// The builder type's declaration.
pub open spec fn struct_text(ident: Seq<char>, ps: Seq<PlanView>) -> Seq<char> {
    "pub struct "@ + ident + "Builder { "@ + joined(
        ps.map_values(|p: PlanView| storage_decl_text(p)),
        ", "@,
    ) + " }"@
}

/// The builder's method block: assembly, then every field's setters.
pub open spec fn methods_text(ident: Seq<char>, ps: Seq<PlanView>) -> Seq<char> {
    "impl "@ + ident + "Builder {\npub fn build(&mut self) -> std::result::Result<"@ + ident
        + ", std::boxed::Box<dyn std::error::Error>> { std::result::Result::Ok("@ + ident + " { "@
        + joined(ps.map_values(|p: PlanView| assign_text(p)), ", "@) + " }) }\n"@ + joined(
        ps.map_values(|p: PlanView| setters_text(p)),
        "\n"@,
    ) + "\n}"@
}

/// The whole derivation for a target type whose fields plan as `ps`.
pub open spec fn unit_text(ident: Seq<char>, ps: Seq<PlanView>) -> Seq<char> {
    factory_text(ident, ps) + "\n"@ + struct_text(ident, ps) + "\n"@ + methods_text(ident, ps)
}

pub open spec fn plan_views(plans: Seq<FieldPlan>) -> Seq<PlanView> {
    plans.map_values(|p: FieldPlan| p@)
}

/// The factory method of the target type `ident`.
pub fn impl_builder_method(ident: &String, plans: &Vec<FieldPlan>) -> (r: String)
    ensures
        r@ == factory_text(ident@, plan_views(plans@)),
{
    let mut parts: Vec<String> = Vec::new();
    let mut k: usize = 0;
    while k < plans.len()
        invariant
            k <= plans@.len(),
            parts@.len() == k,
            forall|j: int| 0 <= j < k ==> (#[trigger] parts@[j])@ == init_text(plans@[j]@),
        decreases plans@.len() - k,
    {
        parts.push(init_field(&plans[k]));
        k = k + 1;
    }
    assert(parts@.map_values(|s: String| s@) =~= plan_views(plans@).map_values(
        |p: PlanView| init_text(p),
    ));
    let mut r = String::from_str("impl ");
    r.append(ident.as_str());
    r.append(" { pub fn builder() -> ");
    r.append(ident.as_str());
    r.append("Builder { ");
    r.append(ident.as_str());
    r.append("Builder { ");
    r.append(join_parts(&parts, ", ").as_str());
    r.append(" } } }");
    r
}

/// The declaration of the builder type of `ident`.
pub fn define_builder_struct(ident: &String, plans: &Vec<FieldPlan>) -> (r: String)
    ensures
        r@ == struct_text(ident@, plan_views(plans@)),
{
    let mut parts: Vec<String> = Vec::new();
    let mut k: usize = 0;
    while k < plans.len()
        invariant
            k <= plans@.len(),
            parts@.len() == k,
            forall|j: int| 0 <= j < k ==> (#[trigger] parts@[j])@ == storage_decl_text(plans@[j]@),
        decreases plans@.len() - k,
    {
        parts.push(optionize_field(&plans[k]));
        k = k + 1;
    }
    assert(parts@.map_values(|s: String| s@) =~= plan_views(plans@).map_values(
        |p: PlanView| storage_decl_text(p),
    ));
    let mut r = String::from_str("pub struct ");
    r.append(ident.as_str());
    r.append("Builder { ");
    r.append(join_parts(&parts, ", ").as_str());
    r.append(" }");
    r
}

/// The method block of the builder type of `ident`.
pub fn impl_builder_struct(ident: &String, plans: &Vec<FieldPlan>) -> (r: String)
    ensures
        r@ == methods_text(ident@, plan_views(plans@)),
{
    let mut assigns: Vec<String> = Vec::new();
    let mut setters: Vec<String> = Vec::new();
    let mut k: usize = 0;
    while k < plans.len()
        invariant
            k <= plans@.len(),
            assigns@.len() == k,
            setters@.len() == k,
            forall|j: int| 0 <= j < k ==> (#[trigger] assigns@[j])@ == assign_text(plans@[j]@),
            forall|j: int| 0 <= j < k ==> (#[trigger] setters@[j])@ == setters_text(plans@[j]@),
        decreases plans@.len() - k,
    {
        assigns.push(assign_field(&plans[k]));
        setters.push(gen_setter(&plans[k]));
        k = k + 1;
    }
    assert(assigns@.map_values(|s: String| s@) =~= plan_views(plans@).map_values(
        |p: PlanView| assign_text(p),
    ));
    assert(setters@.map_values(|s: String| s@) =~= plan_views(plans@).map_values(
        |p: PlanView| setters_text(p),
    ));
    let mut r = String::from_str("impl ");
    r.append(ident.as_str());
    r.append("Builder {\npub fn build(&mut self) -> std::result::Result<");
    r.append(ident.as_str());
    r.append(", std::boxed::Box<dyn std::error::Error>> { std::result::Result::Ok(");
    r.append(ident.as_str());
    r.append(" { ");
    r.append(join_parts(&assigns, ", ").as_str());
    r.append(" }) }\n");
    r.append(join_parts(&setters, "\n").as_str());
    r.append("\n}");
    r
}

/// Plans every field in declaration order, stopping at the first that
/// cannot be planned.
pub fn plan_fields(input: &BuilderInput) -> (r: Result<Vec<FieldPlan>, GenerationError>)
    ensures
        match r {
            Ok(plans) => {
                &&& forall|i: int| 0 <= i < input.fields@.len() ==> field_ok(#[trigger] input.fields@[i])
                &&& plan_views(plans@) == input.fields@.map_values(|f: BuilderField| plan_of(f))
            },
            Err(e) => exists|i: int|
                0 <= i < input.fields@.len() && !field_ok(#[trigger] input.fields@[i])
                    && e == (GenerationError::NotACollection { field: input.fields@[i].name })
                    && forall|j: int| 0 <= j < i ==> field_ok(#[trigger] input.fields@[j]),
        },
{
    let mut plans: Vec<FieldPlan> = Vec::new();
    let mut k: usize = 0;
    while k < input.fields.len()
        invariant
            k <= input.fields@.len(),
            plans@.len() == k,
            forall|j: int| 0 <= j < k ==> field_ok(#[trigger] input.fields@[j]),
            forall|j: int| 0 <= j < k ==> (#[trigger] plans@[j])@ == plan_of(input.fields@[j]),
        decreases input.fields@.len() - k,
    {
        match plan_field(&input.fields[k]) {
            Ok(p) => plans.push(p),
            Err(e) => {
                return Err(e);
            },
        }
        k = k + 1;
    }
    assert(plan_views(plans@) =~= input.fields@.map_values(|f: BuilderField| plan_of(f)));
    Ok(plans)
}

/// Derives the builder of the target type: its factory method, its
/// declaration and its methods, or the first field that cannot be planned.
pub fn derive(input: &BuilderInput) -> (r: Result<String, GenerationError>)
    ensures
        match r {
            Ok(s) => {
                &&& forall|i: int| 0 <= i < input.fields@.len() ==> field_ok(#[trigger] input.fields@[i])
                &&& s@ == unit_text(input.ident@, input.fields@.map_values(|f: BuilderField| plan_of(f)))
            },
            Err(e) => exists|i: int|
                0 <= i < input.fields@.len() && !field_ok(#[trigger] input.fields@[i])
                    && e == (GenerationError::NotACollection { field: input.fields@[i].name })
                    && forall|j: int| 0 <= j < i ==> field_ok(#[trigger] input.fields@[j]),
        },
{
    let plans = match plan_fields(input) {
        Ok(plans) => plans,
        Err(e) => {
            return Err(e);
        },
    };
    let mut r = impl_builder_method(&input.ident, &plans);
    r.append("\n");
    r.append(define_builder_struct(&input.ident, &plans).as_str());
    r.append("\n");
    r.append(impl_builder_struct(&input.ident, &plans).as_str());
    Ok(r)
}

} // verus!
