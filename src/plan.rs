//! Per-field planning: storage, initial value, setters and assembly.
use vstd::prelude::*;
use crate::types::{TypeExpr, text_of, wrapped_inner, inner_type_of};

verus! {

/// One named field of the target struct, as handed to the derivation.
pub struct BuilderField {
    pub name: String,
    pub ty: TypeExpr,
    /// The name of the append-one setter, when the field carries one.
    pub each: Option<String>,
}

/// The target struct: its name and its named fields in declaration order.
pub struct BuilderInput {
    pub ident: String,
    pub fields: Vec<BuilderField>,
}

/// What a setter does to its field's storage.
#[derive(PartialEq, Eq, Structural, Clone, Copy, Debug)]
pub enum SetterKind {
    /// Overwrites the storage with the given value.
    Replace,
    /// Pushes one element onto the stored collection.
    AppendOne,
}

/// One setter method of the builder.
#[derive(Debug)]
pub struct SetterSpec {
    pub method: String,
    pub param_type: String,
    pub kind: SetterKind,
}

/// Everything the emitted builder does with one field.
#[derive(Debug)]
pub struct FieldPlan {
    pub name: String,
    /// The declared type is `Option<T>`: the field may stay absent.
    pub optional: bool,
    /// The builder's storage type for the field.
    pub storage_type: String,
    /// The builder starts with an empty collection rather than nothing.
    pub starts_empty: bool,
    pub setters: Vec<SetterSpec>,
}

/// A derivation that cannot go on.
#[derive(Debug, PartialEq, Eq)]
pub enum GenerationError {
    /// An append-one setter was asked for on a field whose setter type is
    /// not `Vec<T>`.
    NotACollection { field: String },
}

pub open spec fn is_optional(f: BuilderField) -> bool {
    wrapped_inner(f.ty, "Option"@) is Some
}

/// The type that the replace setter takes: the inner type of an optional
/// field, the declared type otherwise.
pub open spec fn setter_type(f: BuilderField) -> TypeExpr {
    match wrapped_inner(f.ty, "Option"@) {
        Some(inner) => inner,
        None => f.ty,
    }
}

/// A field can be planned unless it asks for an append-one setter while its
/// setter type is no `Vec<T>`.
pub open spec fn field_ok(f: BuilderField) -> bool {
    f.each is Some ==> wrapped_inner(setter_type(f), "Vec"@) is Some
}

/// The element type that the append-one setter takes.
pub open spec fn element_type(f: BuilderField) -> TypeExpr {
    wrapped_inner(setter_type(f), "Vec"@)->Some_0
}

pub open spec fn storage_text(f: BuilderField) -> Seq<char> {
    if is_optional(f) {
        text_of(f.ty)
    } else {
        "std::option::Option<"@ + text_of(f.ty) + ">"@
    }
}

/// The append-one setter is the only setter of the field: its name is the
/// field's own.
pub open spec fn append_only(f: BuilderField) -> bool {
    f.each == Some(f.name)
}

/// The setters of a well-formed field, in the order in which they are emitted.
pub open spec fn setters_of(f: BuilderField) -> Seq<(Seq<char>, Seq<char>, SetterKind)> {
    let replace = (f.name@, text_of(setter_type(f)), SetterKind::Replace);
    match f.each {
        Some(e) => {
            let append = (e@, text_of(element_type(f)), SetterKind::AppendOne);
            if e@ == f.name@ {
                seq![append]
            } else {
                seq![append, replace]
            }
        },
        None => seq![replace],
    }
}

/// A plan as plain values: name, optionality, storage type, whether
/// storage starts as an empty collection, and the setters as
/// (method, parameter type, kind).
pub struct PlanView {
    pub name: Seq<char>,
    pub optional: bool,
    pub storage: Seq<char>,
    pub starts_empty: bool,
    pub setters: Seq<(Seq<char>, Seq<char>, SetterKind)>,
}

pub open spec fn setter_view(s: SetterSpec) -> (Seq<char>, Seq<char>, SetterKind) {
    (s.method@, s.param_type@, s.kind)
}

impl View for FieldPlan {
    type V = PlanView;

    open spec fn view(&self) -> PlanView {
        PlanView {
            name: self.name@,
            optional: self.optional,
            storage: self.storage_type@,
            starts_empty: self.starts_empty,
            setters: self.setters@.map_values(|s: SetterSpec| setter_view(s)),
        }
    }
}

/// The plan of a well-formed field.
pub open spec fn plan_of(f: BuilderField) -> PlanView {
    PlanView {
        name: f.name@,
        optional: is_optional(f),
        storage: storage_text(f),
        starts_empty: wrapped_inner(f.ty, "Vec"@) is Some,
        setters: setters_of(f),
    }
}

/// The plan holds a setter of the given kind.
pub open spec fn has_setter(p: PlanView, kind: SetterKind) -> bool {
    exists|k: int| 0 <= k < p.setters.len() && (#[trigger] p.setters[k]).2 == kind
}

/// The text of `s` followed by that of `t`.
pub fn concat(s: &String, t: &str) -> (r: String)
    ensures
        r@ == s@ + t@,
{
    let mut r = s.clone();
    r.append(t);
    r
}

/// Plans the storage, setters and assembly of one field.
pub fn plan_field(f: &BuilderField) -> (r: Result<FieldPlan, GenerationError>)
    ensures
        match r {
            Ok(p) => field_ok(*f) && p@ == plan_of(*f),
            Err(e) => !field_ok(*f) && e == (GenerationError::NotACollection { field: f.name }),
        },
{
    let opt = inner_type_of(&f.ty, "Option");
    let optional = opt.is_some();
    let setter_ty: &TypeExpr = match opt {
        Some(inner) => inner,
        None => &f.ty,
    };
    let storage_type = if optional {
        f.ty.text().clone()
    } else {
        let head = String::from_str("std::option::Option<");
        let with_ty = concat(&head, f.ty.text().as_str());
        concat(&with_ty, ">")
    };
    let starts_empty = inner_type_of(&f.ty, "Vec").is_some();
    let replace = SetterSpec {
        method: f.name.clone(),
        param_type: setter_ty.text().clone(),
        kind: SetterKind::Replace,
    };
    let mut setters: Vec<SetterSpec> = Vec::new();
    match &f.each {
        Some(e) => {
            match inner_type_of(setter_ty, "Vec") {
                Some(elem) => {
                    setters.push(
                        SetterSpec {
                            method: e.clone(),
                            param_type: elem.text().clone(),
                            kind: SetterKind::AppendOne,
                        },
                    );
                    if !(*e == f.name) {
                        setters.push(replace);
                    }
                },
                None => {
                    return Err(GenerationError::NotACollection { field: f.name.clone() });
                },
            }
        },
        None => {
            setters.push(replace);
        },
    }
    let p = FieldPlan {
        name: f.name.clone(),
        optional,
        storage_type,
        starts_empty,
        setters,
    };
    assert(p@.setters =~= setters_of(*f));
    Ok(p)
}

} // verus!
