//! Type expressions, as far as the derivation needs to look into them.
use vstd::prelude::*;

verus! {

/// A field's declared type, already parsed.
#[derive(Debug)]
pub enum TypeExpr {
    /// A path type whose last segment carries angle-bracketed arguments,
    /// such as `std::option::Option<u8>`: `name` is that last segment's
    /// identifier and `args` are its arguments in order.
    Applied { text: String, name: String, args: Vec<TypeArg> },
    /// Any other type.
    Plain { text: String },
}

/// One generic argument of an applied type.
#[derive(Debug)]
pub enum TypeArg {
    /// A type argument.
    Type(TypeExpr),
    /// A lifetime, constant, binding or constraint, by its text.
    Other(String),
}

/// The source text of a type.
pub open spec fn text_of(t: TypeExpr) -> Seq<char> {
    match t {
        TypeExpr::Applied { text, .. } => text@,
        TypeExpr::Plain { text } => text@,
    }
}

/// The single type argument of `t` when `t` is exactly `wrapper<Inner>`,
/// judged by the last path segment; nothing for a plain type, another
/// wrapper, several arguments, or one argument that is not a type.
pub open spec fn wrapped_inner(t: TypeExpr, wrapper: Seq<char>) -> Option<TypeExpr> {
    match t {
        TypeExpr::Applied { name, args, .. } => {
            if name@ == wrapper && args@.len() == 1 && args@[0] is Type {
                Some(args@[0]->Type_0)
            } else {
                None
            }
        },
        TypeExpr::Plain { .. } => None,
    }
}

impl TypeExpr {
    /// The source text of this type.
    pub fn text(&self) -> (r: &String)
        ensures
            r@ == text_of(*self),
    {
        match self {
            TypeExpr::Applied { text, .. } => text,
            TypeExpr::Plain { text } => text,
        }
    }
}

/// Probes `ty` for the wrapper shape `container<Inner>` and returns `Inner`.
pub fn inner_type_of<'a>(ty: &'a TypeExpr, container: &str) -> (r: Option<&'a TypeExpr>)
    ensures
        match r {
            Some(inner) => wrapped_inner(*ty, container@) == Some(*inner),
            None => wrapped_inner(*ty, container@) is None,
        },
{
    match ty {
        TypeExpr::Applied { name, args, .. } => {
            let wanted = String::from_str(container);
            if *name == wanted && args.len() == 1 {
                match &args[0] {
                    TypeArg::Type(inner) => Some(inner),
                    TypeArg::Other(_) => None,
                }
            } else {
                None
            }
        },
        TypeExpr::Plain { .. } => None,
    }
}

} // verus!
