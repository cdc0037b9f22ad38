//! The shape of a record definition, as far as builder generation reads it.
use vstd::prelude::*;

verus! {

/// A type expression: its source text, and its structure where it is a path.
#[derive(Debug)]
pub struct TypeExpr {
    pub text: String,
    pub kind: TypeKind,
}

#[derive(Debug)]
pub enum TypeKind {
    /// A path such as `std::option::Option<String>`, segment by segment.
    Path(Vec<PathSegment>),
    /// Any other form (reference, tuple, array, ...).
    Other,
}

#[derive(Debug)]
pub struct PathSegment {
    pub ident: String,
    pub arguments: PathArguments,
}

#[derive(Debug)]
pub enum PathArguments {
    /// No arguments.
    Plain,
    /// `<A, B, ...>`
    AngleBracketed(Vec<GenericArgument>),
    /// `(A, B) -> C`
    Parenthesized,
}

#[derive(Debug)]
pub enum GenericArgument {
    Type(TypeExpr),
    /// A lifetime, a constant or an associated-type binding.
    Other,
}

#[derive(Debug)]
pub struct Field {
    pub name: String,
    pub ty: TypeExpr,
}

#[derive(Debug)]
pub enum Fields {
    Named(Vec<Field>),
    Unnamed,
    Unit,
}

#[derive(Debug)]
pub enum Data {
    Struct(Fields),
    Enum,
    Union,
}

/// A type definition that a builder is asked for.
#[derive(Debug)]
pub struct RecordDef {
    pub name: String,
    pub data: Data,
}

/// Why a definition has no builder.
#[derive(PartialEq, Eq, Structural, Clone, Copy, Debug)]
pub enum DefinitionError {
    /// The definition is an enum or a union.
    NotAStruct,
    /// The struct has positional fields or none.
    NotNamedFields,
}

impl DefinitionError {
    /// The diagnostic text of the error.
    pub fn message(&self) -> (r: String)
        ensures
            r@ == self.message_spec(),
    {
        match self {
            DefinitionError::NotAStruct => "must be defined on a record type, not a sum type or primitive wrapper".to_owned(),
            DefinitionError::NotNamedFields => "must define named fields, not positional or empty fields".to_owned(),
        }
    }

    pub open spec fn message_spec(&self) -> Seq<char> {
        match self {
            DefinitionError::NotAStruct => "must be defined on a record type, not a sum type or primitive wrapper"@,
            DefinitionError::NotNamedFields => "must define named fields, not positional or empty fields"@,
        }
    }
}

/// The name that marks the optional wrapper.
pub open spec fn option_marker() -> Seq<char> {
    "Option"@
}

/// The payload type of `ty` where `ty` is written as the optional wrapper:
/// a path whose last segment is `Option` with exactly one angle-bracketed
/// argument, which is a type. The check is on the written form only, so an
/// alias of the wrapper is not seen through.
pub open spec fn option_inner(ty: TypeExpr) -> Option<TypeExpr> {
    match ty.kind {
        TypeKind::Path(segs) => {
            if segs@.len() > 0 && segs@.last().ident@ == option_marker() {
                match segs@.last().arguments {
                    PathArguments::AngleBracketed(args) => {
                        if args@.len() == 1 {
                            match args@[0] {
                                GenericArgument::Type(t) => Some(t),
                                GenericArgument::Other => None,
                            }
                        } else {
                            None
                        }
                    },
                    _ => None,
                }
            } else {
                None
            }
        },
        TypeKind::Other => None,
    }
}

/// A field is optional when its declared type is the optional wrapper.
pub open spec fn is_optional(f: Field) -> bool {
    option_inner(f.ty) is Some
}

/// The type a field's setter takes and its staging slot holds: the payload
/// of an optional field, else the declared type.
pub open spec fn inner_type(ty: TypeExpr) -> TypeExpr {
    match option_inner(ty) {
        Some(t) => t,
        None => ty,
    }
}

/// The field list of a struct with named fields.
pub open spec fn named_fields(def: RecordDef) -> Option<Seq<Field>> {
    match def.data {
        Data::Struct(Fields::Named(v)) => Some(v@),
        _ => None,
    }
}

/// Returns the payload type when `ty` is written as the optional wrapper.
pub fn get_option_inner_type(ty: &TypeExpr) -> (r: Option<&TypeExpr>)
    ensures
        r is Some <==> option_inner(*ty) is Some,
        r matches Some(t) ==> option_inner(*ty) == Some(*t),
{
    let marker = "Option".to_owned();
    proof {
        reveal_strlit("Option");
    }
    match &ty.kind {
        TypeKind::Path(segs) => {
            if segs.len() == 0 {
                return None;
            }
            let seg = &segs[segs.len() - 1];
            if seg.ident != marker {
                return None;
            }
            match &seg.arguments {
                PathArguments::AngleBracketed(args) => {
                    if args.len() != 1 {
                        return None;
                    }
                    match &args[0] {
                        GenericArgument::Type(t) => Some(t),
                        GenericArgument::Other => None,
                    }
                },
                _ => None,
            }
        },
        TypeKind::Other => None,
    }
}

/// The ordered fields of a struct with named fields; any other definition is
/// refused.
pub fn get_builder_data_field(def: &RecordDef) -> (r: Result<&Vec<Field>, DefinitionError>)
    ensures
        match r {
            Ok(v) => named_fields(*def) == Some(v@),
            Err(e) => named_fields(*def) is None && (e == DefinitionError::NotAStruct
                <==> !(def.data is Struct)),
        },
{
    match &def.data {
        Data::Struct(fields) => match fields {
            Fields::Named(v) => Ok(v),
            _ => Err(DefinitionError::NotNamedFields),
        },
        _ => Err(DefinitionError::NotAStruct),
    }
}

} // verus!
