//! Derives the parts of a builder from a record's field list.
use vstd::prelude::*;
use crate::syntax::{
    get_builder_data_field, get_option_inner_type, inner_type, is_optional, named_fields,
    DefinitionError, Field, RecordDef, TypeExpr,
};

verus! {

/// One field of the staging structure; its storage type is the optional
/// wrapper around `inner_ty`.
pub struct StagingField<'a> {
    pub name: &'a String,
    pub inner_ty: &'a TypeExpr,
}

/// A setter `name(&mut self, name: param_ty) -> &mut Self`.
pub struct SetterDef<'a> {
    pub name: &'a String,
    pub param_ty: &'a TypeExpr,
}

/// How `build` fills one field of the record: with the unwrapped staging
/// value (`unwrap`), or with the staging value as it stands.
pub struct ValueClause<'a> {
    pub name: &'a String,
    pub unwrap: bool,
}

/// The `build` operation: the presence checks, in order, then the record.
pub struct BuildDef<'a> {
    pub target: &'a String,
    pub checks: Vec<&'a String>,
    pub values: Vec<ValueClause<'a>>,
}

/// Everything generated for one record.
pub struct Expansion<'a> {
    pub target: &'a String,
    pub builder_name: String,
    pub fields: Vec<StagingField<'a>>,
    pub init: Vec<&'a String>,
    pub setters: Vec<SetterDef<'a>>,
    pub build: BuildDef<'a>,
}

/// The names of the fields that are not optional, in declaration order.
pub open spec fn required_names(fs: Seq<Field>) -> Seq<String>
    decreases fs.len(),
{
    if fs.len() == 0 {
        Seq::empty()
    } else {
        let rest = required_names(fs.drop_last());
        if is_optional(fs.last()) {
            rest
        } else {
            rest.push(fs.last().name)
        }
    }
}

pub open spec fn staging_fields_match(r: Seq<StagingField>, fs: Seq<Field>) -> bool {
    &&& r.len() == fs.len()
    &&& forall|i: int|
        0 <= i < fs.len() ==> r[i].name == fs[i].name && *r[i].inner_ty == inner_type(
            fs[i].ty,
        )
}

pub open spec fn setters_match(r: Seq<SetterDef>, fs: Seq<Field>) -> bool {
    &&& r.len() == fs.len()
    &&& forall|i: int|
        0 <= i < fs.len() ==> r[i].name == fs[i].name && *r[i].param_ty == inner_type(
            fs[i].ty,
        )
}

pub open spec fn init_matches(r: Seq<&String>, fs: Seq<Field>) -> bool {
    &&& r.len() == fs.len()
    &&& forall|i: int| 0 <= i < fs.len() ==> *r[i] == fs[i].name
}

pub open spec fn values_match(r: Seq<ValueClause>, fs: Seq<Field>) -> bool {
    &&& r.len() == fs.len()
    &&& forall|i: int|
        0 <= i < fs.len() ==> r[i].name == fs[i].name && r[i].unwrap == !is_optional(fs[i])
}

pub open spec fn checks_match(r: Seq<&String>, fs: Seq<Field>) -> bool {
    &&& r.len() == required_names(fs).len()
    &&& forall|i: int| 0 <= i < r.len() ==> *r[i] == required_names(fs)[i]
}

/// The staging structure's fields: one per record field, in order, each
/// holding the field's inner type.
pub fn generate_builder_struct_fields_def(fields: &Vec<Field>) -> (r: Vec<StagingField<'_>>)
    ensures
        staging_fields_match(r@, fields@),
{
    let mut r: Vec<StagingField> = Vec::new();
    let mut i: usize = 0;
    while i < fields.len()
        invariant
            i <= fields@.len(),
            r@.len() == i,
            forall|j: int|
                0 <= j < i ==> r@[j].name == fields@[j].name && *r@[j].inner_ty == inner_type(
                    fields@[j].ty,
                ),
        decreases fields@.len() - i,
    {
        let f = &fields[i];
        let ty = match get_option_inner_type(&f.ty) {
            Some(t) => t,
            None => &f.ty,
        };
        r.push(StagingField { name: &f.name, inner_ty: ty });
        i = i + 1;
    }
    r
}

/// The factory's initializer: every staging field, in order, starts absent.
pub fn generate_builder_struct_factory_init_clauses(fields: &Vec<Field>) -> (r: Vec<&String>)
    ensures
        init_matches(r@, fields@),
{
    let mut r: Vec<&String> = Vec::new();
    let mut i: usize = 0;
    while i < fields.len()
        invariant
            i <= fields@.len(),
            r@.len() == i,
            forall|j: int| 0 <= j < i ==> *r@[j] == fields@[j].name,
        decreases fields@.len() - i,
    {
        r.push(&fields[i].name);
        i = i + 1;
    }
    r
}

/// One setter per field, named after it, taking the field's inner type.
pub fn generate_set_data_func_def(fields: &Vec<Field>) -> (r: Vec<SetterDef<'_>>)
    ensures
        setters_match(r@, fields@),
{
    let mut r: Vec<SetterDef> = Vec::new();
    let mut i: usize = 0;
    while i < fields.len()
        invariant
            i <= fields@.len(),
            r@.len() == i,
            forall|j: int|
                0 <= j < i ==> r@[j].name == fields@[j].name && *r@[j].param_ty == inner_type(
                    fields@[j].ty,
                ),
        decreases fields@.len() - i,
    {
        let f = &fields[i];
        let ty = match get_option_inner_type(&f.ty) {
            Some(t) => t,
            None => &f.ty,
        };
        r.push(SetterDef { name: &f.name, param_ty: ty });
        i = i + 1;
    }
    r
}

/// The `build` operation: a presence check for each field that is not
/// optional, in declaration order, then one value clause per field that
/// unwraps exactly the fields that are not optional.
pub fn generate_build_record_def<'a>(name: &'a String, fields: &'a Vec<Field>) -> (r:
    BuildDef<'a>)
    ensures
        r.target == name,
        checks_match(r.checks@, fields@),
        values_match(r.values@, fields@),
{
    let mut checks: Vec<&String> = Vec::new();
    let mut i: usize = 0;
    while i < fields.len()
        invariant
            i <= fields@.len(),
            checks@.len() == required_names(fields@.take(i as int)).len(),
            forall|j: int|
                0 <= j < checks@.len() ==> *checks@[j] == required_names(fields@.take(i as int))[j],
        decreases fields@.len() - i,
    {
        let f = &fields[i];
        proof {
            assert(fields@.take(i + 1).drop_last() =~= fields@.take(i as int));
        }
        if get_option_inner_type(&f.ty).is_none() {
            checks.push(&f.name);
        }
        i = i + 1;
    }
    proof {
        assert(fields@.take(fields@.len() as int) =~= fields@);
    }
    let mut values: Vec<ValueClause> = Vec::new();
    let mut k: usize = 0;
    while k < fields.len()
        invariant
            k <= fields@.len(),
            values@.len() == k,
            forall|j: int|
                0 <= j < k ==> values@[j].name == fields@[j].name && values@[j].unwrap
                    == !is_optional(fields@[j]),
        decreases fields@.len() - k,
    {
        let f = &fields[k];
        let unwrap = get_option_inner_type(&f.ty).is_none();
        values.push(ValueClause { name: &f.name, unwrap });
        k = k + 1;
    }
    BuildDef { target: name, checks, values }
}

/// The builder for a record: its name is the record's name followed by
/// `Builder`. A definition without named fields is refused.
pub fn get_builder_expanded(def: &RecordDef) -> (r: Result<Expansion<'_>, DefinitionError>)
    ensures
        match r {
            Ok(e) => {
                &&& named_fields(*def) is Some
                &&& e.target == def.name
                &&& e.builder_name@ == def.name@ + "Builder"@
                &&& staging_fields_match(e.fields@, named_fields(*def)->0)
                &&& init_matches(e.init@, named_fields(*def)->0)
                &&& setters_match(e.setters@, named_fields(*def)->0)
                &&& e.build.target == def.name
                &&& checks_match(e.build.checks@, named_fields(*def)->0)
                &&& values_match(e.build.values@, named_fields(*def)->0)
            },
            Err(e) => named_fields(*def) is None && (e == DefinitionError::NotAStruct
                <==> !(def.data is Struct)),
        },
{
    let fields = match get_builder_data_field(def) {
        Ok(f) => f,
        Err(e) => {
            return Err(e);
        },
    };
    let builder_name = def.name.clone().concat("Builder");
    let field_defs = generate_builder_struct_fields_def(fields);
    let init = generate_builder_struct_factory_init_clauses(fields);
    let setters = generate_set_data_func_def(fields);
    let build = generate_build_record_def(&def.name, fields);
    Ok(Expansion { target: &def.name, builder_name, fields: field_defs, init, setters, build })
}

} // verus!
