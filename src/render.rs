//! The source text of an expansion.
use vstd::prelude::*;
use crate::expand::{
    get_builder_expanded, required_names, BuildDef, Expansion, SetterDef, StagingField,
    ValueClause,
};
use crate::syntax::{inner_type, is_optional, named_fields, DefinitionError, Field, RecordDef};

verus! {

/// The parts joined with `sep` between each two.
pub open spec fn join(parts: Seq<Seq<char>>, sep: Seq<char>) -> Seq<char>
    decreases parts.len(),
{
    if parts.len() == 0 {
        Seq::empty()
    } else if parts.len() == 1 {
        parts[0]
    } else {
        join(parts.drop_last(), sep) + sep + parts.last()
    }
}

/// `name: std::option::Option<T>`
pub open spec fn field_text(name: Seq<char>, ty: Seq<char>) -> Seq<char> {
    name + ": std::option::Option<"@ + ty + ">"@
}

/// `name: std::option::Option::None`
pub open spec fn init_text(name: Seq<char>) -> Seq<char> {
    name + ": std::option::Option::None"@
}

/// A setter that stores its argument as present and returns the builder.
pub open spec fn setter_text(name: Seq<char>, ty: Seq<char>) -> Seq<char> {
    "pub fn "@ + name + "(&mut self, "@ + name + ": "@ + ty + ") -> &mut Self { self."@ + name
        + " = std::option::Option::Some("@ + name + "); self } "@
}

/// A presence check that fails with the field's message.
pub open spec fn check_text(name: Seq<char>) -> Seq<char> {
    "if self."@ + name + ".is_none() { return std::result::Result::Err(std::string::String::from(\""@
        + name + " field missing\")); } "@
}

/// One field of the built record: unwrapped, or copied as it stands.
pub open spec fn value_text(name: Seq<char>, unwrap: bool) -> Seq<char> {
    if unwrap {
        name + ": self."@ + name + ".clone().unwrap()"@
    } else {
        name + ": self."@ + name + ".clone()"@
    }
}

pub open spec fn fields_text(fs: Seq<StagingField>) -> Seq<char> {
    join(Seq::new(fs.len(), |i: int| field_text(fs[i].name@, fs[i].inner_ty.text@)), ", "@)
}

pub open spec fn inits_text(ns: Seq<&String>) -> Seq<char> {
    join(Seq::new(ns.len(), |i: int| init_text(ns[i]@)), ", "@)
}

pub open spec fn setters_text(ss: Seq<SetterDef>) -> Seq<char> {
    join(Seq::new(ss.len(), |i: int| setter_text(ss[i].name@, ss[i].param_ty.text@)), Seq::empty())
}

pub open spec fn checks_text(ns: Seq<&String>) -> Seq<char> {
    join(Seq::new(ns.len(), |i: int| check_text(ns[i]@)), Seq::empty())
}

pub open spec fn values_text(cs: Seq<ValueClause>) -> Seq<char> {
    join(Seq::new(cs.len(), |i: int| value_text(cs[i].name@, cs[i].unwrap)), ", "@)
}

/// The `build` operation of record `target`: the checks, then the record.
pub open spec fn build_frame(target: Seq<char>, checks: Seq<char>, values: Seq<char>) -> Seq<
    char,
> {
    "pub fn build(&self) -> std::result::Result<"@ + target + ", std::string::String> { "@
        + checks + "std::result::Result::Ok("@ + target + " { "@ + values + " }) }"@
}

/// The whole generated unit: the factory on the record, the staging
/// structure, and its setters and `build`.
pub open spec fn source_frame(
    target: Seq<char>,
    builder: Seq<char>,
    inits: Seq<char>,
    fields: Seq<char>,
    setters: Seq<char>,
    build: Seq<char>,
) -> Seq<char> {
    "impl "@ + target + " { pub fn builder() -> "@ + builder + " { "@ + builder + " { "@ + inits
        + " } } } #[derive(Debug)] pub struct "@ + builder + " { "@ + fields + " } impl "@
        + builder + " { "@ + setters + build + " }"@
}

pub open spec fn build_text(b: BuildDef) -> Seq<char> {
    build_frame(b.target@, checks_text(b.checks@), values_text(b.values@))
}

pub open spec fn expansion_text(e: Expansion) -> Seq<char> {
    source_frame(
        e.target@,
        e.builder_name@,
        inits_text(e.init@),
        fields_text(e.fields@),
        setters_text(e.setters@),
        build_text(e.build),
    )
}

proof fn lemma_join_step(parts: Seq<Seq<char>>, sep: Seq<char>, i: int)
    requires
        0 <= i < parts.len(),
    ensures
        join(parts.take(i + 1), sep) == if i == 0 {
            parts[0]
        } else {
            join(parts.take(i), sep) + sep + parts[i]
        },
{
    assert(parts.take(i + 1).drop_last() =~= parts.take(i));
}

fn render_fields(fs: &Vec<StagingField>) -> (r: String)
    ensures
        r@ == fields_text(fs@),
{
    let ghost parts = Seq::new(fs@.len(), |i: int| field_text(fs@[i].name@, fs@[i].inner_ty.text@));
    let mut out = String::new();
    let mut i: usize = 0;
    while i < fs.len()
        invariant
            i <= fs@.len(),
            parts == Seq::new(fs@.len(), |i: int| field_text(fs@[i].name@, fs@[i].inner_ty.text@)),
            out@ == join(parts.take(i as int), ", "@),
        decreases fs@.len() - i,
    {
        proof {
            lemma_join_step(parts, ", "@, i as int);
        }
        if i > 0 {
            out.append(", ");
        }
        let f = &fs[i];
        out.append(f.name.as_str());
        out.append(": std::option::Option<");
        out.append(f.inner_ty.text.as_str());
        out.append(">");
        i = i + 1;
    }
    proof {
        assert(parts.take(fs@.len() as int) =~= parts);
    }
    out
}

fn render_inits(ns: &Vec<&String>) -> (r: String)
    ensures
        r@ == inits_text(ns@),
{
    let ghost parts = Seq::new(ns@.len(), |i: int| init_text(ns@[i]@));
    let mut out = String::new();
    let mut i: usize = 0;
    while i < ns.len()
        invariant
            i <= ns@.len(),
            parts == Seq::new(ns@.len(), |i: int| init_text(ns@[i]@)),
            out@ == join(parts.take(i as int), ", "@),
        decreases ns@.len() - i,
    {
        proof {
            lemma_join_step(parts, ", "@, i as int);
        }
        if i > 0 {
            out.append(", ");
        }
        let x = &ns[i];
        out.append(x.as_str());
        out.append(": std::option::Option::None");
        i = i + 1;
    }
    proof {
        assert(parts.take(ns@.len() as int) =~= parts);
    }
    out
}

fn render_setters(ss: &Vec<SetterDef>) -> (r: String)
    ensures
        r@ == setters_text(ss@),
{
    let ghost parts = Seq::new(ss@.len(), |i: int| setter_text(ss@[i].name@, ss@[i].param_ty.text@));
    let mut out = String::new();
    let mut i: usize = 0;
    while i < ss.len()
        invariant
            i <= ss@.len(),
            parts == Seq::new(ss@.len(), |i: int| setter_text(ss@[i].name@, ss@[i].param_ty.text@)),
            out@ == join(parts.take(i as int), Seq::empty()),
        decreases ss@.len() - i,
    {
        proof {
            lemma_join_step(parts, Seq::empty(), i as int);
        }
        let x = &ss[i];
        out.append("pub fn ");
        out.append(x.name.as_str());
        out.append("(&mut self, ");
        out.append(x.name.as_str());
        out.append(": ");
        out.append(x.param_ty.text.as_str());
        out.append(") -> &mut Self { self.");
        out.append(x.name.as_str());
        out.append(" = std::option::Option::Some(");
        out.append(x.name.as_str());
        out.append("); self } ");
        i = i + 1;
    }
    proof {
        assert(parts.take(ss@.len() as int) =~= parts);
    }
    out
}

fn render_checks(ns: &Vec<&String>) -> (r: String)
    ensures
        r@ == checks_text(ns@),
{
    let ghost parts = Seq::new(ns@.len(), |i: int| check_text(ns@[i]@));
    let mut out = String::new();
    let mut i: usize = 0;
    while i < ns.len()
        invariant
            i <= ns@.len(),
            parts == Seq::new(ns@.len(), |i: int| check_text(ns@[i]@)),
            out@ == join(parts.take(i as int), Seq::empty()),
        decreases ns@.len() - i,
    {
        proof {
            lemma_join_step(parts, Seq::empty(), i as int);
        }
        let x = &ns[i];
        out.append("if self.");
        out.append(x.as_str());
        out.append(".is_none() { return std::result::Result::Err(std::string::String::from(\"");
        out.append(x.as_str());
        out.append(" field missing\")); } ");
        i = i + 1;
    }
    proof {
        assert(parts.take(ns@.len() as int) =~= parts);
    }
    out
}

fn render_values(cs: &Vec<ValueClause>) -> (r: String)
    ensures
        r@ == values_text(cs@),
{
    let ghost parts = Seq::new(cs@.len(), |i: int| value_text(cs@[i].name@, cs@[i].unwrap));
    let mut out = String::new();
    let mut i: usize = 0;
    while i < cs.len()
        invariant
            i <= cs@.len(),
            parts == Seq::new(cs@.len(), |i: int| value_text(cs@[i].name@, cs@[i].unwrap)),
            out@ == join(parts.take(i as int), ", "@),
        decreases cs@.len() - i,
    {
        proof {
            lemma_join_step(parts, ", "@, i as int);
        }
        if i > 0 {
            out.append(", ");
        }
        let x = &cs[i];
        out.append(x.name.as_str());
        out.append(": self.");
        out.append(x.name.as_str());
        if x.unwrap {
            out.append(".clone().unwrap()");
        } else {
            out.append(".clone()");
        }
        i = i + 1;
    }
    proof {
        assert(parts.take(cs@.len() as int) =~= parts);
    }
    out
}

fn render_build(b: &BuildDef) -> (r: String)
    ensures
        r@ == build_text(*b),
{
    let mut out = String::new();
    out.append("pub fn build(&self) -> std::result::Result<");
    out.append(b.target.as_str());
    out.append(", std::string::String> { ");
    out.append(render_checks(&b.checks).as_str());
    out.append("std::result::Result::Ok(");
    out.append(b.target.as_str());
    out.append(" { ");
    out.append(render_values(&b.values).as_str());
    out.append(" }) }");
    out
}

/// The source text of an expansion: the factory `builder()` on the record,
/// the staging structure, and its setters and `build`.
pub fn render_expansion(e: &Expansion) -> (r: String)
    ensures
        r@ == expansion_text(*e),
{
    let mut out = String::new();
    out.append("impl ");
    out.append(e.target.as_str());
    out.append(" { pub fn builder() -> ");
    out.append(e.builder_name.as_str());
    out.append(" { ");
    out.append(e.builder_name.as_str());
    out.append(" { ");
    out.append(render_inits(&e.init).as_str());
    out.append(" } } } #[derive(Debug)] pub struct ");
    out.append(e.builder_name.as_str());
    out.append(" { ");
    out.append(render_fields(&e.fields).as_str());
    out.append(" } impl ");
    out.append(e.builder_name.as_str());
    out.append(" { ");
    out.append(render_setters(&e.setters).as_str());
    out.append(render_build(&e.build).as_str());
    out.append(" }");
    out
}

/// The source generated for record `name` with fields `fs`, read off the
/// fields directly.
pub open spec fn record_source(name: Seq<char>, fs: Seq<Field>) -> Seq<char> {
    let req = required_names(fs);
    source_frame(
        name,
        name + "Builder"@,
        join(Seq::new(fs.len(), |i: int| init_text(fs[i].name@)), ", "@),
        join(Seq::new(fs.len(), |i: int| field_text(fs[i].name@, inner_type(fs[i].ty).text@)), ", "@),
        join(
            Seq::new(fs.len(), |i: int| setter_text(fs[i].name@, inner_type(fs[i].ty).text@)),
            Seq::empty(),
        ),
        build_frame(
            name,
            join(Seq::new(req.len(), |i: int| check_text(req[i]@)), Seq::empty()),
            join(Seq::new(fs.len(), |i: int| value_text(fs[i].name@, !is_optional(fs[i]))), ", "@),
        ),
    )
}

/// The source of the builder for a definition: for a struct with named
/// fields, `record_source` of its name and fields; any other definition is
/// refused as the field extractor refuses it.
pub fn builder_source(def: &RecordDef) -> (r: Result<String, DefinitionError>)
    ensures
        match r {
            Ok(s) => named_fields(*def) matches Some(fs) && s@ == record_source(def.name@, fs),
            Err(e) => named_fields(*def) is None && (e == DefinitionError::NotAStruct
                <==> !(def.data is Struct)),
        },
{
    let e = match get_builder_expanded(def) {
        Ok(e) => e,
        Err(err) => {
            return Err(err);
        },
    };
    let s = render_expansion(&e);
    proof {
        let fs = named_fields(*def)->0;
        let req = required_names(fs);
        assert(Seq::new(e.init@.len(), |i: int| init_text(e.init@[i]@)) =~= Seq::new(
            fs.len(),
            |i: int| init_text(fs[i].name@),
        ));
        assert(Seq::new(e.fields@.len(), |i: int| field_text(e.fields@[i].name@, e.fields@[i].inner_ty.text@))
            =~= Seq::new(fs.len(), |i: int| field_text(fs[i].name@, inner_type(fs[i].ty).text@)));
        assert(Seq::new(e.setters@.len(), |i: int| setter_text(e.setters@[i].name@, e.setters@[i].param_ty.text@))
            =~= Seq::new(fs.len(), |i: int| setter_text(fs[i].name@, inner_type(fs[i].ty).text@)));
        assert(Seq::new(e.build.checks@.len(), |i: int| check_text(e.build.checks@[i]@)) =~= Seq::new(
            req.len(),
            |i: int| check_text(req[i]@),
        ));
        assert(Seq::new(e.build.values@.len(), |i: int| value_text(e.build.values@[i].name@, e.build.values@[i].unwrap))
            =~= Seq::new(fs.len(), |i: int| value_text(fs[i].name@, !is_optional(fs[i]))));
    }
    Ok(s)
}

} // verus!
