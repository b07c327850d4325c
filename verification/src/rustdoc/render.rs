//! Rendering rustdoc type and signature data into concise, Rust-source-like
//! strings for search and display. Deliberately approximate: a concise API
//! representation, not a pretty-printer. Where-clauses are omitted to keep
//! signatures short.
use vstd::prelude::*;

use crate::rustdoc::types::{
    Abi, AssocItemConstraint, AssocItemConstraintKind, Constant, DynTrait, Function, FunctionHeader,
    FunctionSignature, GenericArg,
    GenericArgs, GenericBound, GenericParamDef, GenericParamDefKind, Path, PolyTrait, Term, Type,
};
use crate::text::{join, join_strings, push_str, strings_view};

verus! {

/// The rendering of a type.
pub open spec fn type_text(t: Type) -> Seq<char>
    decreases t,
{
    match t {
        Type::ResolvedPath(p) => path_text(p),
        Type::DynTrait(d) => {
            let joined = join(poly_list(d.traits@), " + "@);
            match d.lifetime {
                Some(l) => "dyn "@ + joined + " + "@ + l@,
                None => "dyn "@ + joined,
            }
        },
        Type::Generic(s) => s@,
        Type::Primitive(s) => s@,
        Type::FunctionPointer(fp) => "fn("@ + join(input_type_list(fp.sig.inputs@), ", "@) + ")"@
            + match fp.sig.output {
            Some(o) => " -> "@ + type_text(o),
            None => Seq::empty(),
        },
        Type::Tuple(ts) => "("@ + join(type_list(ts@), ", "@) + ")"@,
        Type::Slice(inner) => "["@ + type_text(*inner) + "]"@,
        Type::Array { type_, len } => "["@ + type_text(*type_) + "; "@ + len@ + "]"@,
        Type::Pat { type_ } => type_text(*type_),
        Type::ImplTrait(bounds) => {
            let rendered = join(bound_list(bounds@), " + "@);
            if rendered.len() == 0 {
                "impl Trait"@
            } else {
                "impl "@ + rendered
            }
        },
        Type::Infer => "_"@,
        Type::RawPointer { is_mutable, type_ } => if is_mutable {
            "*mut "@ + type_text(*type_)
        } else {
            "*const "@ + type_text(*type_)
        },
        Type::BorrowedRef { lifetime, is_mutable, type_ } => "&"@ + match lifetime {
            Some(l) => "'"@ + l@ + " "@,
            None => Seq::empty(),
        } + (if is_mutable {
            "mut "@
        } else {
            Seq::empty()
        }) + type_text(*type_),
        Type::QualifiedPath { name, args, self_type, trait_ } => {
            let base = match trait_ {
                Some(p) => type_text(*self_type) + " as "@ + path_text(p),
                None => type_text(*self_type),
            };
            "<"@ + base + ">::"@ + name@ + match args {
                Some(a) => match *a {
                    GenericArgs::AngleBracketed { args, constraints } => {
                        let parts = arg_list(args@);
                        if parts.len() > 0 {
                            "<"@ + join(parts, ", "@) + ">"@
                        } else {
                            Seq::empty()
                        }
                    },
                    _ => Seq::empty(),
                },
                None => Seq::empty(),
            }
        },
    }
}

/// The rendering of a path: the path, then its generic arguments.
pub open spec fn path_text(p: Path) -> Seq<char>
    decreases p,
{
    p.path@ + match p.args {
        Some(a) => args_text(*a),
        None => Seq::empty(),
    }
}

/// The rendering of generic arguments after a path.
pub open spec fn args_text(a: GenericArgs) -> Seq<char>
    decreases a,
{
    match a {
        GenericArgs::AngleBracketed { args, constraints } => {
            let parts = arg_list(args@) + constraint_list(constraints@);
            if parts.len() > 0 {
                "<"@ + join(parts, ", "@) + ">"@
            } else {
                Seq::empty()
            }
        },
        GenericArgs::Parenthesized { inputs, output } => "("@ + join(type_list(inputs@), ", "@)
            + ")"@ + match output {
            Some(o) => " -> "@ + type_text(o),
            None => Seq::empty(),
        },
        GenericArgs::ReturnTypeNotation => Seq::empty(),
    }
}

/// The rendering of a constant: its value when known, else its expression.
pub open spec fn const_text(c: Constant) -> Seq<char> {
    match c.value {
        Some(v) => v@,
        None => c.expr@,
    }
}

/// The rendering of one generic argument.
pub open spec fn arg_text(a: GenericArg) -> Seq<char>
    decreases a,
{
    match a {
        GenericArg::Lifetime(l) => l@,
        GenericArg::Type(t) => type_text(t),
        GenericArg::Const(c) => const_text(c),
        GenericArg::Infer => "_"@,
    }
}

/// The rendering of a term.
pub open spec fn term_text(t: Term) -> Seq<char>
    decreases t,
{
    match t {
        Term::Type(ty) => type_text(ty),
        Term::Constant(c) => const_text(c),
    }
}

/// The rendering of an associated item constraint.
pub open spec fn constraint_text(c: AssocItemConstraint) -> Seq<char>
    decreases c,
{
    match c.binding {
        AssocItemConstraintKind::Equality(term) => c.name@ + " = "@ + term_text(term),
        AssocItemConstraintKind::Constraint(bounds) => c.name@ + ": "@ + join(
            bound_list(bounds@),
            " + "@,
        ),
    }
}

/// The rendering of one bound.
pub open spec fn bound_text(b: GenericBound) -> Seq<char>
    decreases b,
{
    match b {
        GenericBound::TraitBound { trait_ } => path_text(trait_),
        GenericBound::Outlives(l) => l@,
        GenericBound::Use => "use<..>"@,
    }
}

/// The non-empty renderings of some bounds, in order.
pub open spec fn bound_list(bs: Seq<GenericBound>) -> Seq<Seq<char>>
    decreases bs,
{
    if bs.len() == 0 {
        Seq::empty()
    } else {
        let rest = bound_list(bs.drop_last());
        let b = bound_text(bs.last());
        if b.len() == 0 {
            rest
        } else {
            rest.push(b)
        }
    }
}

/// The renderings of some types, in order.
pub open spec fn type_list(ts: Seq<Type>) -> Seq<Seq<char>>
    decreases ts,
{
    if ts.len() == 0 {
        Seq::empty()
    } else {
        type_list(ts.drop_last()).push(type_text(ts.last()))
    }
}

/// The renderings of the parameter types of a signature, in order.
pub open spec fn input_type_list(inputs: Seq<(String, Type)>) -> Seq<Seq<char>>
    decreases inputs,
{
    if inputs.len() == 0 {
        Seq::empty()
    } else {
        input_type_list(inputs.drop_last()).push(type_text(inputs.last().1))
    }
}

/// The renderings of some generic arguments, in order.
pub open spec fn arg_list(args: Seq<GenericArg>) -> Seq<Seq<char>>
    decreases args,
{
    if args.len() == 0 {
        Seq::empty()
    } else {
        arg_list(args.drop_last()).push(arg_text(args.last()))
    }
}

/// The renderings of some associated item constraints, in order.
pub open spec fn constraint_list(cs: Seq<AssocItemConstraint>) -> Seq<Seq<char>>
    decreases cs,
{
    if cs.len() == 0 {
        Seq::empty()
    } else {
        constraint_list(cs.drop_last()).push(constraint_text(cs.last()))
    }
}

/// The renderings of the trait paths of a `dyn` type, in order.
pub open spec fn poly_list(ps: Seq<PolyTrait>) -> Seq<Seq<char>>
    decreases ps,
{
    if ps.len() == 0 {
        Seq::empty()
    } else {
        poly_list(ps.drop_last()).push(path_text(ps.last().trait_))
    }
}

/// The rendering of a list of bounds joined by ` + ` (empty renderings
/// left out).
pub open spec fn bounds_text(bs: Seq<GenericBound>) -> Seq<char> {
    join(bound_list(bs), " + "@)
}

/// `extern <name>[-unwind] `.
pub open spec fn extern_text(name: Seq<char>, unwind: bool) -> Seq<char> {
    "extern "@ + name + (if unwind {
        "-unwind"@
    } else {
        Seq::empty()
    }) + " "@
}

/// The ABI prefix of a signature (empty for the Rust ABI).
pub open spec fn abi_text(abi: Abi) -> Seq<char> {
    match abi {
        Abi::Rust => Seq::empty(),
        Abi::C { unwind } => extern_text("C"@, unwind),
        Abi::Cdecl { unwind } => extern_text("cdecl"@, unwind),
        Abi::Stdcall { unwind } => extern_text("stdcall"@, unwind),
        Abi::Fastcall { unwind } => extern_text("fastcall"@, unwind),
        Abi::Aapcs { unwind } => extern_text("aapcs"@, unwind),
        Abi::Win64 { unwind } => extern_text("win64"@, unwind),
        Abi::SysV64 { unwind } => extern_text("sysv64"@, unwind),
        Abi::System { unwind } => extern_text("system"@, unwind),
        Abi::Other(s) => "extern "@ + s@ + " "@,
    }
}

/// A parameter compiler-generated for `impl Trait` arguments.
pub open spec fn is_synthetic(p: GenericParamDef) -> bool {
    p.kind matches GenericParamDefKind::Type { is_synthetic, .. } && is_synthetic
}

/// The rendering of one generic parameter.
pub open spec fn param_text(p: GenericParamDef) -> Seq<char> {
    match p.kind {
        GenericParamDefKind::Lifetime { outlives } => if outlives@.len() == 0 {
            p.name@
        } else {
            p.name@ + ": "@ + join(strings_view(outlives@), " + "@)
        },
        GenericParamDefKind::Type { bounds, .. } => {
            let b = bounds_text(bounds@);
            if b.len() == 0 {
                p.name@
            } else {
                p.name@ + ": "@ + b
            }
        },
        GenericParamDefKind::Const { type_ } => "const "@ + p.name@ + ": "@ + type_text(type_),
    }
}

/// The renderings of the non-synthetic parameters, in order.
pub open spec fn param_list(ps: Seq<GenericParamDef>) -> Seq<Seq<char>>
    decreases ps.len(),
{
    if ps.len() == 0 {
        Seq::empty()
    } else if is_synthetic(ps.last()) {
        param_list(ps.drop_last())
    } else {
        param_list(ps.drop_last()).push(param_text(ps.last()))
    }
}

/// The generic parameter list of a signature (`<..>`, or empty).
pub open spec fn generics_text(ps: Seq<GenericParamDef>) -> Seq<char> {
    let parts = param_list(ps);
    if parts.len() == 0 {
        Seq::empty()
    } else {
        "<"@ + join(parts, ", "@) + ">"@
    }
}

/// `name: type` for each parameter, in order.
pub open spec fn input_list(inputs: Seq<(String, Type)>) -> Seq<Seq<char>>
    decreases inputs.len(),
{
    if inputs.len() == 0 {
        Seq::empty()
    } else {
        input_list(inputs.drop_last()).push(
            inputs.last().0@ + ": "@ + type_text(inputs.last().1),
        )
    }
}

/// A word followed by a space when `flag` holds.
pub open spec fn flag_text(flag: bool, word: Seq<char>) -> Seq<char> {
    if flag {
        word
    } else {
        Seq::empty()
    }
}

/// The concise signature of a function item, e.g.
/// `pub async fn offload_blocking<F, R>(work: F) -> R`.
pub open spec fn function_text(name: Seq<char>, f: Function, public: bool) -> Seq<char> {
    header_text(f.header, public) + "fn "@ + name + generics_text(f.generics.params@) + tail_text(
        f.sig,
    )
}

/// Appends `extern <name>[-unwind] ` to `out`.
fn push_abi(out: &mut String, name: &str, unwind: bool)
    ensures
        final(out)@ == old(out)@ + extern_text(name@, unwind),
{
    push_str(out, "extern ");
    push_str(out, name);
    if unwind {
        push_str(out, "-unwind");
    }
    push_str(out, " ");
}

/// The qualifiers and ABI that open a signature.
pub open spec fn header_text(h: FunctionHeader, public: bool) -> Seq<char> {
    flag_text(public, "pub "@) + flag_text(h.is_const, "const "@) + flag_text(
        h.is_unsafe,
        "unsafe "@,
    ) + flag_text(h.is_async, "async "@) + abi_text(h.abi)
}

/// The parameter list and return type that close a signature.
pub open spec fn tail_text(sig: FunctionSignature) -> Seq<char> {
    "("@ + join(input_list(sig.inputs@), ", "@) + (if sig.is_c_variadic {
        flag_text(sig.inputs@.len() > 0, ", "@) + "..."@
    } else {
        Seq::empty()
    }) + ")"@ + match sig.output {
        Some(o) => " -> "@ + type_text(o),
        None => Seq::empty(),
    }
}

/// Renders the qualifiers and ABI of a signature.
fn render_header(h: &FunctionHeader, public: bool) -> (r: String)
    ensures
        r@ == header_text(*h, public),
{
    let mut out = String::new();
    if public {
        push_str(&mut out, "pub ");
    }
    if h.is_const {
        push_str(&mut out, "const ");
    }
    if h.is_unsafe {
        push_str(&mut out, "unsafe ");
    }
    if h.is_async {
        push_str(&mut out, "async ");
    }
    match &h.abi {
        Abi::Rust => {},
        Abi::C { unwind } => push_abi(&mut out, "C", *unwind),
        Abi::Cdecl { unwind } => push_abi(&mut out, "cdecl", *unwind),
        Abi::Stdcall { unwind } => push_abi(&mut out, "stdcall", *unwind),
        Abi::Fastcall { unwind } => push_abi(&mut out, "fastcall", *unwind),
        Abi::Aapcs { unwind } => push_abi(&mut out, "aapcs", *unwind),
        Abi::Win64 { unwind } => push_abi(&mut out, "win64", *unwind),
        Abi::SysV64 { unwind } => push_abi(&mut out, "sysv64", *unwind),
        Abi::System { unwind } => push_abi(&mut out, "system", *unwind),
        Abi::Other(s) => {
            push_str(&mut out, "extern ");
            push_str(&mut out, s.as_str());
            push_str(&mut out, " ");
        },
    }
    out
}

/// Renders the parameter list and return type of a signature.
fn render_tail(sig: &FunctionSignature) -> (r: String)
    ensures
        r@ == tail_text(*sig),
{
    let mut out = String::new();
    push_str(&mut out, "(");
    let inputs = render_inputs(&sig.inputs);
    let joined = join_strings(&inputs, ", ");
    push_str(&mut out, joined.as_str());
    if sig.is_c_variadic {
        if sig.inputs.len() > 0 {
            push_str(&mut out, ", ");
        }
        push_str(&mut out, "...");
    }
    push_str(&mut out, ")");
    if let Some(output) = &sig.output {
        push_str(&mut out, " -> ");
        let o = render_type(output);
        push_str(&mut out, o.as_str());
    }
    out
}

/// Renders the concise signature of a function item, e.g.
/// `pub async fn offload_blocking<F, R>(work: F) -> R`.
pub fn render_function(name: &str, f: &Function, public: bool) -> (r: String)
    ensures
        r@ == function_text(name@, *f, public),
{
    let mut out = render_header(&f.header, public);
    push_str(&mut out, "fn ");
    push_str(&mut out, name);
    let generics = render_generics_params(&f.generics.params);
    push_str(&mut out, generics.as_str());
    let tail = render_tail(&f.sig);
    push_str(&mut out, tail.as_str());
    out
}

/// `name: type` for each parameter.
fn render_inputs(inputs: &Vec<(String, Type)>) -> (r: Vec<String>)
    ensures
        strings_view(r@) == input_list(inputs@),
{
    let mut out: Vec<String> = Vec::new();
    let mut i: usize = 0;
    while i < inputs.len()
        invariant
            i <= inputs@.len(),
            strings_view(out@) == input_list(inputs@.take(i as int)),
        decreases inputs@.len() - i,
    {
        let mut s = inputs[i].0.clone();
        push_str(&mut s, ": ");
        let t = render_type(&inputs[i].1);
        push_str(&mut s, t.as_str());
        out.push(s);
        proof {
            assert(inputs@.take(i + 1).drop_last() =~= inputs@.take(i as int));
            assert(strings_view(out@) =~= input_list(inputs@.take(i as int)).push(
                inputs@[i as int].0@ + ": "@ + type_text(inputs@[i as int].1),
            ));
        }
        i = i + 1;
    }
    assert(inputs@.take(i as int) =~= inputs@);
    out
}

/// The generic parameter list, leaving out compiler-generated parameters.
fn render_generics_params(params: &Vec<GenericParamDef>) -> (r: String)
    ensures
        r@ == generics_text(params@),
{
    let mut rendered: Vec<String> = Vec::new();
    let mut i: usize = 0;
    while i < params.len()
        invariant
            i <= params@.len(),
            strings_view(rendered@) == param_list(params@.take(i as int)),
        decreases params@.len() - i,
    {
        assert(params@.take(i + 1).drop_last() =~= params@.take(i as int));
        if !is_synthetic_param(&params[i]) {
            let p = render_generic_param(&params[i]);
            rendered.push(p);
            assert(strings_view(rendered@) =~= param_list(params@.take(i as int)).push(
                param_text(params@[i as int]),
            ));
        }
        i = i + 1;
    }
    assert(params@.take(i as int) =~= params@);
    if rendered.len() == 0 {
        String::new()
    } else {
        let mut out = String::new();
        push_str(&mut out, "<");
        let joined = join_strings(&rendered, ", ");
        push_str(&mut out, joined.as_str());
        push_str(&mut out, ">");
        out
    }
}

/// Whether a parameter is compiler-generated for an `impl Trait` argument.
fn is_synthetic_param(p: &GenericParamDef) -> (r: bool)
    ensures
        r == is_synthetic(*p),
{
    match &p.kind {
        GenericParamDefKind::Type { is_synthetic, .. } => *is_synthetic,
        _ => false,
    }
}

/// Renders one generic parameter.
fn render_generic_param(p: &GenericParamDef) -> (r: String)
    ensures
        r@ == param_text(*p),
{
    match &p.kind {
        GenericParamDefKind::Lifetime { outlives } => {
            if outlives.len() == 0 {
                p.name.clone()
            } else {
                let mut out = p.name.clone();
                push_str(&mut out, ": ");
                let joined = join_strings(outlives, " + ");
                push_str(&mut out, joined.as_str());
                out
            }
        },
        GenericParamDefKind::Type { bounds, .. } => {
            let b = render_bounds(bounds);
            if b.as_str().is_empty() {
                p.name.clone()
            } else {
                let mut out = p.name.clone();
                push_str(&mut out, ": ");
                push_str(&mut out, b.as_str());
                out
            }
        },
        GenericParamDefKind::Const { type_ } => {
            let mut out = String::new();
            push_str(&mut out, "const ");
            push_str(&mut out, p.name.as_str());
            push_str(&mut out, ": ");
            let t = render_type(type_);
            push_str(&mut out, t.as_str());
            out
        },
    }
}

/// Renders bounds joined by ` + `, leaving out empty renderings.
pub fn render_bounds(bounds: &Vec<GenericBound>) -> (r: String)
    ensures
        r@ == bounds_text(bounds@),
{
    let parts = render_bound_list(bounds);
    join_strings(&parts, " + ")
}

/// The non-empty renderings of some bounds.
fn render_bound_list(bounds: &Vec<GenericBound>) -> (r: Vec<String>)
    ensures
        strings_view(r@) == bound_list(bounds@),
    decreases bounds,
{
    let mut out: Vec<String> = Vec::new();
    let mut i: usize = 0;
    while i < bounds.len()
        invariant
            i <= bounds@.len(),
            strings_view(out@) == bound_list(bounds@.take(i as int)),
        decreases bounds@.len() - i,
    {
        assert(bounds@.take(i + 1).drop_last() =~= bounds@.take(i as int));
        let b = render_bound(&bounds[i]);
        if !b.as_str().is_empty() {
            out.push(b);
            assert(strings_view(out@) =~= bound_list(bounds@.take(i as int)).push(
                bound_text(bounds@[i as int]),
            ));
        }
        i = i + 1;
    }
    assert(bounds@.take(i as int) =~= bounds@);
    out
}

/// Renders one bound.
fn render_bound(b: &GenericBound) -> (r: String)
    ensures
        r@ == bound_text(*b),
    decreases b,
{
    match b {
        GenericBound::TraitBound { trait_ } => render_path(trait_),
        GenericBound::Outlives(l) => l.clone(),
        GenericBound::Use => "use<..>".to_owned(),
    }
}

/// Renders a path and its generic arguments.
pub fn render_path(path: &Path) -> (r: String)
    ensures
        r@ == path_text(*path),
    decreases path,
{
    let mut out = path.path.clone();
    if let Some(args) = &path.args {
        let a = render_args(args);
        push_str(&mut out, a.as_str());
    }
    out
}

/// Renders the generic arguments that follow a path.
fn render_args(args: &GenericArgs) -> (r: String)
    ensures
        r@ == args_text(*args),
    decreases args,
{
    match args {
        GenericArgs::AngleBracketed { args, constraints } => {
            let mut parts = render_arg_list(args);
            let cparts = render_constraint_list(constraints);
            let ghost first = parts@;
            let mut i: usize = 0;
            while i < cparts.len()
                invariant
                    i <= cparts@.len(),
                    parts@ == first + cparts@.take(i as int),
                decreases cparts@.len() - i,
            {
                parts.push(cparts[i].clone());
                assert(cparts@.take(i + 1) =~= cparts@.take(i as int).push(cparts@[i as int]));
                i = i + 1;
            }
            assert(cparts@.take(i as int) =~= cparts@);
            assert(strings_view(parts@) =~= strings_view(first) + strings_view(cparts@));
            if parts.len() > 0 {
                let mut out = String::new();
                push_str(&mut out, "<");
                let joined = join_strings(&parts, ", ");
                push_str(&mut out, joined.as_str());
                push_str(&mut out, ">");
                out
            } else {
                String::new()
            }
        },
        GenericArgs::Parenthesized { inputs, output } => {
            let mut out = String::new();
            push_str(&mut out, "(");
            let parts = render_type_list(inputs);
            let joined = join_strings(&parts, ", ");
            push_str(&mut out, joined.as_str());
            push_str(&mut out, ")");
            if let Some(o) = output {
                push_str(&mut out, " -> ");
                let t = render_type(o);
                push_str(&mut out, t.as_str());
            }
            out
        },
        GenericArgs::ReturnTypeNotation => String::new(),
    }
}

/// Renders generic arguments, in order.
fn render_arg_list(args: &Vec<GenericArg>) -> (r: Vec<String>)
    ensures
        strings_view(r@) == arg_list(args@),
    decreases args,
{
    let mut out: Vec<String> = Vec::new();
    let mut i: usize = 0;
    while i < args.len()
        invariant
            i <= args@.len(),
            strings_view(out@) == arg_list(args@.take(i as int)),
        decreases args@.len() - i,
    {
        assert(args@.take(i + 1).drop_last() =~= args@.take(i as int));
        let a = render_generic_arg(&args[i]);
        out.push(a);
        assert(strings_view(out@) =~= arg_list(args@.take(i as int)).push(
            arg_text(args@[i as int]),
        ));
        i = i + 1;
    }
    assert(args@.take(i as int) =~= args@);
    out
}

/// Renders associated item constraints, in order.
fn render_constraint_list(cs: &Vec<AssocItemConstraint>) -> (r: Vec<String>)
    ensures
        strings_view(r@) == constraint_list(cs@),
    decreases cs,
{
    let mut out: Vec<String> = Vec::new();
    let mut i: usize = 0;
    while i < cs.len()
        invariant
            i <= cs@.len(),
            strings_view(out@) == constraint_list(cs@.take(i as int)),
        decreases cs@.len() - i,
    {
        assert(cs@.take(i + 1).drop_last() =~= cs@.take(i as int));
        let c = render_constraint(&cs[i]);
        out.push(c);
        assert(strings_view(out@) =~= constraint_list(cs@.take(i as int)).push(
            constraint_text(cs@[i as int]),
        ));
        i = i + 1;
    }
    assert(cs@.take(i as int) =~= cs@);
    out
}

/// Renders one associated item constraint.
fn render_constraint(c: &AssocItemConstraint) -> (r: String)
    ensures
        r@ == constraint_text(*c),
    decreases c,
{
    let mut out = c.name.clone();
    match &c.binding {
        AssocItemConstraintKind::Equality(term) => {
            push_str(&mut out, " = ");
            let t = render_term(term);
            push_str(&mut out, t.as_str());
        },
        AssocItemConstraintKind::Constraint(bounds) => {
            push_str(&mut out, ": ");
            let parts = render_bound_list(bounds);
            let b = join_strings(&parts, " + ");
            push_str(&mut out, b.as_str());
        },
    }
    out
}

/// Renders one generic argument.
fn render_generic_arg(arg: &GenericArg) -> (r: String)
    ensures
        r@ == arg_text(*arg),
    decreases arg,
{
    match arg {
        GenericArg::Lifetime(l) => l.clone(),
        GenericArg::Type(t) => render_type(t),
        GenericArg::Const(c) => render_const_value(c),
        GenericArg::Infer => "_".to_owned(),
    }
}

/// A constant's value when known, else its expression.
fn render_const_value(c: &Constant) -> (r: String)
    ensures
        r@ == const_text(*c),
{
    if let Some(value) = &c.value {
        value.clone()
    } else {
        c.expr.clone()
    }
}

/// Renders a term.
fn render_term(term: &Term) -> (r: String)
    ensures
        r@ == term_text(*term),
    decreases term,
{
    match term {
        Term::Type(t) => render_type(t),
        Term::Constant(c) => render_const_value(c),
    }
}

/// Renders some types, in order.
fn render_type_list(ts: &Vec<Type>) -> (r: Vec<String>)
    ensures
        strings_view(r@) == type_list(ts@),
    decreases ts,
{
    let mut out: Vec<String> = Vec::new();
    let mut i: usize = 0;
    while i < ts.len()
        invariant
            i <= ts@.len(),
            strings_view(out@) == type_list(ts@.take(i as int)),
        decreases ts@.len() - i,
    {
        assert(ts@.take(i + 1).drop_last() =~= ts@.take(i as int));
        let t = render_type(&ts[i]);
        out.push(t);
        assert(strings_view(out@) =~= type_list(ts@.take(i as int)).push(
            type_text(ts@[i as int]),
        ));
        i = i + 1;
    }
    assert(ts@.take(i as int) =~= ts@);
    out
}

/// Renders the parameter types of a signature, in order.
fn render_input_type_list(inputs: &Vec<(String, Type)>) -> (r: Vec<String>)
    ensures
        strings_view(r@) == input_type_list(inputs@),
    decreases inputs,
{
    let mut out: Vec<String> = Vec::new();
    let mut i: usize = 0;
    while i < inputs.len()
        invariant
            i <= inputs@.len(),
            strings_view(out@) == input_type_list(inputs@.take(i as int)),
        decreases inputs@.len() - i,
    {
        assert(inputs@.take(i + 1).drop_last() =~= inputs@.take(i as int));
        let t = render_type(&inputs[i].1);
        out.push(t);
        assert(strings_view(out@) =~= input_type_list(inputs@.take(i as int)).push(
            type_text(inputs@[i as int].1),
        ));
        i = i + 1;
    }
    assert(inputs@.take(i as int) =~= inputs@);
    out
}

/// Renders the trait paths of a `dyn` type, in order.
fn render_poly_list(ps: &Vec<PolyTrait>) -> (r: Vec<String>)
    ensures
        strings_view(r@) == poly_list(ps@),
    decreases ps,
{
    let mut out: Vec<String> = Vec::new();
    let mut i: usize = 0;
    while i < ps.len()
        invariant
            i <= ps@.len(),
            strings_view(out@) == poly_list(ps@.take(i as int)),
        decreases ps@.len() - i,
    {
        assert(ps@.take(i + 1).drop_last() =~= ps@.take(i as int));
        let t = render_path(&ps[i].trait_);
        out.push(t);
        assert(strings_view(out@) =~= poly_list(ps@.take(i as int)).push(
            path_text(ps@[i as int].trait_),
        ));
        i = i + 1;
    }
    assert(ps@.take(i as int) =~= ps@);
    out
}

/// Renders a type.
pub fn render_type(t: &Type) -> (r: String)
    ensures
        r@ == type_text(*t),
    decreases t,
{
    match t {
        Type::ResolvedPath(p) => render_path(p),
        Type::DynTrait(d) => render_dyn(d),
        Type::Generic(s) => s.clone(),
        Type::Primitive(s) => s.clone(),
        Type::FunctionPointer(fp) => {
            let inputs = render_input_type_list(&fp.sig.inputs);
            let mut out = String::new();
            push_str(&mut out, "fn(");
            let joined = join_strings(&inputs, ", ");
            push_str(&mut out, joined.as_str());
            push_str(&mut out, ")");
            if let Some(output) = &fp.sig.output {
                push_str(&mut out, " -> ");
                let o = render_type(output);
                push_str(&mut out, o.as_str());
            }
            out
        },
        Type::Tuple(ts) => {
            let inner = render_type_list(ts);
            let mut out = String::new();
            push_str(&mut out, "(");
            let joined = join_strings(&inner, ", ");
            push_str(&mut out, joined.as_str());
            push_str(&mut out, ")");
            out
        },
        Type::Slice(inner) => {
            let mut out = String::new();
            push_str(&mut out, "[");
            let i = render_type(inner);
            push_str(&mut out, i.as_str());
            push_str(&mut out, "]");
            out
        },
        Type::Array { type_, len } => {
            let mut out = String::new();
            push_str(&mut out, "[");
            let i = render_type(type_);
            push_str(&mut out, i.as_str());
            push_str(&mut out, "; ");
            push_str(&mut out, len.as_str());
            push_str(&mut out, "]");
            out
        },
        Type::Pat { type_ } => render_type(type_),
        Type::ImplTrait(bounds) => {
            let parts = render_bound_list(bounds);
            let rendered = join_strings(&parts, " + ");
            if rendered.as_str().is_empty() {
                "impl Trait".to_owned()
            } else {
                let mut out = String::new();
                push_str(&mut out, "impl ");
                push_str(&mut out, rendered.as_str());
                out
            }
        },
        Type::Infer => "_".to_owned(),
        Type::RawPointer { is_mutable, type_ } => {
            let mut out = String::new();
            if *is_mutable {
                push_str(&mut out, "*mut ");
            } else {
                push_str(&mut out, "*const ");
            }
            let i = render_type(type_);
            push_str(&mut out, i.as_str());
            out
        },
        Type::BorrowedRef { lifetime, is_mutable, type_ } => {
            let mut out = String::new();
            push_str(&mut out, "&");
            if let Some(l) = lifetime {
                push_str(&mut out, "'");
                push_str(&mut out, l.as_str());
                push_str(&mut out, " ");
            }
            if *is_mutable {
                push_str(&mut out, "mut ");
            }
            let i = render_type(type_);
            push_str(&mut out, i.as_str());
            out
        },
        Type::QualifiedPath { name, args, self_type, trait_ } => {
            let mut base = render_type(self_type);
            if let Some(path) = trait_ {
                push_str(&mut base, " as ");
                let p = render_path(path);
                push_str(&mut base, p.as_str());
            }
            let mut out = String::new();
            push_str(&mut out, "<");
            push_str(&mut out, base.as_str());
            push_str(&mut out, ">::");
            push_str(&mut out, name.as_str());
            if let Some(a) = args {
                match &**a {
                    GenericArgs::AngleBracketed { args, .. } => {
                        let parts = render_arg_list(args);
                        if parts.len() > 0 {
                            push_str(&mut out, "<");
                            let joined = join_strings(&parts, ", ");
                            push_str(&mut out, joined.as_str());
                            push_str(&mut out, ">");
                        }
                    },
                    _ => {},
                }
            }
            out
        },
    }
}

/// Renders a `dyn` type.
fn render_dyn(d: &DynTrait) -> (r: String)
    ensures
        r@ == type_text(Type::DynTrait(*d)),
    decreases d,
{
    let traits = render_poly_list(&d.traits);
    let joined = join_strings(&traits, " + ");
    let mut out = String::new();
    push_str(&mut out, "dyn ");
    push_str(&mut out, joined.as_str());
    if let Some(l) = &d.lifetime {
        push_str(&mut out, " + ");
        push_str(&mut out, l.as_str());
    }
    out
}

proof fn lemma_arg_list(args: Seq<GenericArg>)
    ensures
        arg_list(args) == args.map_values(|g: GenericArg| arg_text(g)),
    decreases args.len(),
{
    if args.len() > 0 {
        lemma_arg_list(args.drop_last());
        assert(args.map_values(|g: GenericArg| arg_text(g)) =~= args.drop_last().map_values(
            |g: GenericArg| arg_text(g),
        ).push(arg_text(args.last())));
    } else {
        assert(args.map_values(|g: GenericArg| arg_text(g)) =~= Seq::<Seq<char>>::empty());
    }
}

proof fn lemma_constraint_list(cs: Seq<AssocItemConstraint>)
    ensures
        constraint_list(cs) == cs.map_values(|c: AssocItemConstraint| constraint_text(c)),
    decreases cs.len(),
{
    if cs.len() > 0 {
        lemma_constraint_list(cs.drop_last());
        assert(cs.map_values(|c: AssocItemConstraint| constraint_text(c)) =~= cs.drop_last().map_values(
            |c: AssocItemConstraint| constraint_text(c),
        ).push(constraint_text(cs.last())));
    } else {
        assert(cs.map_values(|c: AssocItemConstraint| constraint_text(c)) =~= Seq::<Seq<char>>::empty());
    }
}

/// A resolved path with angle-bracketed generic arguments renders as the
/// path, `<`, the rendering of each argument and then of each associated
/// item constraint, in order and separated by `, `, and `>` (`Vec<u8>`,
/// `HashMap<K, V>`, `Iterator<Item = T>`); with none, as the bare path.
pub proof fn law_path_renders_its_arguments(
    path: String,
    id: u32,
    args: Vec<GenericArg>,
    constraints: Vec<AssocItemConstraint>,
)
    ensures
        ({
            let t = Type::ResolvedPath(
                Path {
                    path,
                    id,
                    args: Some(Box::new(GenericArgs::AngleBracketed { args, constraints })),
                },
            );
            let parts = args@.map_values(|g: GenericArg| arg_text(g)) + constraints@.map_values(
                |c: AssocItemConstraint| constraint_text(c),
            );
            type_text(t) == if parts.len() > 0 {
                path@ + "<"@ + join(parts, ", "@) + ">"@
            } else {
                path@
            }
        }),
{
    lemma_arg_list(args@);
    lemma_constraint_list(constraints@);
    let a = GenericArgs::AngleBracketed { args, constraints };
    let pp = Path { path, id, args: Some(Box::new(a)) };
    let t = Type::ResolvedPath(pp);
    let parts = args@.map_values(|g: GenericArg| arg_text(g)) + constraints@.map_values(
        |c: AssocItemConstraint| constraint_text(c),
    );
    assert(arg_list(args@) + constraint_list(constraints@) == parts);
    assert(type_text(t) == path_text(pp));
    assert(path_text(pp) == path@ + args_text(a));
    if parts.len() == 0 {
        assert(path@ + Seq::<char>::empty() =~= path@);
    }
}

} // verus!
