//! The code that the `method_taskifier_impl` attribute generates, written as
//! a sequence of pieces: text of the generated code, string literals, and
//! fragments, which stand for tokens of the user's input (types, patterns,
//! paths, attributes, method bodies) that are spliced back unchanged.  Every
//! generating function is specified by a spec function that lists the pieces.
use vstd::prelude::*;
use super::args::TaskifierArgs;
use super::names::{
    client_messages, client_prefix, executing_task_message, pascal_case, sending_result_message, task_names,
    task_names_spec,
};
use super::plan::{
    awaits_worker_call, derives_serde, executor_awaits_channeled_execution, executor_method_is_async,
    executor_method_is_async_spec, ExecutorMethod, GeneratedItem,
};

verus! {

/// One piece of generated code.
pub enum CodePiece {
    /// Text of the generated code, in Rust syntax.
    Text(String),
    /// A string literal with this content.
    StrLit(String),
    /// The user's tokens at this index of the caller's fragment table.
    Fragment(usize),
}

/// The content of a piece.
pub enum PieceView {
    Text(Seq<char>),
    StrLit(Seq<char>),
    Fragment(usize),
}

impl View for CodePiece {
    type V = PieceView;

    open spec fn view(&self) -> PieceView {
        match self {
            CodePiece::Text(s) => PieceView::Text(s@),
            CodePiece::StrLit(s) => PieceView::StrLit(s@),
            CodePiece::Fragment(i) => PieceView::Fragment(*i),
        }
    }
}

/// What the generator needs of one worker method; the `usize` fields are
/// fragment indices.
pub struct WorkerSig {
    /// The method's name.
    pub name: String,
    /// The method's identifier.
    pub ident: usize,
    /// Whether the method is `async`.
    pub is_async: bool,
    /// The qualifiers written before `fn` (`const`, `unsafe`, `extern`), without `async`.
    pub qualifiers: usize,
    /// The generic parameters.
    pub generics: usize,
    /// The `where` clause.
    pub where_clause: usize,
    /// For each input other than the receiver: its pattern and the whole typed argument.
    pub params: Vec<(usize, usize)>,
    /// The declared return type, if any.
    pub output: Option<usize>,
}

pub struct WorkerSigView {
    pub name: Seq<char>,
    pub ident: usize,
    pub is_async: bool,
    pub qualifiers: usize,
    pub generics: usize,
    pub where_clause: usize,
    pub params: Seq<(usize, usize)>,
    pub output: Option<usize>,
}

impl View for WorkerSig {
    type V = WorkerSigView;

    open spec fn view(&self) -> WorkerSigView {
        WorkerSigView {
            name: self.name@,
            ident: self.ident,
            is_async: self.is_async,
            qualifiers: self.qualifiers,
            generics: self.generics,
            where_clause: self.where_clause,
            params: self.params@,
            output: self.output,
        }
    }
}

pub open spec fn pieces(v: Seq<CodePiece>) -> Seq<PieceView> {
    v.map_values(|p: CodePiece| p@)
}

pub open spec fn sigs_view(v: Seq<WorkerSig>) -> Seq<WorkerSigView> {
    v.map_values(|s: WorkerSig| s@)
}

pub open spec fn txt(s: Seq<char>) -> PieceView {
    PieceView::Text(s)
}

pub open spec fn lit(s: Seq<char>) -> PieceView {
    PieceView::StrLit(s)
}

pub open spec fn frag(i: usize) -> PieceView {
    PieceView::Fragment(i)
}

/// The pieces of every item, one after the other.
pub open spec fn concat_map<A>(items: Seq<A>, f: spec_fn(A) -> Seq<PieceView>) -> Seq<PieceView>
    decreases items.len(),
{
    if items.len() == 0 {
        Seq::empty()
    } else {
        concat_map(items.drop_last(), f) + f(items.last())
    }
}

/// The pieces of every item, with `sep` between neighbours.
pub open spec fn join_map<A>(items: Seq<A>, f: spec_fn(A) -> Seq<PieceView>, sep: Seq<PieceView>) -> Seq<PieceView>
    decreases items.len(),
{
    if items.len() == 0 {
        Seq::empty()
    } else if items.len() == 1 {
        f(items[0])
    } else {
        join_map(items.drop_last(), f, sep) + sep + f(items.last())
    }
}

proof fn lemma_concat_map_step<A>(items: Seq<A>, f: spec_fn(A) -> Seq<PieceView>, i: int)
    requires
        0 <= i < items.len(),
    ensures
        concat_map(items.take(i + 1), f) == concat_map(items.take(i), f) + f(items[i]),
{
    assert(items.take(i + 1).drop_last() =~= items.take(i));
}

proof fn lemma_join_map_step<A>(items: Seq<A>, f: spec_fn(A) -> Seq<PieceView>, sep: Seq<PieceView>, i: int)
    requires
        0 <= i < items.len(),
    ensures
        i == 0 ==> join_map(items.take(i + 1), f, sep) == f(items[i]),
        i > 0 ==> join_map(items.take(i + 1), f, sep) == join_map(items.take(i), f, sep) + sep + f(items[i]),
{
    assert(items.take(i + 1).drop_last() =~= items.take(i));
}

proof fn lemma_take_all<A>(items: Seq<A>)
    ensures
        items.take(items.len() as int) == items,
{
    assert(items.take(items.len() as int) =~= items);
}

fn push_text(out: &mut Vec<CodePiece>, s: &str)
    ensures
        pieces(final(out)@) == pieces(old(out)@).push(txt(s@)),
{
    out.push(CodePiece::Text(String::from_str(s)));
    proof {
        assert(pieces(out@) =~= pieces(old(out)@).push(txt(s@)));
    }
}

fn push_string(out: &mut Vec<CodePiece>, s: &String)
    ensures
        pieces(final(out)@) == pieces(old(out)@).push(txt(s@)),
{
    out.push(CodePiece::Text(s.clone()));
    proof {
        assert(pieces(out@) =~= pieces(old(out)@).push(txt(s@)));
    }
}

fn push_lit(out: &mut Vec<CodePiece>, s: &String)
    ensures
        pieces(final(out)@) == pieces(old(out)@).push(lit(s@)),
{
    out.push(CodePiece::StrLit(s.clone()));
    proof {
        assert(pieces(out@) =~= pieces(old(out)@).push(lit(s@)));
    }
}

fn push_frag(out: &mut Vec<CodePiece>, i: usize)
    ensures
        pieces(final(out)@) == pieces(old(out)@).push(frag(i)),
{
    out.push(CodePiece::Fragment(i));
    proof {
        assert(pieces(out@) =~= pieces(old(out)@).push(frag(i)));
    }
}

fn append(out: &mut Vec<CodePiece>, other: Vec<CodePiece>)
    ensures
        pieces(final(out)@) == pieces(old(out)@) + pieces(other@),
{
    let mut other = other;
    let ghost o = other@;
    out.append(&mut other);
    proof {
        assert(pieces(out@) =~= pieces(old(out)@) + pieces(o));
    }
}

/// `#[derive(::serde::Serialize, ::serde::Deserialize)]` when `on`.
pub open spec fn serde_derive_spec(on: bool) -> Seq<PieceView> {
    if on { seq![txt("#[derive(::serde::Serialize, ::serde::Deserialize)]"@)] } else { Seq::empty() }
}

fn emit_serde(out: &mut Vec<CodePiece>, on: bool)
    ensures
        pieces(final(out)@) == pieces(old(out)@) + serde_derive_spec(on),
{
    if on {
        push_text(out, "#[derive(::serde::Serialize, ::serde::Deserialize)]");
    }
    proof {
        assert(pieces(out@) =~= pieces(old(out)@) + serde_derive_spec(on));
    }
}

/// `async` when `on`.
pub open spec fn async_spec(on: bool) -> Seq<PieceView> {
    if on { seq![txt("async"@)] } else { Seq::empty() }
}

fn emit_async(out: &mut Vec<CodePiece>, on: bool)
    ensures
        pieces(final(out)@) == pieces(old(out)@) + async_spec(on),
{
    if on {
        push_text(out, "async");
    }
    proof {
        assert(pieces(out@) =~= pieces(old(out)@) + async_spec(on));
    }
}

/// `.await` when `on`.
pub open spec fn await_spec(on: bool) -> Seq<PieceView> {
    if on { seq![txt(".await"@)] } else { Seq::empty() }
}

fn emit_await(out: &mut Vec<CodePiece>, on: bool)
    ensures
        pieces(final(out)@) == pieces(old(out)@) + await_spec(on),
{
    if on {
        push_text(out, ".await");
    }
    proof {
        assert(pieces(out@) =~= pieces(old(out)@) + await_spec(on));
    }
}

/// The result type of a worker method: its declared return type, or `()`.
pub open spec fn result_type_spec(output: Option<usize>) -> Seq<PieceView> {
    match output {
        Some(o) => seq![frag(o)],
        None => seq![txt("()"@)],
    }
}

fn emit_result_type(out: &mut Vec<CodePiece>, output: Option<usize>)
    ensures
        pieces(final(out)@) == pieces(old(out)@) + result_type_spec(output),
{
    match output {
        Some(o) => push_frag(out, o),
        None => push_text(out, "()"),
    }
    proof {
        assert(pieces(out@) =~= pieces(old(out)@) + result_type_spec(output));
    }
}

pub open spec fn comma() -> Seq<PieceView> {
    seq![txt(","@)]
}

/// A parameter as a public struct field: `pub <typed argument>,`.
pub open spec fn field_fn() -> spec_fn((usize, usize)) -> Seq<PieceView> {
    |p: (usize, usize)| seq![txt("pub"@), frag(p.1), txt(","@)]
}

/// A parameter as a typed argument.
pub open spec fn arg_fn() -> spec_fn((usize, usize)) -> Seq<PieceView> {
    |p: (usize, usize)| seq![frag(p.1)]
}

/// A parameter as a pattern.
pub open spec fn pat_fn() -> spec_fn((usize, usize)) -> Seq<PieceView> {
    |p: (usize, usize)| seq![frag(p.0)]
}

/// A parameter as a typed argument after a receiver: `, <typed argument>`.
pub open spec fn receiver_arg_fn() -> spec_fn((usize, usize)) -> Seq<PieceView> {
    |p: (usize, usize)| seq![txt(","@), frag(p.1)]
}

fn emit_fields(out: &mut Vec<CodePiece>, params: &Vec<(usize, usize)>)
    ensures
        pieces(final(out)@) == pieces(old(out)@) + concat_map(params@, field_fn()),
{
    let ghost base = pieces(out@);
    let mut i: usize = 0;
    assert(concat_map(params@.take(0), field_fn()) =~= Seq::<PieceView>::empty());
    assert(pieces(out@) =~= base + concat_map(params@.take(0), field_fn()));
    while i < params.len()
        invariant
            i <= params@.len(),
            pieces(out@) == base + concat_map(params@.take(i as int), field_fn()),
        decreases params@.len() - i,
    {
        let p = params[i];
        push_text(out, "pub");
        push_frag(out, p.1);
        push_text(out, ",");
        proof {
            lemma_concat_map_step(params@, field_fn(), i as int);
            assert(pieces(out@) =~= base + concat_map(params@.take(i + 1), field_fn()));
        }
        i = i + 1;
    }
    proof {
        lemma_take_all(params@);
    }
}

fn emit_receiver_args(out: &mut Vec<CodePiece>, params: &Vec<(usize, usize)>)
    ensures
        pieces(final(out)@) == pieces(old(out)@) + concat_map(params@, receiver_arg_fn()),
{
    let ghost base = pieces(out@);
    let mut i: usize = 0;
    assert(concat_map(params@.take(0), receiver_arg_fn()) =~= Seq::<PieceView>::empty());
    assert(pieces(out@) =~= base + concat_map(params@.take(0), receiver_arg_fn()));
    while i < params.len()
        invariant
            i <= params@.len(),
            pieces(out@) == base + concat_map(params@.take(i as int), receiver_arg_fn()),
        decreases params@.len() - i,
    {
        let p = params[i];
        push_text(out, ",");
        push_frag(out, p.1);
        proof {
            lemma_concat_map_step(params@, receiver_arg_fn(), i as int);
            assert(pieces(out@) =~= base + concat_map(params@.take(i + 1), receiver_arg_fn()));
        }
        i = i + 1;
    }
    proof {
        lemma_take_all(params@);
    }
}

/// The parameters joined with commas, as typed arguments (`typed`) or as
/// patterns.
pub open spec fn param_list(params: Seq<(usize, usize)>, typed: bool) -> Seq<PieceView> {
    join_map(params, if typed { arg_fn() } else { pat_fn() }, comma())
}

fn emit_param_list(out: &mut Vec<CodePiece>, params: &Vec<(usize, usize)>, typed: bool)
    ensures
        pieces(final(out)@) == pieces(old(out)@) + param_list(params@, typed),
{
    let ghost f = if typed { arg_fn() } else { pat_fn() };
    let ghost base = pieces(out@);
    let mut i: usize = 0;
    assert(join_map(params@.take(0), f, comma()) =~= Seq::<PieceView>::empty());
    assert(pieces(out@) =~= base + join_map(params@.take(0), f, comma()));
    while i < params.len()
        invariant
            i <= params@.len(),
            f == (if typed { arg_fn() } else { pat_fn() }),
            pieces(out@) == base + join_map(params@.take(i as int), f, comma()),
        decreases params@.len() - i,
    {
        let p = params[i];
        if i > 0 {
            push_text(out, ",");
        }
        if typed {
            push_frag(out, p.1);
        } else {
            push_frag(out, p.0);
        }
        proof {
            lemma_join_map_step(params@, f, comma(), i as int);
            assert(pieces(out@) =~= base + join_map(params@.take(i + 1), f, comma()));
        }
        i = i + 1;
    }
    proof {
        lemma_take_all(params@);
    }
}

pub open spec fn variant_of(s: WorkerSigView) -> Seq<char> {
    task_names_spec(s.name, pascal_case(s.name)).0
}

pub open spec fn params_struct_of(s: WorkerSigView) -> Seq<char> {
    task_names_spec(s.name, pascal_case(s.name)).1
}

pub open spec fn result_struct_of(s: WorkerSigView) -> Seq<char> {
    task_names_spec(s.name, pascal_case(s.name)).2
}

pub open spec fn as_result_fn_of(s: WorkerSigView) -> Seq<char> {
    task_names_spec(s.name, pascal_case(s.name)).3
}

pub open spec fn sending_msg(s: WorkerSigView) -> Seq<char> {
    client_prefix(s.name) + ", sending task to workers"@
}

pub open spec fn waiting_msg(s: WorkerSigView) -> Seq<char> {
    client_prefix(s.name) + ", waiting for task result"@
}

pub open spec fn send_error_msg(s: WorkerSigView) -> Seq<char> {
    client_prefix(s.name) + ", msg = {:?}"@
}

pub open spec fn recv_error_msg(s: WorkerSigView) -> Seq<char> {
    client_prefix(s.name) + " response, msg = {:?}"@
}

pub open spec fn executing_msg(path_text: Seq<char>, s: WorkerSigView) -> Seq<char> {
    "Executing channeled task = {}::"@ + path_text + "::"@ + variant_of(s)
}

pub open spec fn sending_result_msg(path_text: Seq<char>, s: WorkerSigView) -> Seq<char> {
    "Sending channeled task result = {}::"@ + path_text + "::"@ + variant_of(s)
}

/// Whether any worker method is `async`.
pub open spec fn any_async(sigs: Seq<WorkerSigView>) -> bool {
    exists|i: int| 0 <= i < sigs.len() && #[trigger] sigs[i].is_async
}

fn has_async_worker_method(sigs: &Vec<WorkerSig>) -> (r: bool)
    ensures
        r == any_async(sigs_view(sigs@)),
{
    let ghost sv = sigs_view(sigs@);
    let mut i: usize = 0;
    while i < sigs.len()
        invariant
            i <= sigs@.len(),
            sv == sigs_view(sigs@),
            forall|k: int| 0 <= k < i ==> !(#[trigger] sv[k]).is_async,
        decreases sigs@.len() - i,
    {
        if sigs[i].is_async {
            assert(sv[i as int].is_async);
            return true;
        }
        i = i + 1;
    }
    false
}

/// A fragment on its own.
pub open spec fn fragment_fn() -> spec_fn(usize) -> Seq<PieceView> {
    |i: usize| seq![frag(i)]
}

fn emit_fragments(out: &mut Vec<CodePiece>, items: &Vec<usize>)
    ensures
        pieces(final(out)@) == pieces(old(out)@) + concat_map(items@, fragment_fn()),
{
    let ghost base = pieces(out@);
    let mut i: usize = 0;
    assert(concat_map(items@.take(0), fragment_fn()) =~= Seq::<PieceView>::empty());
    assert(pieces(out@) =~= base + concat_map(items@.take(0), fragment_fn()));
    while i < items.len()
        invariant
            i <= items@.len(),
            pieces(out@) == base + concat_map(items@.take(i as int), fragment_fn()),
        decreases items@.len() - i,
    {
        push_frag(out, items[i]);
        proof {
            lemma_concat_map_step(items@, fragment_fn(), i as int);
            assert(pieces(out@) =~= base + concat_map(items@.take(i + 1), fragment_fn()));
        }
        i = i + 1;
    }
    proof {
        lemma_take_all(items@);
    }
}

/// The pieces of the parameter struct and the result struct of a worker method.
pub open spec fn task_structs_spec(s: WorkerSigView, use_serde: bool) -> Seq<PieceView> {
    serde_derive_spec(use_serde)
        + seq![txt("pub struct"@), txt(params_struct_of(s)), txt("{"@)]
        + concat_map(s.params, field_fn())
        + seq![txt("}"@)]
        + serde_derive_spec(use_serde)
        + seq![txt("pub struct"@), txt(result_struct_of(s)), txt("(pub"@)]
        + result_type_spec(s.output)
        + seq![txt(");"@)]
}

/// Generates the parameter struct and the result struct of a worker method.
pub fn task_structs(sig: &WorkerSig, use_serde: bool) -> (r: Vec<CodePiece>)
    ensures
        pieces(r@) == task_structs_spec(sig@, use_serde),
{
    let ghost s = sig@;
    let names = task_names(sig.name.as_str());
    let mut out: Vec<CodePiece> = Vec::new();
    assert(pieces(out@) =~= Seq::<PieceView>::empty());
    emit_serde(&mut out, derives_serde(use_serde, GeneratedItem::ParamsStruct));
    assert(pieces(out@) =~= Seq::<PieceView>::empty() + serde_derive_spec(use_serde));
    push_text(&mut out, "pub struct");
    push_string(&mut out, &names.params_struct);
    push_text(&mut out, "{");
    assert(pieces(out@) =~= Seq::<PieceView>::empty() + serde_derive_spec(use_serde) + seq![txt("pub struct"@), txt(params_struct_of(s)), txt("{"@)]);
    emit_fields(&mut out, &sig.params);
    assert(pieces(out@) =~= Seq::<PieceView>::empty() + serde_derive_spec(use_serde) + seq![txt("pub struct"@), txt(params_struct_of(s)), txt("{"@)] + concat_map(s.params, field_fn()));
    push_text(&mut out, "}");
    assert(pieces(out@) =~= Seq::<PieceView>::empty() + serde_derive_spec(use_serde) + seq![txt("pub struct"@), txt(params_struct_of(s)), txt("{"@)] + concat_map(s.params, field_fn()) + seq![txt("}"@)]);
    emit_serde(&mut out, derives_serde(use_serde, GeneratedItem::ResultStruct));
    assert(pieces(out@) =~= Seq::<PieceView>::empty() + serde_derive_spec(use_serde) + seq![txt("pub struct"@), txt(params_struct_of(s)), txt("{"@)] + concat_map(s.params, field_fn()) + seq![txt("}"@)] + serde_derive_spec(use_serde));
    push_text(&mut out, "pub struct");
    push_string(&mut out, &names.result_struct);
    push_text(&mut out, "(pub");
    assert(pieces(out@) =~= Seq::<PieceView>::empty() + serde_derive_spec(use_serde) + seq![txt("pub struct"@), txt(params_struct_of(s)), txt("{"@)] + concat_map(s.params, field_fn()) + seq![txt("}"@)] + serde_derive_spec(use_serde) + seq![txt("pub struct"@), txt(result_struct_of(s)), txt("(pub"@)]);
    emit_result_type(&mut out, sig.output);
    assert(pieces(out@) =~= Seq::<PieceView>::empty() + serde_derive_spec(use_serde) + seq![txt("pub struct"@), txt(params_struct_of(s)), txt("{"@)] + concat_map(s.params, field_fn()) + seq![txt("}"@)] + serde_derive_spec(use_serde) + seq![txt("pub struct"@), txt(result_struct_of(s)), txt("(pub"@)] + result_type_spec(s.output));
    push_text(&mut out, ");");
    assert(pieces(out@) =~= Seq::<PieceView>::empty() + serde_derive_spec(use_serde) + seq![txt("pub struct"@), txt(params_struct_of(s)), txt("{"@)] + concat_map(s.params, field_fn()) + seq![txt("}"@)] + serde_derive_spec(use_serde) + seq![txt("pub struct"@), txt(result_struct_of(s)), txt("(pub"@)] + result_type_spec(s.output) + seq![txt(");"@)]);
    out
}

/// The pieces of the variant of `Task` for a worker method.
pub open spec fn task_variant_spec(s: WorkerSigView) -> Seq<PieceView> {
    seq![txt(variant_of(s)), txt("("@), txt(params_struct_of(s)), txt(")"@)]
}

/// Generates the variant of `Task` for a worker method.
pub fn task_variant(sig: &WorkerSig) -> (r: Vec<CodePiece>)
    ensures
        pieces(r@) == task_variant_spec(sig@),
{
    let ghost s = sig@;
    let names = task_names(sig.name.as_str());
    let mut out: Vec<CodePiece> = Vec::new();
    assert(pieces(out@) =~= Seq::<PieceView>::empty());
    push_string(&mut out, &names.variant);
    push_text(&mut out, "(");
    push_string(&mut out, &names.params_struct);
    push_text(&mut out, ")");
    assert(pieces(out@) =~= Seq::<PieceView>::empty() + seq![txt(variant_of(s)), txt("("@), txt(params_struct_of(s)), txt(")"@)]);
    out
}

/// The pieces of the variant of `TaskResult` for a worker method.
pub open spec fn task_result_variant_spec(s: WorkerSigView) -> Seq<PieceView> {
    seq![txt(variant_of(s)), txt("("@), txt(result_struct_of(s)), txt(")"@)]
}

/// Generates the variant of `TaskResult` for a worker method.
pub fn task_result_variant(sig: &WorkerSig) -> (r: Vec<CodePiece>)
    ensures
        pieces(r@) == task_result_variant_spec(sig@),
{
    let ghost s = sig@;
    let names = task_names(sig.name.as_str());
    let mut out: Vec<CodePiece> = Vec::new();
    assert(pieces(out@) =~= Seq::<PieceView>::empty());
    push_string(&mut out, &names.variant);
    push_text(&mut out, "(");
    push_string(&mut out, &names.result_struct);
    push_text(&mut out, ")");
    assert(pieces(out@) =~= Seq::<PieceView>::empty() + seq![txt(variant_of(s)), txt("("@), txt(result_struct_of(s)), txt(")"@)]);
    out
}

/// The pieces of the variant of `ChanneledTask` for a worker method: its parameters and the sender of its result.
pub open spec fn channeled_task_variant_spec(s: WorkerSigView) -> Seq<PieceView> {
    seq![txt(variant_of(s)), txt("{ params:"@), txt(params_struct_of(s)), txt(", result_sender: ::tokio::sync::oneshot::Sender<"@), txt(result_struct_of(s)), txt(">, }"@)]
}

/// Generates the variant of `ChanneledTask` for a worker method: its parameters and the sender of its result.
pub fn channeled_task_variant(sig: &WorkerSig) -> (r: Vec<CodePiece>)
    ensures
        pieces(r@) == channeled_task_variant_spec(sig@),
{
    let ghost s = sig@;
    let names = task_names(sig.name.as_str());
    let mut out: Vec<CodePiece> = Vec::new();
    assert(pieces(out@) =~= Seq::<PieceView>::empty());
    push_string(&mut out, &names.variant);
    push_text(&mut out, "{ params:");
    push_string(&mut out, &names.params_struct);
    push_text(&mut out, ", result_sender: ::tokio::sync::oneshot::Sender<");
    push_string(&mut out, &names.result_struct);
    push_text(&mut out, ">, }");
    assert(pieces(out@) =~= Seq::<PieceView>::empty() + seq![txt(variant_of(s)), txt("{ params:"@), txt(params_struct_of(s)), txt(", result_sender: ::tokio::sync::oneshot::Sender<"@), txt(result_struct_of(s)), txt(">, }"@)]);
    out
}

/// The pieces of the accessor of `TaskResult` for a worker method.
pub open spec fn as_result_function_spec(s: WorkerSigView) -> Seq<PieceView> {
    seq![txt("pub fn"@), txt(as_result_fn_of(s)), txt("(&self) -> Option<&self::"@), txt(result_struct_of(s)), txt("> { if let self::TaskResult::"@), txt(variant_of(s)), txt("(result) = self { Some(result) } else { None } }"@)]
}

/// Generates the accessor of `TaskResult` for a worker method.
pub fn as_result_function(sig: &WorkerSig) -> (r: Vec<CodePiece>)
    ensures
        pieces(r@) == as_result_function_spec(sig@),
{
    let ghost s = sig@;
    let names = task_names(sig.name.as_str());
    let mut out: Vec<CodePiece> = Vec::new();
    assert(pieces(out@) =~= Seq::<PieceView>::empty());
    push_text(&mut out, "pub fn");
    push_string(&mut out, &names.as_result_fn);
    push_text(&mut out, "(&self) -> Option<&self::");
    push_string(&mut out, &names.result_struct);
    push_text(&mut out, "> { if let self::TaskResult::");
    push_string(&mut out, &names.variant);
    push_text(&mut out, "(result) = self { Some(result) } else { None } }");
    assert(pieces(out@) =~= Seq::<PieceView>::empty() + seq![txt("pub fn"@), txt(as_result_fn_of(s)), txt("(&self) -> Option<&self::"@), txt(result_struct_of(s)), txt("> { if let self::TaskResult::"@), txt(variant_of(s)), txt("(result) = self { Some(result) } else { None } }"@)]);
    out
}

/// The pieces of the constructor of `Task` for a worker method, named after the method.
pub open spec fn task_builder_spec(s: WorkerSigView) -> Seq<PieceView> {
    seq![txt("pub fn"@), frag(s.ident), txt("("@)]
        + param_list(s.params, true)
        + seq![txt(") -> self::Task { self::Task::"@), txt(variant_of(s)), txt("( self::"@), txt(params_struct_of(s)), txt("{"@)]
        + param_list(s.params, false)
        + seq![txt("} ) }"@)]
}

/// Generates the constructor of `Task` for a worker method, named after the method.
pub fn task_builder(sig: &WorkerSig) -> (r: Vec<CodePiece>)
    ensures
        pieces(r@) == task_builder_spec(sig@),
{
    let ghost s = sig@;
    let names = task_names(sig.name.as_str());
    let mut out: Vec<CodePiece> = Vec::new();
    assert(pieces(out@) =~= Seq::<PieceView>::empty());
    push_text(&mut out, "pub fn");
    push_frag(&mut out, sig.ident);
    push_text(&mut out, "(");
    assert(pieces(out@) =~= Seq::<PieceView>::empty() + seq![txt("pub fn"@), frag(s.ident), txt("("@)]);
    emit_param_list(&mut out, &sig.params, true);
    assert(pieces(out@) =~= Seq::<PieceView>::empty() + seq![txt("pub fn"@), frag(s.ident), txt("("@)] + param_list(s.params, true));
    push_text(&mut out, ") -> self::Task { self::Task::");
    push_string(&mut out, &names.variant);
    push_text(&mut out, "( self::");
    push_string(&mut out, &names.params_struct);
    push_text(&mut out, "{");
    assert(pieces(out@) =~= Seq::<PieceView>::empty() + seq![txt("pub fn"@), frag(s.ident), txt("("@)] + param_list(s.params, true) + seq![txt(") -> self::Task { self::Task::"@), txt(variant_of(s)), txt("( self::"@), txt(params_struct_of(s)), txt("{"@)]);
    emit_param_list(&mut out, &sig.params, false);
    assert(pieces(out@) =~= Seq::<PieceView>::empty() + seq![txt("pub fn"@), frag(s.ident), txt("("@)] + param_list(s.params, true) + seq![txt(") -> self::Task { self::Task::"@), txt(variant_of(s)), txt("( self::"@), txt(params_struct_of(s)), txt("{"@)] + param_list(s.params, false));
    push_text(&mut out, "} ) }");
    assert(pieces(out@) =~= Seq::<PieceView>::empty() + seq![txt("pub fn"@), frag(s.ident), txt("("@)] + param_list(s.params, true) + seq![txt(") -> self::Task { self::Task::"@), txt(variant_of(s)), txt("( self::"@), txt(params_struct_of(s)), txt("{"@)] + param_list(s.params, false) + seq![txt("} ) }"@)]);
    out
}

/// The pieces of the header of the client's method for a worker method: not `async`, the receiver `&self`, and a future of the method's result or of `AllWorkersDroppedError`.
pub open spec fn client_function_head_spec(s: WorkerSigView) -> Seq<PieceView> {
    seq![txt("pub"@), frag(s.qualifiers), txt("fn"@), frag(s.ident), frag(s.generics), txt("(&self"@)]
        + concat_map(s.params, receiver_arg_fn())
        + seq![txt(")"@), frag(s.where_clause), txt("-> impl ::std::future::Future<Output = Result<"@)]
        + result_type_spec(s.output)
        + seq![txt(", ::method_taskifier::AllWorkersDroppedError>>"@)]
}

/// Generates the header of the client's method for a worker method: not `async`, the receiver `&self`, and a future of the method's result or of `AllWorkersDroppedError`.
pub fn client_function_head(sig: &WorkerSig) -> (r: Vec<CodePiece>)
    ensures
        pieces(r@) == client_function_head_spec(sig@),
{
    let ghost s = sig@;
    let mut out: Vec<CodePiece> = Vec::new();
    assert(pieces(out@) =~= Seq::<PieceView>::empty());
    push_text(&mut out, "pub");
    push_frag(&mut out, sig.qualifiers);
    push_text(&mut out, "fn");
    push_frag(&mut out, sig.ident);
    push_frag(&mut out, sig.generics);
    push_text(&mut out, "(&self");
    assert(pieces(out@) =~= Seq::<PieceView>::empty() + seq![txt("pub"@), frag(s.qualifiers), txt("fn"@), frag(s.ident), frag(s.generics), txt("(&self"@)]);
    emit_receiver_args(&mut out, &sig.params);
    assert(pieces(out@) =~= Seq::<PieceView>::empty() + seq![txt("pub"@), frag(s.qualifiers), txt("fn"@), frag(s.ident), frag(s.generics), txt("(&self"@)] + concat_map(s.params, receiver_arg_fn()));
    push_text(&mut out, ")");
    push_frag(&mut out, sig.where_clause);
    push_text(&mut out, "-> impl ::std::future::Future<Output = Result<");
    assert(pieces(out@) =~= Seq::<PieceView>::empty() + seq![txt("pub"@), frag(s.qualifiers), txt("fn"@), frag(s.ident), frag(s.generics), txt("(&self"@)] + concat_map(s.params, receiver_arg_fn()) + seq![txt(")"@), frag(s.where_clause), txt("-> impl ::std::future::Future<Output = Result<"@)]);
    emit_result_type(&mut out, sig.output);
    assert(pieces(out@) =~= Seq::<PieceView>::empty() + seq![txt("pub"@), frag(s.qualifiers), txt("fn"@), frag(s.ident), frag(s.generics), txt("(&self"@)] + concat_map(s.params, receiver_arg_fn()) + seq![txt(")"@), frag(s.where_clause), txt("-> impl ::std::future::Future<Output = Result<"@)] + result_type_spec(s.output));
    push_text(&mut out, ", ::method_taskifier::AllWorkersDroppedError>>");
    assert(pieces(out@) =~= Seq::<PieceView>::empty() + seq![txt("pub"@), frag(s.qualifiers), txt("fn"@), frag(s.ident), frag(s.generics), txt("(&self"@)] + concat_map(s.params, receiver_arg_fn()) + seq![txt(")"@), frag(s.where_clause), txt("-> impl ::std::future::Future<Output = Result<"@)] + result_type_spec(s.output) + seq![txt(", ::method_taskifier::AllWorkersDroppedError>>"@)]);
    out
}

/// The pieces of the body of the client's method for a worker method: it sends the channeled task, then awaits the result.
pub open spec fn client_function_body_spec(s: WorkerSigView) -> Seq<PieceView> {
    seq![txt("::log::trace!("@), lit(sending_msg(s)), txt(", module_path!());"@), txt("let (result_sender, result_receiver) = tokio::sync::oneshot::channel();"@), txt("let ret = self.task_sender.send(ChanneledTask::"@), txt(variant_of(s)), txt("{ params:"@), txt(params_struct_of(s)), txt("{"@)]
        + param_list(s.params, false)
        + seq![txt("}, result_sender, });"@), txt("async move {"@), txt("if let Err(e) = ret {"@), txt("::log::error!("@), lit(send_error_msg(s)), txt(", module_path!(), e);"@), txt("return Err(::method_taskifier::AllWorkersDroppedError);"@), txt("}"@), txt("::log::trace!("@), lit(waiting_msg(s)), txt(", module_path!());"@), txt("match result_receiver.await {"@), txt("Ok(ret) => Ok(ret.0),"@), txt("Err(e) => {"@), txt("::log::error!("@), lit(recv_error_msg(s)), txt(", module_path!(), e);"@), txt("Err(::method_taskifier::AllWorkersDroppedError)"@), txt("},"@), txt("} }"@)]
}

/// Generates the body of the client's method for a worker method: it sends the channeled task, then awaits the result.
pub fn client_function_body(sig: &WorkerSig) -> (r: Vec<CodePiece>)
    ensures
        pieces(r@) == client_function_body_spec(sig@),
{
    let ghost s = sig@;
    let names = task_names(sig.name.as_str());
    let msgs = client_messages(sig.name.as_str());
    let mut out: Vec<CodePiece> = Vec::new();
    assert(pieces(out@) =~= Seq::<PieceView>::empty());
    push_text(&mut out, "::log::trace!(");
    push_lit(&mut out, &msgs.sending_task);
    push_text(&mut out, ", module_path!());");
    push_text(&mut out, "let (result_sender, result_receiver) = tokio::sync::oneshot::channel();");
    push_text(&mut out, "let ret = self.task_sender.send(ChanneledTask::");
    push_string(&mut out, &names.variant);
    push_text(&mut out, "{ params:");
    push_string(&mut out, &names.params_struct);
    push_text(&mut out, "{");
    assert(pieces(out@) =~= Seq::<PieceView>::empty() + seq![txt("::log::trace!("@), lit(sending_msg(s)), txt(", module_path!());"@), txt("let (result_sender, result_receiver) = tokio::sync::oneshot::channel();"@), txt("let ret = self.task_sender.send(ChanneledTask::"@), txt(variant_of(s)), txt("{ params:"@), txt(params_struct_of(s)), txt("{"@)]);
    emit_param_list(&mut out, &sig.params, false);
    assert(pieces(out@) =~= Seq::<PieceView>::empty() + seq![txt("::log::trace!("@), lit(sending_msg(s)), txt(", module_path!());"@), txt("let (result_sender, result_receiver) = tokio::sync::oneshot::channel();"@), txt("let ret = self.task_sender.send(ChanneledTask::"@), txt(variant_of(s)), txt("{ params:"@), txt(params_struct_of(s)), txt("{"@)] + param_list(s.params, false));
    push_text(&mut out, "}, result_sender, });");
    push_text(&mut out, "async move {");
    push_text(&mut out, "if let Err(e) = ret {");
    push_text(&mut out, "::log::error!(");
    push_lit(&mut out, &msgs.send_error);
    push_text(&mut out, ", module_path!(), e);");
    push_text(&mut out, "return Err(::method_taskifier::AllWorkersDroppedError);");
    push_text(&mut out, "}");
    push_text(&mut out, "::log::trace!(");
    push_lit(&mut out, &msgs.waiting_for_result);
    push_text(&mut out, ", module_path!());");
    push_text(&mut out, "match result_receiver.await {");
    push_text(&mut out, "Ok(ret) => Ok(ret.0),");
    push_text(&mut out, "Err(e) => {");
    push_text(&mut out, "::log::error!(");
    push_lit(&mut out, &msgs.recv_error);
    push_text(&mut out, ", module_path!(), e);");
    push_text(&mut out, "Err(::method_taskifier::AllWorkersDroppedError)");
    push_text(&mut out, "},");
    push_text(&mut out, "} }");
    assert(pieces(out@) =~= Seq::<PieceView>::empty() + seq![txt("::log::trace!("@), lit(sending_msg(s)), txt(", module_path!());"@), txt("let (result_sender, result_receiver) = tokio::sync::oneshot::channel();"@), txt("let ret = self.task_sender.send(ChanneledTask::"@), txt(variant_of(s)), txt("{ params:"@), txt(params_struct_of(s)), txt("{"@)] + param_list(s.params, false) + seq![txt("}, result_sender, });"@), txt("async move {"@), txt("if let Err(e) = ret {"@), txt("::log::error!("@), lit(send_error_msg(s)), txt(", module_path!(), e);"@), txt("return Err(::method_taskifier::AllWorkersDroppedError);"@), txt("}"@), txt("::log::trace!("@), lit(waiting_msg(s)), txt(", module_path!());"@), txt("match result_receiver.await {"@), txt("Ok(ret) => Ok(ret.0),"@), txt("Err(e) => {"@), txt("::log::error!("@), lit(recv_error_msg(s)), txt(", module_path!(), e);"@), txt("Err(::method_taskifier::AllWorkersDroppedError)"@), txt("},"@), txt("} }"@)]);
    out
}

/// The pieces of the arm of the client's `execute_task` for a worker method.
pub open spec fn client_execute_arm_spec(s: WorkerSigView) -> Seq<PieceView> {
    seq![txt("self::Task::"@), txt(variant_of(s)), txt("(params) => {"@), txt("::log::trace!("@), lit(sending_msg(s)), txt(", module_path!());"@), txt("let (result_sender, result_receiver) = tokio::sync::oneshot::channel();"@), txt("let ret = self.task_sender.send(self::ChanneledTask::"@), txt(variant_of(s)), txt("{ params, result_sender });"@), txt("if let Err(e) = ret {"@), txt("::log::error!("@), lit(send_error_msg(s)), txt(", module_path!(), e);"@), txt("return Err(::method_taskifier::AllWorkersDroppedError);"@), txt("}"@), txt("::log::trace!("@), lit(waiting_msg(s)), txt(", module_path!());"@), txt("match result_receiver.await {"@), txt("Ok(ret) => Ok(self::TaskResult::"@), txt(variant_of(s)), txt("(ret)), Err(e) => { ::log::error!("@), lit(recv_error_msg(s)), txt(", module_path!(), e); Err(::method_taskifier::AllWorkersDroppedError) } } }"@)]
}

/// Generates the arm of the client's `execute_task` for a worker method.
pub fn client_execute_arm(sig: &WorkerSig) -> (r: Vec<CodePiece>)
    ensures
        pieces(r@) == client_execute_arm_spec(sig@),
{
    let ghost s = sig@;
    let names = task_names(sig.name.as_str());
    let msgs = client_messages(sig.name.as_str());
    let mut out: Vec<CodePiece> = Vec::new();
    assert(pieces(out@) =~= Seq::<PieceView>::empty());
    push_text(&mut out, "self::Task::");
    push_string(&mut out, &names.variant);
    push_text(&mut out, "(params) => {");
    push_text(&mut out, "::log::trace!(");
    push_lit(&mut out, &msgs.sending_task);
    push_text(&mut out, ", module_path!());");
    push_text(&mut out, "let (result_sender, result_receiver) = tokio::sync::oneshot::channel();");
    push_text(&mut out, "let ret = self.task_sender.send(self::ChanneledTask::");
    push_string(&mut out, &names.variant);
    push_text(&mut out, "{ params, result_sender });");
    push_text(&mut out, "if let Err(e) = ret {");
    push_text(&mut out, "::log::error!(");
    push_lit(&mut out, &msgs.send_error);
    push_text(&mut out, ", module_path!(), e);");
    push_text(&mut out, "return Err(::method_taskifier::AllWorkersDroppedError);");
    push_text(&mut out, "}");
    push_text(&mut out, "::log::trace!(");
    push_lit(&mut out, &msgs.waiting_for_result);
    push_text(&mut out, ", module_path!());");
    push_text(&mut out, "match result_receiver.await {");
    push_text(&mut out, "Ok(ret) => Ok(self::TaskResult::");
    push_string(&mut out, &names.variant);
    push_text(&mut out, "(ret)), Err(e) => { ::log::error!(");
    push_lit(&mut out, &msgs.recv_error);
    push_text(&mut out, ", module_path!(), e); Err(::method_taskifier::AllWorkersDroppedError) } } }");
    assert(pieces(out@) =~= Seq::<PieceView>::empty() + seq![txt("self::Task::"@), txt(variant_of(s)), txt("(params) => {"@), txt("::log::trace!("@), lit(sending_msg(s)), txt(", module_path!());"@), txt("let (result_sender, result_receiver) = tokio::sync::oneshot::channel();"@), txt("let ret = self.task_sender.send(self::ChanneledTask::"@), txt(variant_of(s)), txt("{ params, result_sender });"@), txt("if let Err(e) = ret {"@), txt("::log::error!("@), lit(send_error_msg(s)), txt(", module_path!(), e);"@), txt("return Err(::method_taskifier::AllWorkersDroppedError);"@), txt("}"@), txt("::log::trace!("@), lit(waiting_msg(s)), txt(", module_path!());"@), txt("match result_receiver.await {"@), txt("Ok(ret) => Ok(self::TaskResult::"@), txt(variant_of(s)), txt("(ret)), Err(e) => { ::log::error!("@), lit(recv_error_msg(s)), txt(", module_path!(), e); Err(::method_taskifier::AllWorkersDroppedError) } } }"@)]);
    out
}

/// The pieces of the arm of the executor's `execute_task` for a worker method: it calls the method and wraps its result.
pub open spec fn task_execution_arm_spec(path: usize, pt: Seq<char>, s: WorkerSigView) -> Seq<PieceView> {
    seq![frag(path), txt("::Task::"@), txt(variant_of(s)), txt("("@), frag(path), txt("::"@), txt(params_struct_of(s)), txt("{"@)]
        + param_list(s.params, false)
        + seq![txt("}) => {"@), txt("::log::trace!("@), lit(executing_msg(pt, s)), txt(", module_path!());"@), txt("let ret = self."@), frag(s.ident), txt("("@)]
        + param_list(s.params, false)
        + seq![txt(")"@)]
        + await_spec(s.is_async)
        + seq![txt(";"@), frag(path), txt("::TaskResult::"@), txt(variant_of(s)), txt("("@), frag(path), txt("::"@), txt(result_struct_of(s)), txt("(ret)) }"@)]
}

/// Generates the arm of the executor's `execute_task` for a worker method: it calls the method and wraps its result.
pub fn task_execution_arm(path: usize, path_text: &str, sig: &WorkerSig) -> (r: Vec<CodePiece>)
    ensures
        pieces(r@) == task_execution_arm_spec(path, path_text@, sig@),
{
    let ghost s = sig@;
    let ghost pt = path_text@;
    let names = task_names(sig.name.as_str());
    let executing = executing_task_message(path_text, names.variant.as_str());
    let mut out: Vec<CodePiece> = Vec::new();
    assert(pieces(out@) =~= Seq::<PieceView>::empty());
    push_frag(&mut out, path);
    push_text(&mut out, "::Task::");
    push_string(&mut out, &names.variant);
    push_text(&mut out, "(");
    push_frag(&mut out, path);
    push_text(&mut out, "::");
    push_string(&mut out, &names.params_struct);
    push_text(&mut out, "{");
    assert(pieces(out@) =~= Seq::<PieceView>::empty() + seq![frag(path), txt("::Task::"@), txt(variant_of(s)), txt("("@), frag(path), txt("::"@), txt(params_struct_of(s)), txt("{"@)]);
    emit_param_list(&mut out, &sig.params, false);
    assert(pieces(out@) =~= Seq::<PieceView>::empty() + seq![frag(path), txt("::Task::"@), txt(variant_of(s)), txt("("@), frag(path), txt("::"@), txt(params_struct_of(s)), txt("{"@)] + param_list(s.params, false));
    push_text(&mut out, "}) => {");
    push_text(&mut out, "::log::trace!(");
    push_lit(&mut out, &executing);
    push_text(&mut out, ", module_path!());");
    push_text(&mut out, "let ret = self.");
    push_frag(&mut out, sig.ident);
    push_text(&mut out, "(");
    assert(pieces(out@) =~= Seq::<PieceView>::empty() + seq![frag(path), txt("::Task::"@), txt(variant_of(s)), txt("("@), frag(path), txt("::"@), txt(params_struct_of(s)), txt("{"@)] + param_list(s.params, false) + seq![txt("}) => {"@), txt("::log::trace!("@), lit(executing_msg(pt, s)), txt(", module_path!());"@), txt("let ret = self."@), frag(s.ident), txt("("@)]);
    emit_param_list(&mut out, &sig.params, false);
    assert(pieces(out@) =~= Seq::<PieceView>::empty() + seq![frag(path), txt("::Task::"@), txt(variant_of(s)), txt("("@), frag(path), txt("::"@), txt(params_struct_of(s)), txt("{"@)] + param_list(s.params, false) + seq![txt("}) => {"@), txt("::log::trace!("@), lit(executing_msg(pt, s)), txt(", module_path!());"@), txt("let ret = self."@), frag(s.ident), txt("("@)] + param_list(s.params, false));
    push_text(&mut out, ")");
    assert(pieces(out@) =~= Seq::<PieceView>::empty() + seq![frag(path), txt("::Task::"@), txt(variant_of(s)), txt("("@), frag(path), txt("::"@), txt(params_struct_of(s)), txt("{"@)] + param_list(s.params, false) + seq![txt("}) => {"@), txt("::log::trace!("@), lit(executing_msg(pt, s)), txt(", module_path!());"@), txt("let ret = self."@), frag(s.ident), txt("("@)] + param_list(s.params, false) + seq![txt(")"@)]);
    emit_await(&mut out, awaits_worker_call(sig.is_async));
    assert(pieces(out@) =~= Seq::<PieceView>::empty() + seq![frag(path), txt("::Task::"@), txt(variant_of(s)), txt("("@), frag(path), txt("::"@), txt(params_struct_of(s)), txt("{"@)] + param_list(s.params, false) + seq![txt("}) => {"@), txt("::log::trace!("@), lit(executing_msg(pt, s)), txt(", module_path!());"@), txt("let ret = self."@), frag(s.ident), txt("("@)] + param_list(s.params, false) + seq![txt(")"@)] + await_spec(s.is_async));
    push_text(&mut out, ";");
    push_frag(&mut out, path);
    push_text(&mut out, "::TaskResult::");
    push_string(&mut out, &names.variant);
    push_text(&mut out, "(");
    push_frag(&mut out, path);
    push_text(&mut out, "::");
    push_string(&mut out, &names.result_struct);
    push_text(&mut out, "(ret)) }");
    assert(pieces(out@) =~= Seq::<PieceView>::empty() + seq![frag(path), txt("::Task::"@), txt(variant_of(s)), txt("("@), frag(path), txt("::"@), txt(params_struct_of(s)), txt("{"@)] + param_list(s.params, false) + seq![txt("}) => {"@), txt("::log::trace!("@), lit(executing_msg(pt, s)), txt(", module_path!());"@), txt("let ret = self."@), frag(s.ident), txt("("@)] + param_list(s.params, false) + seq![txt(")"@)] + await_spec(s.is_async) + seq![txt(";"@), frag(path), txt("::TaskResult::"@), txt(variant_of(s)), txt("("@), frag(path), txt("::"@), txt(result_struct_of(s)), txt("(ret)) }"@)]);
    out
}

/// The pieces of the arm of the executor's `execute_channeled_task` for a worker method: it calls the method and sends its result back.
pub open spec fn channeled_task_execution_arm_spec(path: usize, pt: Seq<char>, s: WorkerSigView) -> Seq<PieceView> {
    seq![frag(path), txt("::ChanneledTask::"@), txt(variant_of(s)), txt("{ result_sender, params:"@), frag(path), txt("::"@), txt(params_struct_of(s)), txt("{"@)]
        + param_list(s.params, false)
        + seq![txt("} } => {"@), txt("::log::trace!("@), lit(executing_msg(pt, s)), txt(", module_path!());"@), txt("let ret = self."@), frag(s.ident), txt("("@)]
        + param_list(s.params, false)
        + seq![txt(")"@)]
        + await_spec(s.is_async)
        + seq![txt(";"@), txt("::log::trace!("@), lit(sending_result_msg(pt, s)), txt(", module_path!());"@), txt("let _ = result_sender.send("@), frag(path), txt("::"@), txt(result_struct_of(s)), txt("(ret));"@), txt("}"@)]
}

/// Generates the arm of the executor's `execute_channeled_task` for a worker method: it calls the method and sends its result back.
pub fn channeled_task_execution_arm(path: usize, path_text: &str, sig: &WorkerSig) -> (r: Vec<CodePiece>)
    ensures
        pieces(r@) == channeled_task_execution_arm_spec(path, path_text@, sig@),
{
    let ghost s = sig@;
    let ghost pt = path_text@;
    let names = task_names(sig.name.as_str());
    let executing = executing_task_message(path_text, names.variant.as_str());
    let sending = sending_result_message(path_text, names.variant.as_str());
    let mut out: Vec<CodePiece> = Vec::new();
    assert(pieces(out@) =~= Seq::<PieceView>::empty());
    push_frag(&mut out, path);
    push_text(&mut out, "::ChanneledTask::");
    push_string(&mut out, &names.variant);
    push_text(&mut out, "{ result_sender, params:");
    push_frag(&mut out, path);
    push_text(&mut out, "::");
    push_string(&mut out, &names.params_struct);
    push_text(&mut out, "{");
    assert(pieces(out@) =~= Seq::<PieceView>::empty() + seq![frag(path), txt("::ChanneledTask::"@), txt(variant_of(s)), txt("{ result_sender, params:"@), frag(path), txt("::"@), txt(params_struct_of(s)), txt("{"@)]);
    emit_param_list(&mut out, &sig.params, false);
    assert(pieces(out@) =~= Seq::<PieceView>::empty() + seq![frag(path), txt("::ChanneledTask::"@), txt(variant_of(s)), txt("{ result_sender, params:"@), frag(path), txt("::"@), txt(params_struct_of(s)), txt("{"@)] + param_list(s.params, false));
    push_text(&mut out, "} } => {");
    push_text(&mut out, "::log::trace!(");
    push_lit(&mut out, &executing);
    push_text(&mut out, ", module_path!());");
    push_text(&mut out, "let ret = self.");
    push_frag(&mut out, sig.ident);
    push_text(&mut out, "(");
    assert(pieces(out@) =~= Seq::<PieceView>::empty() + seq![frag(path), txt("::ChanneledTask::"@), txt(variant_of(s)), txt("{ result_sender, params:"@), frag(path), txt("::"@), txt(params_struct_of(s)), txt("{"@)] + param_list(s.params, false) + seq![txt("} } => {"@), txt("::log::trace!("@), lit(executing_msg(pt, s)), txt(", module_path!());"@), txt("let ret = self."@), frag(s.ident), txt("("@)]);
    emit_param_list(&mut out, &sig.params, false);
    assert(pieces(out@) =~= Seq::<PieceView>::empty() + seq![frag(path), txt("::ChanneledTask::"@), txt(variant_of(s)), txt("{ result_sender, params:"@), frag(path), txt("::"@), txt(params_struct_of(s)), txt("{"@)] + param_list(s.params, false) + seq![txt("} } => {"@), txt("::log::trace!("@), lit(executing_msg(pt, s)), txt(", module_path!());"@), txt("let ret = self."@), frag(s.ident), txt("("@)] + param_list(s.params, false));
    push_text(&mut out, ")");
    assert(pieces(out@) =~= Seq::<PieceView>::empty() + seq![frag(path), txt("::ChanneledTask::"@), txt(variant_of(s)), txt("{ result_sender, params:"@), frag(path), txt("::"@), txt(params_struct_of(s)), txt("{"@)] + param_list(s.params, false) + seq![txt("} } => {"@), txt("::log::trace!("@), lit(executing_msg(pt, s)), txt(", module_path!());"@), txt("let ret = self."@), frag(s.ident), txt("("@)] + param_list(s.params, false) + seq![txt(")"@)]);
    emit_await(&mut out, awaits_worker_call(sig.is_async));
    assert(pieces(out@) =~= Seq::<PieceView>::empty() + seq![frag(path), txt("::ChanneledTask::"@), txt(variant_of(s)), txt("{ result_sender, params:"@), frag(path), txt("::"@), txt(params_struct_of(s)), txt("{"@)] + param_list(s.params, false) + seq![txt("} } => {"@), txt("::log::trace!("@), lit(executing_msg(pt, s)), txt(", module_path!());"@), txt("let ret = self."@), frag(s.ident), txt("("@)] + param_list(s.params, false) + seq![txt(")"@)] + await_spec(s.is_async));
    push_text(&mut out, ";");
    push_text(&mut out, "::log::trace!(");
    push_lit(&mut out, &sending);
    push_text(&mut out, ", module_path!());");
    push_text(&mut out, "let _ = result_sender.send(");
    push_frag(&mut out, path);
    push_text(&mut out, "::");
    push_string(&mut out, &names.result_struct);
    push_text(&mut out, "(ret));");
    push_text(&mut out, "}");
    assert(pieces(out@) =~= Seq::<PieceView>::empty() + seq![frag(path), txt("::ChanneledTask::"@), txt(variant_of(s)), txt("{ result_sender, params:"@), frag(path), txt("::"@), txt(params_struct_of(s)), txt("{"@)] + param_list(s.params, false) + seq![txt("} } => {"@), txt("::log::trace!("@), lit(executing_msg(pt, s)), txt(", module_path!());"@), txt("let ret = self."@), frag(s.ident), txt("("@)] + param_list(s.params, false) + seq![txt(")"@)] + await_spec(s.is_async) + seq![txt(";"@), txt("::log::trace!("@), lit(sending_result_msg(pt, s)), txt(", module_path!());"@), txt("let _ = result_sender.send("@), frag(path), txt("::"@), txt(result_struct_of(s)), txt("(ret));"@), txt("}"@)]);
    out
}

/// The pieces of the whole client method for a worker method: its header, then its body in braces.
pub open spec fn client_function_spec(s: WorkerSigView) -> Seq<PieceView> {
    client_function_head_spec(s)
        + seq![txt("{"@)]
        + client_function_body_spec(s)
        + seq![txt("}"@)]
}

/// Generates the whole client method for a worker method: its header, then its body in braces.
pub fn client_function(sig: &WorkerSig) -> (r: Vec<CodePiece>)
    ensures
        pieces(r@) == client_function_spec(sig@),
{
    let ghost s = sig@;
    let mut out: Vec<CodePiece> = Vec::new();
    assert(pieces(out@) =~= Seq::<PieceView>::empty());
    append(&mut out, client_function_head(sig));
    assert(pieces(out@) =~= Seq::<PieceView>::empty() + client_function_head_spec(s));
    push_text(&mut out, "{");
    assert(pieces(out@) =~= Seq::<PieceView>::empty() + client_function_head_spec(s) + seq![txt("{"@)]);
    append(&mut out, client_function_body(sig));
    assert(pieces(out@) =~= Seq::<PieceView>::empty() + client_function_head_spec(s) + seq![txt("{"@)] + client_function_body_spec(s));
    push_text(&mut out, "}");
    assert(pieces(out@) =~= Seq::<PieceView>::empty() + client_function_head_spec(s) + seq![txt("{"@)] + client_function_body_spec(s) + seq![txt("}"@)]);
    out
}


pub open spec fn task_structs_fn(use_serde: bool) -> spec_fn(WorkerSigView) -> Seq<PieceView> {
    |s: WorkerSigView| task_structs_spec(s, use_serde)
}

pub open spec fn task_variant_fn() -> spec_fn(WorkerSigView) -> Seq<PieceView> {
    |s: WorkerSigView| task_variant_spec(s)
}

pub open spec fn task_result_variant_fn() -> spec_fn(WorkerSigView) -> Seq<PieceView> {
    |s: WorkerSigView| task_result_variant_spec(s)
}

pub open spec fn channeled_task_variant_fn() -> spec_fn(WorkerSigView) -> Seq<PieceView> {
    |s: WorkerSigView| channeled_task_variant_spec(s)
}

pub open spec fn as_result_function_fn() -> spec_fn(WorkerSigView) -> Seq<PieceView> {
    |s: WorkerSigView| as_result_function_spec(s)
}

pub open spec fn task_builder_fn() -> spec_fn(WorkerSigView) -> Seq<PieceView> {
    |s: WorkerSigView| task_builder_spec(s)
}

pub open spec fn client_function_fn() -> spec_fn(WorkerSigView) -> Seq<PieceView> {
    |s: WorkerSigView| client_function_spec(s)
}

pub open spec fn client_execute_arm_fn() -> spec_fn(WorkerSigView) -> Seq<PieceView> {
    |s: WorkerSigView| client_execute_arm_spec(s)
}

pub open spec fn task_execution_arm_fn(path: usize, pt: Seq<char>) -> spec_fn(WorkerSigView) -> Seq<PieceView> {
    |s: WorkerSigView| task_execution_arm_spec(path, pt, s)
}

pub open spec fn channeled_task_execution_arm_fn(path: usize, pt: Seq<char>) -> spec_fn(WorkerSigView) -> Seq<PieceView> {
    |s: WorkerSigView| channeled_task_execution_arm_spec(path, pt, s)
}

/// Appends the task structs of every worker method.
fn emit_task_structs(out: &mut Vec<CodePiece>, use_serde: bool, sigs: &Vec<WorkerSig>)
    ensures
        pieces(final(out)@) == pieces(old(out)@) + concat_map(sigs_view(sigs@), task_structs_fn(use_serde)),
{

    let ghost sv = sigs_view(sigs@);
    let ghost base = pieces(out@);
    let mut i: usize = 0;
    assert(concat_map(sv.take(0), task_structs_fn(use_serde)) =~= Seq::<PieceView>::empty());
    assert(pieces(out@) =~= base + concat_map(sv.take(0), task_structs_fn(use_serde)));
    while i < sigs.len()
        invariant
            i <= sigs@.len(),
            sv == sigs_view(sigs@),
            pieces(out@) == base + concat_map(sv.take(i as int), task_structs_fn(use_serde)),
        decreases sigs@.len() - i,
    {
        let item = task_structs(&sigs[i], use_serde);
        append(out, item);
        proof {
            lemma_concat_map_step(sv, task_structs_fn(use_serde), i as int);
            assert(sv[i as int] == sigs@[i as int]@);
            assert(pieces(out@) =~= base + concat_map(sv.take(i + 1), task_structs_fn(use_serde)));
        }
        i = i + 1;
    }
    proof {
        lemma_take_all(sv);
    }
}

/// Appends the variants of `Task`, separated by commas.
fn emit_task_variants(out: &mut Vec<CodePiece>, sigs: &Vec<WorkerSig>)
    ensures
        pieces(final(out)@) == pieces(old(out)@) + join_map(sigs_view(sigs@), task_variant_fn(), comma()),
{

    let ghost sv = sigs_view(sigs@);
    let ghost base = pieces(out@);
    let mut i: usize = 0;
    assert(join_map(sv.take(0), task_variant_fn(), comma()) =~= Seq::<PieceView>::empty());
    assert(pieces(out@) =~= base + join_map(sv.take(0), task_variant_fn(), comma()));
    while i < sigs.len()
        invariant
            i <= sigs@.len(),
            sv == sigs_view(sigs@),
            pieces(out@) == base + join_map(sv.take(i as int), task_variant_fn(), comma()),
        decreases sigs@.len() - i,
    {
        if i > 0 {
            push_text(out, ",");
        }
        let item = task_variant(&sigs[i]);
        append(out, item);
        proof {
            lemma_join_map_step(sv, task_variant_fn(), comma(), i as int);
            assert(sv[i as int] == sigs@[i as int]@);
            assert(pieces(out@) =~= base + join_map(sv.take(i + 1), task_variant_fn(), comma()));
        }
        i = i + 1;
    }
    proof {
        lemma_take_all(sv);
    }
}

/// Appends the variants of `TaskResult`, separated by commas.
fn emit_task_result_variants(out: &mut Vec<CodePiece>, sigs: &Vec<WorkerSig>)
    ensures
        pieces(final(out)@) == pieces(old(out)@) + join_map(sigs_view(sigs@), task_result_variant_fn(), comma()),
{

    let ghost sv = sigs_view(sigs@);
    let ghost base = pieces(out@);
    let mut i: usize = 0;
    assert(join_map(sv.take(0), task_result_variant_fn(), comma()) =~= Seq::<PieceView>::empty());
    assert(pieces(out@) =~= base + join_map(sv.take(0), task_result_variant_fn(), comma()));
    while i < sigs.len()
        invariant
            i <= sigs@.len(),
            sv == sigs_view(sigs@),
            pieces(out@) == base + join_map(sv.take(i as int), task_result_variant_fn(), comma()),
        decreases sigs@.len() - i,
    {
        if i > 0 {
            push_text(out, ",");
        }
        let item = task_result_variant(&sigs[i]);
        append(out, item);
        proof {
            lemma_join_map_step(sv, task_result_variant_fn(), comma(), i as int);
            assert(sv[i as int] == sigs@[i as int]@);
            assert(pieces(out@) =~= base + join_map(sv.take(i + 1), task_result_variant_fn(), comma()));
        }
        i = i + 1;
    }
    proof {
        lemma_take_all(sv);
    }
}

/// Appends the variants of `ChanneledTask`, separated by commas.
fn emit_channeled_task_variants(out: &mut Vec<CodePiece>, sigs: &Vec<WorkerSig>)
    ensures
        pieces(final(out)@) == pieces(old(out)@) + join_map(sigs_view(sigs@), channeled_task_variant_fn(), comma()),
{

    let ghost sv = sigs_view(sigs@);
    let ghost base = pieces(out@);
    let mut i: usize = 0;
    assert(join_map(sv.take(0), channeled_task_variant_fn(), comma()) =~= Seq::<PieceView>::empty());
    assert(pieces(out@) =~= base + join_map(sv.take(0), channeled_task_variant_fn(), comma()));
    while i < sigs.len()
        invariant
            i <= sigs@.len(),
            sv == sigs_view(sigs@),
            pieces(out@) == base + join_map(sv.take(i as int), channeled_task_variant_fn(), comma()),
        decreases sigs@.len() - i,
    {
        if i > 0 {
            push_text(out, ",");
        }
        let item = channeled_task_variant(&sigs[i]);
        append(out, item);
        proof {
            lemma_join_map_step(sv, channeled_task_variant_fn(), comma(), i as int);
            assert(sv[i as int] == sigs@[i as int]@);
            assert(pieces(out@) =~= base + join_map(sv.take(i + 1), channeled_task_variant_fn(), comma()));
        }
        i = i + 1;
    }
    proof {
        lemma_take_all(sv);
    }
}

/// Appends the accessors of `TaskResult`.
fn emit_as_result_functions(out: &mut Vec<CodePiece>, sigs: &Vec<WorkerSig>)
    ensures
        pieces(final(out)@) == pieces(old(out)@) + concat_map(sigs_view(sigs@), as_result_function_fn()),
{

    let ghost sv = sigs_view(sigs@);
    let ghost base = pieces(out@);
    let mut i: usize = 0;
    assert(concat_map(sv.take(0), as_result_function_fn()) =~= Seq::<PieceView>::empty());
    assert(pieces(out@) =~= base + concat_map(sv.take(0), as_result_function_fn()));
    while i < sigs.len()
        invariant
            i <= sigs@.len(),
            sv == sigs_view(sigs@),
            pieces(out@) == base + concat_map(sv.take(i as int), as_result_function_fn()),
        decreases sigs@.len() - i,
    {
        let item = as_result_function(&sigs[i]);
        append(out, item);
        proof {
            lemma_concat_map_step(sv, as_result_function_fn(), i as int);
            assert(sv[i as int] == sigs@[i as int]@);
            assert(pieces(out@) =~= base + concat_map(sv.take(i + 1), as_result_function_fn()));
        }
        i = i + 1;
    }
    proof {
        lemma_take_all(sv);
    }
}

/// Appends the constructors of `Task`.
fn emit_task_builders(out: &mut Vec<CodePiece>, sigs: &Vec<WorkerSig>)
    ensures
        pieces(final(out)@) == pieces(old(out)@) + concat_map(sigs_view(sigs@), task_builder_fn()),
{

    let ghost sv = sigs_view(sigs@);
    let ghost base = pieces(out@);
    let mut i: usize = 0;
    assert(concat_map(sv.take(0), task_builder_fn()) =~= Seq::<PieceView>::empty());
    assert(pieces(out@) =~= base + concat_map(sv.take(0), task_builder_fn()));
    while i < sigs.len()
        invariant
            i <= sigs@.len(),
            sv == sigs_view(sigs@),
            pieces(out@) == base + concat_map(sv.take(i as int), task_builder_fn()),
        decreases sigs@.len() - i,
    {
        let item = task_builder(&sigs[i]);
        append(out, item);
        proof {
            lemma_concat_map_step(sv, task_builder_fn(), i as int);
            assert(sv[i as int] == sigs@[i as int]@);
            assert(pieces(out@) =~= base + concat_map(sv.take(i + 1), task_builder_fn()));
        }
        i = i + 1;
    }
    proof {
        lemma_take_all(sv);
    }
}

/// Appends the client methods of every worker method.
fn emit_client_functions(out: &mut Vec<CodePiece>, sigs: &Vec<WorkerSig>)
    ensures
        pieces(final(out)@) == pieces(old(out)@) + concat_map(sigs_view(sigs@), client_function_fn()),
{

    let ghost sv = sigs_view(sigs@);
    let ghost base = pieces(out@);
    let mut i: usize = 0;
    assert(concat_map(sv.take(0), client_function_fn()) =~= Seq::<PieceView>::empty());
    assert(pieces(out@) =~= base + concat_map(sv.take(0), client_function_fn()));
    while i < sigs.len()
        invariant
            i <= sigs@.len(),
            sv == sigs_view(sigs@),
            pieces(out@) == base + concat_map(sv.take(i as int), client_function_fn()),
        decreases sigs@.len() - i,
    {
        let item = client_function(&sigs[i]);
        append(out, item);
        proof {
            lemma_concat_map_step(sv, client_function_fn(), i as int);
            assert(sv[i as int] == sigs@[i as int]@);
            assert(pieces(out@) =~= base + concat_map(sv.take(i + 1), client_function_fn()));
        }
        i = i + 1;
    }
    proof {
        lemma_take_all(sv);
    }
}

/// Appends the arms of the client's `execute_task`.
fn emit_client_execute_arms(out: &mut Vec<CodePiece>, sigs: &Vec<WorkerSig>)
    ensures
        pieces(final(out)@) == pieces(old(out)@) + concat_map(sigs_view(sigs@), client_execute_arm_fn()),
{

    let ghost sv = sigs_view(sigs@);
    let ghost base = pieces(out@);
    let mut i: usize = 0;
    assert(concat_map(sv.take(0), client_execute_arm_fn()) =~= Seq::<PieceView>::empty());
    assert(pieces(out@) =~= base + concat_map(sv.take(0), client_execute_arm_fn()));
    while i < sigs.len()
        invariant
            i <= sigs@.len(),
            sv == sigs_view(sigs@),
            pieces(out@) == base + concat_map(sv.take(i as int), client_execute_arm_fn()),
        decreases sigs@.len() - i,
    {
        let item = client_execute_arm(&sigs[i]);
        append(out, item);
        proof {
            lemma_concat_map_step(sv, client_execute_arm_fn(), i as int);
            assert(sv[i as int] == sigs@[i as int]@);
            assert(pieces(out@) =~= base + concat_map(sv.take(i + 1), client_execute_arm_fn()));
        }
        i = i + 1;
    }
    proof {
        lemma_take_all(sv);
    }
}

/// Appends the arms of the executor's `execute_task`.
fn emit_task_execution_arms(out: &mut Vec<CodePiece>, path: usize, path_text: &str, sigs: &Vec<WorkerSig>)
    ensures
        pieces(final(out)@) == pieces(old(out)@) + concat_map(sigs_view(sigs@), task_execution_arm_fn(path, path_text@)),
{

    let ghost sv = sigs_view(sigs@);
    let ghost base = pieces(out@);
    let mut i: usize = 0;
    assert(concat_map(sv.take(0), task_execution_arm_fn(path, path_text@)) =~= Seq::<PieceView>::empty());
    assert(pieces(out@) =~= base + concat_map(sv.take(0), task_execution_arm_fn(path, path_text@)));
    while i < sigs.len()
        invariant
            i <= sigs@.len(),
            sv == sigs_view(sigs@),
            pieces(out@) == base + concat_map(sv.take(i as int), task_execution_arm_fn(path, path_text@)),
        decreases sigs@.len() - i,
    {
        let item = task_execution_arm(path, path_text, &sigs[i]);
        append(out, item);
        proof {
            lemma_concat_map_step(sv, task_execution_arm_fn(path, path_text@), i as int);
            assert(sv[i as int] == sigs@[i as int]@);
            assert(pieces(out@) =~= base + concat_map(sv.take(i + 1), task_execution_arm_fn(path, path_text@)));
        }
        i = i + 1;
    }
    proof {
        lemma_take_all(sv);
    }
}

/// Appends the arms of the executor's `execute_channeled_task`.
fn emit_channeled_task_execution_arms(out: &mut Vec<CodePiece>, path: usize, path_text: &str, sigs: &Vec<WorkerSig>)
    ensures
        pieces(final(out)@) == pieces(old(out)@) + concat_map(sigs_view(sigs@), channeled_task_execution_arm_fn(path, path_text@)),
{

    let ghost sv = sigs_view(sigs@);
    let ghost base = pieces(out@);
    let mut i: usize = 0;
    assert(concat_map(sv.take(0), channeled_task_execution_arm_fn(path, path_text@)) =~= Seq::<PieceView>::empty());
    assert(pieces(out@) =~= base + concat_map(sv.take(0), channeled_task_execution_arm_fn(path, path_text@)));
    while i < sigs.len()
        invariant
            i <= sigs@.len(),
            sv == sigs_view(sigs@),
            pieces(out@) == base + concat_map(sv.take(i as int), channeled_task_execution_arm_fn(path, path_text@)),
        decreases sigs@.len() - i,
    {
        let item = channeled_task_execution_arm(path, path_text, &sigs[i]);
        append(out, item);
        proof {
            lemma_concat_map_step(sv, channeled_task_execution_arm_fn(path, path_text@), i as int);
            assert(sv[i as int] == sigs@[i as int]@);
            assert(pieces(out@) =~= base + concat_map(sv.take(i + 1), channeled_task_execution_arm_fn(path, path_text@)));
        }
        i = i + 1;
    }
    proof {
        lemma_take_all(sv);
    }
}

/// The pieces of the executor's `execute_task`: it matches the task against the arm of every worker method.
pub open spec fn executor_execute_task_spec(path: usize, pt: Seq<char>, sv: Seq<WorkerSigView>, has_async: bool) -> Seq<PieceView> {
    seq![txt("pub"@)]
        + async_spec(executor_method_is_async_spec(ExecutorMethod::ExecuteTask, has_async))
        + seq![txt("fn execute_task(&mut self, task:"@), frag(path), txt("::Task,) ->"@), frag(path), txt("::TaskResult {"@), txt("match task {"@)]
        + concat_map(sv, task_execution_arm_fn(path, pt))
        + seq![txt("} }"@)]
}

/// Generates the executor's `execute_task`: it matches the task against the arm of every worker method.
pub fn executor_execute_task(path: usize, path_text: &str, sigs: &Vec<WorkerSig>, has_async: bool) -> (r: Vec<CodePiece>)
    ensures
        pieces(r@) == executor_execute_task_spec(path, path_text@, sigs_view(sigs@), has_async),
{
    let ghost pt = path_text@;
    let ghost sv = sigs_view(sigs@);
    let mut out: Vec<CodePiece> = Vec::new();
    assert(pieces(out@) =~= Seq::<PieceView>::empty());
    push_text(&mut out, "pub");
    assert(pieces(out@) =~= Seq::<PieceView>::empty() + seq![txt("pub"@)]);
    emit_async(&mut out, executor_method_is_async(ExecutorMethod::ExecuteTask, has_async));
    assert(pieces(out@) =~= Seq::<PieceView>::empty() + seq![txt("pub"@)] + async_spec(executor_method_is_async_spec(ExecutorMethod::ExecuteTask, has_async)));
    push_text(&mut out, "fn execute_task(&mut self, task:");
    push_frag(&mut out, path);
    push_text(&mut out, "::Task,) ->");
    push_frag(&mut out, path);
    push_text(&mut out, "::TaskResult {");
    push_text(&mut out, "match task {");
    assert(pieces(out@) =~= Seq::<PieceView>::empty() + seq![txt("pub"@)] + async_spec(executor_method_is_async_spec(ExecutorMethod::ExecuteTask, has_async)) + seq![txt("fn execute_task(&mut self, task:"@), frag(path), txt("::Task,) ->"@), frag(path), txt("::TaskResult {"@), txt("match task {"@)]);
    emit_task_execution_arms(&mut out, path, path_text, sigs);
    assert(pieces(out@) =~= Seq::<PieceView>::empty() + seq![txt("pub"@)] + async_spec(executor_method_is_async_spec(ExecutorMethod::ExecuteTask, has_async)) + seq![txt("fn execute_task(&mut self, task:"@), frag(path), txt("::Task,) ->"@), frag(path), txt("::TaskResult {"@), txt("match task {"@)] + concat_map(sv, task_execution_arm_fn(path, pt)));
    push_text(&mut out, "} }");
    assert(pieces(out@) =~= Seq::<PieceView>::empty() + seq![txt("pub"@)] + async_spec(executor_method_is_async_spec(ExecutorMethod::ExecuteTask, has_async)) + seq![txt("fn execute_task(&mut self, task:"@), frag(path), txt("::Task,) ->"@), frag(path), txt("::TaskResult {"@), txt("match task {"@)] + concat_map(sv, task_execution_arm_fn(path, pt)) + seq![txt("} }"@)]);
    out
}

/// The pieces of the executor's `execute_channeled_task`: it matches the channeled task against the arm of every worker method.
pub open spec fn executor_execute_channeled_task_spec(path: usize, pt: Seq<char>, sv: Seq<WorkerSigView>, has_async: bool) -> Seq<PieceView> {
    seq![txt("pub"@)]
        + async_spec(executor_method_is_async_spec(ExecutorMethod::ExecuteChanneledTask, has_async))
        + seq![txt("fn execute_channeled_task(&mut self, task:"@), frag(path), txt("::ChanneledTask,) {"@), txt("match task {"@)]
        + concat_map(sv, channeled_task_execution_arm_fn(path, pt))
        + seq![txt("} }"@)]
}

/// Generates the executor's `execute_channeled_task`: it matches the channeled task against the arm of every worker method.
pub fn executor_execute_channeled_task(path: usize, path_text: &str, sigs: &Vec<WorkerSig>, has_async: bool) -> (r: Vec<CodePiece>)
    ensures
        pieces(r@) == executor_execute_channeled_task_spec(path, path_text@, sigs_view(sigs@), has_async),
{
    let ghost pt = path_text@;
    let ghost sv = sigs_view(sigs@);
    let mut out: Vec<CodePiece> = Vec::new();
    assert(pieces(out@) =~= Seq::<PieceView>::empty());
    push_text(&mut out, "pub");
    assert(pieces(out@) =~= Seq::<PieceView>::empty() + seq![txt("pub"@)]);
    emit_async(&mut out, executor_method_is_async(ExecutorMethod::ExecuteChanneledTask, has_async));
    assert(pieces(out@) =~= Seq::<PieceView>::empty() + seq![txt("pub"@)] + async_spec(executor_method_is_async_spec(ExecutorMethod::ExecuteChanneledTask, has_async)));
    push_text(&mut out, "fn execute_channeled_task(&mut self, task:");
    push_frag(&mut out, path);
    push_text(&mut out, "::ChanneledTask,) {");
    push_text(&mut out, "match task {");
    assert(pieces(out@) =~= Seq::<PieceView>::empty() + seq![txt("pub"@)] + async_spec(executor_method_is_async_spec(ExecutorMethod::ExecuteChanneledTask, has_async)) + seq![txt("fn execute_channeled_task(&mut self, task:"@), frag(path), txt("::ChanneledTask,) {"@), txt("match task {"@)]);
    emit_channeled_task_execution_arms(&mut out, path, path_text, sigs);
    assert(pieces(out@) =~= Seq::<PieceView>::empty() + seq![txt("pub"@)] + async_spec(executor_method_is_async_spec(ExecutorMethod::ExecuteChanneledTask, has_async)) + seq![txt("fn execute_channeled_task(&mut self, task:"@), frag(path), txt("::ChanneledTask,) {"@), txt("match task {"@)] + concat_map(sv, channeled_task_execution_arm_fn(path, pt)));
    push_text(&mut out, "} }");
    assert(pieces(out@) =~= Seq::<PieceView>::empty() + seq![txt("pub"@)] + async_spec(executor_method_is_async_spec(ExecutorMethod::ExecuteChanneledTask, has_async)) + seq![txt("fn execute_channeled_task(&mut self, task:"@), frag(path), txt("::ChanneledTask,) {"@), txt("match task {"@)] + concat_map(sv, channeled_task_execution_arm_fn(path, pt)) + seq![txt("} }"@)]);
    out
}

/// The pieces of the executor's `try_execute_channeled_task_from_queue`: it executes a task taken without waiting and reports whether there was one, or that every client is gone.
pub open spec fn executor_try_execute_spec(path: usize, has_async: bool) -> Seq<PieceView> {
    seq![txt("pub"@)]
        + async_spec(executor_method_is_async_spec(ExecutorMethod::TryExecuteChanneledTaskFromQueue, has_async))
        + seq![txt("fn try_execute_channeled_task_from_queue(&mut self, receiver: &::method_taskifier::task_channel::TaskReceiver<"@), frag(path), txt("::ChanneledTask>,) -> Result<bool, ::method_taskifier::AllClientsDroppedError> {"@), txt("let task = receiver.try_recv();"@), txt("match task {"@), txt("Ok(task) => { self.execute_channeled_task(task)"@)]
        + await_spec(executor_method_is_async_spec(ExecutorMethod::ExecuteChanneledTask, has_async))
        + seq![txt(";"@), txt("return Ok(true); }"@), txt("Err(::method_taskifier::task_channel::TryRecvError::Empty) => return Ok(false),"@), txt("Err(::method_taskifier::task_channel::TryRecvError::Disconnected) => { return Err(::method_taskifier::AllClientsDroppedError) }"@), txt("} }"@)]
}

/// Generates the executor's `try_execute_channeled_task_from_queue`: it executes a task taken without waiting and reports whether there was one, or that every client is gone.
pub fn executor_try_execute(path: usize, has_async: bool) -> (r: Vec<CodePiece>)
    ensures
        pieces(r@) == executor_try_execute_spec(path, has_async),
{
    let mut out: Vec<CodePiece> = Vec::new();
    assert(pieces(out@) =~= Seq::<PieceView>::empty());
    push_text(&mut out, "pub");
    assert(pieces(out@) =~= Seq::<PieceView>::empty() + seq![txt("pub"@)]);
    emit_async(&mut out, executor_method_is_async(ExecutorMethod::TryExecuteChanneledTaskFromQueue, has_async));
    assert(pieces(out@) =~= Seq::<PieceView>::empty() + seq![txt("pub"@)] + async_spec(executor_method_is_async_spec(ExecutorMethod::TryExecuteChanneledTaskFromQueue, has_async)));
    push_text(&mut out, "fn try_execute_channeled_task_from_queue(&mut self, receiver: &::method_taskifier::task_channel::TaskReceiver<");
    push_frag(&mut out, path);
    push_text(&mut out, "::ChanneledTask>,) -> Result<bool, ::method_taskifier::AllClientsDroppedError> {");
    push_text(&mut out, "let task = receiver.try_recv();");
    push_text(&mut out, "match task {");
    push_text(&mut out, "Ok(task) => { self.execute_channeled_task(task)");
    assert(pieces(out@) =~= Seq::<PieceView>::empty() + seq![txt("pub"@)] + async_spec(executor_method_is_async_spec(ExecutorMethod::TryExecuteChanneledTaskFromQueue, has_async)) + seq![txt("fn try_execute_channeled_task_from_queue(&mut self, receiver: &::method_taskifier::task_channel::TaskReceiver<"@), frag(path), txt("::ChanneledTask>,) -> Result<bool, ::method_taskifier::AllClientsDroppedError> {"@), txt("let task = receiver.try_recv();"@), txt("match task {"@), txt("Ok(task) => { self.execute_channeled_task(task)"@)]);
    emit_await(&mut out, executor_awaits_channeled_execution(has_async));
    assert(pieces(out@) =~= Seq::<PieceView>::empty() + seq![txt("pub"@)] + async_spec(executor_method_is_async_spec(ExecutorMethod::TryExecuteChanneledTaskFromQueue, has_async)) + seq![txt("fn try_execute_channeled_task_from_queue(&mut self, receiver: &::method_taskifier::task_channel::TaskReceiver<"@), frag(path), txt("::ChanneledTask>,) -> Result<bool, ::method_taskifier::AllClientsDroppedError> {"@), txt("let task = receiver.try_recv();"@), txt("match task {"@), txt("Ok(task) => { self.execute_channeled_task(task)"@)] + await_spec(executor_method_is_async_spec(ExecutorMethod::ExecuteChanneledTask, has_async)));
    push_text(&mut out, ";");
    push_text(&mut out, "return Ok(true); }");
    push_text(&mut out, "Err(::method_taskifier::task_channel::TryRecvError::Empty) => return Ok(false),");
    push_text(&mut out, "Err(::method_taskifier::task_channel::TryRecvError::Disconnected) => { return Err(::method_taskifier::AllClientsDroppedError) }");
    push_text(&mut out, "} }");
    assert(pieces(out@) =~= Seq::<PieceView>::empty() + seq![txt("pub"@)] + async_spec(executor_method_is_async_spec(ExecutorMethod::TryExecuteChanneledTaskFromQueue, has_async)) + seq![txt("fn try_execute_channeled_task_from_queue(&mut self, receiver: &::method_taskifier::task_channel::TaskReceiver<"@), frag(path), txt("::ChanneledTask>,) -> Result<bool, ::method_taskifier::AllClientsDroppedError> {"@), txt("let task = receiver.try_recv();"@), txt("match task {"@), txt("Ok(task) => { self.execute_channeled_task(task)"@)] + await_spec(executor_method_is_async_spec(ExecutorMethod::ExecuteChanneledTask, has_async)) + seq![txt(";"@), txt("return Ok(true); }"@), txt("Err(::method_taskifier::task_channel::TryRecvError::Empty) => return Ok(false),"@), txt("Err(::method_taskifier::task_channel::TryRecvError::Disconnected) => { return Err(::method_taskifier::AllClientsDroppedError) }"@), txt("} }"@)]);
    out
}

/// The pieces of the executor's `execute_channeled_task_from_queue`: it waits for a task and executes it, or reports that every client is gone.
pub open spec fn executor_execute_from_queue_spec(path: usize, has_async: bool) -> Seq<PieceView> {
    seq![txt("pub"@)]
        + async_spec(executor_method_is_async_spec(ExecutorMethod::ExecuteChanneledTaskFromQueue, has_async))
        + seq![txt("fn execute_channeled_task_from_queue(&mut self, receiver: &mut ::method_taskifier::task_channel::TaskReceiver<"@), frag(path), txt("::ChanneledTask>,) -> Result<(), ::method_taskifier::AllClientsDroppedError> {"@), txt("let task = receiver.recv_async().await;"@), txt("match task {"@), txt("Ok(task) => { self.execute_channeled_task(task)"@)]
        + await_spec(executor_method_is_async_spec(ExecutorMethod::ExecuteChanneledTask, has_async))
        + seq![txt(";"@), txt("Ok(()) }"@), txt("Err(::method_taskifier::task_channel::RecvError::Disconnected) => { Err(::method_taskifier::AllClientsDroppedError) }"@), txt("} }"@)]
}

/// Generates the executor's `execute_channeled_task_from_queue`: it waits for a task and executes it, or reports that every client is gone.
pub fn executor_execute_from_queue(path: usize, has_async: bool) -> (r: Vec<CodePiece>)
    ensures
        pieces(r@) == executor_execute_from_queue_spec(path, has_async),
{
    let mut out: Vec<CodePiece> = Vec::new();
    assert(pieces(out@) =~= Seq::<PieceView>::empty());
    push_text(&mut out, "pub");
    assert(pieces(out@) =~= Seq::<PieceView>::empty() + seq![txt("pub"@)]);
    emit_async(&mut out, executor_method_is_async(ExecutorMethod::ExecuteChanneledTaskFromQueue, has_async));
    assert(pieces(out@) =~= Seq::<PieceView>::empty() + seq![txt("pub"@)] + async_spec(executor_method_is_async_spec(ExecutorMethod::ExecuteChanneledTaskFromQueue, has_async)));
    push_text(&mut out, "fn execute_channeled_task_from_queue(&mut self, receiver: &mut ::method_taskifier::task_channel::TaskReceiver<");
    push_frag(&mut out, path);
    push_text(&mut out, "::ChanneledTask>,) -> Result<(), ::method_taskifier::AllClientsDroppedError> {");
    push_text(&mut out, "let task = receiver.recv_async().await;");
    push_text(&mut out, "match task {");
    push_text(&mut out, "Ok(task) => { self.execute_channeled_task(task)");
    assert(pieces(out@) =~= Seq::<PieceView>::empty() + seq![txt("pub"@)] + async_spec(executor_method_is_async_spec(ExecutorMethod::ExecuteChanneledTaskFromQueue, has_async)) + seq![txt("fn execute_channeled_task_from_queue(&mut self, receiver: &mut ::method_taskifier::task_channel::TaskReceiver<"@), frag(path), txt("::ChanneledTask>,) -> Result<(), ::method_taskifier::AllClientsDroppedError> {"@), txt("let task = receiver.recv_async().await;"@), txt("match task {"@), txt("Ok(task) => { self.execute_channeled_task(task)"@)]);
    emit_await(&mut out, executor_awaits_channeled_execution(has_async));
    assert(pieces(out@) =~= Seq::<PieceView>::empty() + seq![txt("pub"@)] + async_spec(executor_method_is_async_spec(ExecutorMethod::ExecuteChanneledTaskFromQueue, has_async)) + seq![txt("fn execute_channeled_task_from_queue(&mut self, receiver: &mut ::method_taskifier::task_channel::TaskReceiver<"@), frag(path), txt("::ChanneledTask>,) -> Result<(), ::method_taskifier::AllClientsDroppedError> {"@), txt("let task = receiver.recv_async().await;"@), txt("match task {"@), txt("Ok(task) => { self.execute_channeled_task(task)"@)] + await_spec(executor_method_is_async_spec(ExecutorMethod::ExecuteChanneledTask, has_async)));
    push_text(&mut out, ";");
    push_text(&mut out, "Ok(()) }");
    push_text(&mut out, "Err(::method_taskifier::task_channel::RecvError::Disconnected) => { Err(::method_taskifier::AllClientsDroppedError) }");
    push_text(&mut out, "} }");
    assert(pieces(out@) =~= Seq::<PieceView>::empty() + seq![txt("pub"@)] + async_spec(executor_method_is_async_spec(ExecutorMethod::ExecuteChanneledTaskFromQueue, has_async)) + seq![txt("fn execute_channeled_task_from_queue(&mut self, receiver: &mut ::method_taskifier::task_channel::TaskReceiver<"@), frag(path), txt("::ChanneledTask>,) -> Result<(), ::method_taskifier::AllClientsDroppedError> {"@), txt("let task = receiver.recv_async().await;"@), txt("match task {"@), txt("Ok(task) => { self.execute_channeled_task(task)"@)] + await_spec(executor_method_is_async_spec(ExecutorMethod::ExecuteChanneledTask, has_async)) + seq![txt(";"@), txt("Ok(()) }"@), txt("Err(::method_taskifier::task_channel::RecvError::Disconnected) => { Err(::method_taskifier::AllClientsDroppedError) }"@), txt("} }"@)]);
    out
}

/// The pieces of the executor's `execute_remaining_channeled_tasks_from_queue`: it executes tasks taken without waiting until none is left.
pub open spec fn executor_execute_remaining_spec(path: usize, has_async: bool) -> Seq<PieceView> {
    seq![txt("pub"@)]
        + async_spec(executor_method_is_async_spec(ExecutorMethod::ExecuteRemainingChanneledTasksFromQueue, has_async))
        + seq![txt("fn execute_remaining_channeled_tasks_from_queue(&mut self, receiver: &::method_taskifier::task_channel::TaskReceiver<"@), frag(path), txt("::ChanneledTask>,) -> Result<(), ::method_taskifier::AllClientsDroppedError> {"@), txt("while self.try_execute_channeled_task_from_queue(receiver)"@)]
        + await_spec(executor_method_is_async_spec(ExecutorMethod::TryExecuteChanneledTaskFromQueue, has_async))
        + seq![txt("? {}"@), txt("Ok(()) }"@)]
}

/// Generates the executor's `execute_remaining_channeled_tasks_from_queue`: it executes tasks taken without waiting until none is left.
pub fn executor_execute_remaining(path: usize, has_async: bool) -> (r: Vec<CodePiece>)
    ensures
        pieces(r@) == executor_execute_remaining_spec(path, has_async),
{
    let mut out: Vec<CodePiece> = Vec::new();
    assert(pieces(out@) =~= Seq::<PieceView>::empty());
    push_text(&mut out, "pub");
    assert(pieces(out@) =~= Seq::<PieceView>::empty() + seq![txt("pub"@)]);
    emit_async(&mut out, executor_method_is_async(ExecutorMethod::ExecuteRemainingChanneledTasksFromQueue, has_async));
    assert(pieces(out@) =~= Seq::<PieceView>::empty() + seq![txt("pub"@)] + async_spec(executor_method_is_async_spec(ExecutorMethod::ExecuteRemainingChanneledTasksFromQueue, has_async)));
    push_text(&mut out, "fn execute_remaining_channeled_tasks_from_queue(&mut self, receiver: &::method_taskifier::task_channel::TaskReceiver<");
    push_frag(&mut out, path);
    push_text(&mut out, "::ChanneledTask>,) -> Result<(), ::method_taskifier::AllClientsDroppedError> {");
    push_text(&mut out, "while self.try_execute_channeled_task_from_queue(receiver)");
    assert(pieces(out@) =~= Seq::<PieceView>::empty() + seq![txt("pub"@)] + async_spec(executor_method_is_async_spec(ExecutorMethod::ExecuteRemainingChanneledTasksFromQueue, has_async)) + seq![txt("fn execute_remaining_channeled_tasks_from_queue(&mut self, receiver: &::method_taskifier::task_channel::TaskReceiver<"@), frag(path), txt("::ChanneledTask>,) -> Result<(), ::method_taskifier::AllClientsDroppedError> {"@), txt("while self.try_execute_channeled_task_from_queue(receiver)"@)]);
    emit_await(&mut out, executor_method_is_async(ExecutorMethod::TryExecuteChanneledTaskFromQueue, has_async));
    assert(pieces(out@) =~= Seq::<PieceView>::empty() + seq![txt("pub"@)] + async_spec(executor_method_is_async_spec(ExecutorMethod::ExecuteRemainingChanneledTasksFromQueue, has_async)) + seq![txt("fn execute_remaining_channeled_tasks_from_queue(&mut self, receiver: &::method_taskifier::task_channel::TaskReceiver<"@), frag(path), txt("::ChanneledTask>,) -> Result<(), ::method_taskifier::AllClientsDroppedError> {"@), txt("while self.try_execute_channeled_task_from_queue(receiver)"@)] + await_spec(executor_method_is_async_spec(ExecutorMethod::TryExecuteChanneledTaskFromQueue, has_async)));
    push_text(&mut out, "? {}");
    push_text(&mut out, "Ok(()) }");
    assert(pieces(out@) =~= Seq::<PieceView>::empty() + seq![txt("pub"@)] + async_spec(executor_method_is_async_spec(ExecutorMethod::ExecuteRemainingChanneledTasksFromQueue, has_async)) + seq![txt("fn execute_remaining_channeled_tasks_from_queue(&mut self, receiver: &::method_taskifier::task_channel::TaskReceiver<"@), frag(path), txt("::ChanneledTask>,) -> Result<(), ::method_taskifier::AllClientsDroppedError> {"@), txt("while self.try_execute_channeled_task_from_queue(receiver)"@)] + await_spec(executor_method_is_async_spec(ExecutorMethod::TryExecuteChanneledTaskFromQueue, has_async)) + seq![txt("? {}"@), txt("Ok(()) }"@)]);
    out
}

/// The pieces of the executor's `execute_channeled_tasks_from_queue_until_clients_dropped`: it waits for and executes tasks until every client is gone.
pub open spec fn executor_execute_until_dropped_spec(path: usize, has_async: bool) -> Seq<PieceView> {
    seq![txt("pub"@)]
        + async_spec(executor_method_is_async_spec(ExecutorMethod::ExecuteChanneledTasksFromQueueUntilClientsDropped, has_async))
        + seq![txt("fn execute_channeled_tasks_from_queue_until_clients_dropped(&mut self, receiver: &mut ::method_taskifier::task_channel::TaskReceiver<"@), frag(path), txt("::ChanneledTask>,) -> Result<(), ::method_taskifier::AllClientsDroppedError> {"@), txt("loop { self.execute_channeled_task_from_queue(receiver).await? } }"@)]
}

/// Generates the executor's `execute_channeled_tasks_from_queue_until_clients_dropped`: it waits for and executes tasks until every client is gone.
pub fn executor_execute_until_dropped(path: usize, has_async: bool) -> (r: Vec<CodePiece>)
    ensures
        pieces(r@) == executor_execute_until_dropped_spec(path, has_async),
{
    let mut out: Vec<CodePiece> = Vec::new();
    assert(pieces(out@) =~= Seq::<PieceView>::empty());
    push_text(&mut out, "pub");
    assert(pieces(out@) =~= Seq::<PieceView>::empty() + seq![txt("pub"@)]);
    emit_async(&mut out, executor_method_is_async(ExecutorMethod::ExecuteChanneledTasksFromQueueUntilClientsDropped, has_async));
    assert(pieces(out@) =~= Seq::<PieceView>::empty() + seq![txt("pub"@)] + async_spec(executor_method_is_async_spec(ExecutorMethod::ExecuteChanneledTasksFromQueueUntilClientsDropped, has_async)));
    push_text(&mut out, "fn execute_channeled_tasks_from_queue_until_clients_dropped(&mut self, receiver: &mut ::method_taskifier::task_channel::TaskReceiver<");
    push_frag(&mut out, path);
    push_text(&mut out, "::ChanneledTask>,) -> Result<(), ::method_taskifier::AllClientsDroppedError> {");
    push_text(&mut out, "loop { self.execute_channeled_task_from_queue(receiver).await? } }");
    assert(pieces(out@) =~= Seq::<PieceView>::empty() + seq![txt("pub"@)] + async_spec(executor_method_is_async_spec(ExecutorMethod::ExecuteChanneledTasksFromQueueUntilClientsDropped, has_async)) + seq![txt("fn execute_channeled_tasks_from_queue_until_clients_dropped(&mut self, receiver: &mut ::method_taskifier::task_channel::TaskReceiver<"@), frag(path), txt("::ChanneledTask>,) -> Result<(), ::method_taskifier::AllClientsDroppedError> {"@), txt("loop { self.execute_channeled_task_from_queue(receiver).await? } }"@)]);
    out
}

/// The pieces of the methods of the task executor that is added to the worker type.
pub open spec fn executor_impl_body_spec(path: usize, pt: Seq<char>, sv: Seq<WorkerSigView>, has_async: bool) -> Seq<PieceView> {
    executor_execute_task_spec(path, pt, sv, has_async)
        + executor_execute_channeled_task_spec(path, pt, sv, has_async)
        + executor_try_execute_spec(path, has_async)
        + executor_execute_from_queue_spec(path, has_async)
        + executor_execute_remaining_spec(path, has_async)
        + executor_execute_until_dropped_spec(path, has_async)
}

/// Generates the methods of the task executor that is added to the worker type.
pub fn executor_impl_body(path: usize, path_text: &str, sigs: &Vec<WorkerSig>, has_async: bool) -> (r: Vec<CodePiece>)
    ensures
        pieces(r@) == executor_impl_body_spec(path, path_text@, sigs_view(sigs@), has_async),
{
    let ghost pt = path_text@;
    let ghost sv = sigs_view(sigs@);
    let mut out: Vec<CodePiece> = Vec::new();
    assert(pieces(out@) =~= Seq::<PieceView>::empty());
    append(&mut out, executor_execute_task(path, path_text, sigs, has_async));
    assert(pieces(out@) =~= Seq::<PieceView>::empty() + executor_execute_task_spec(path, pt, sv, has_async));
    append(&mut out, executor_execute_channeled_task(path, path_text, sigs, has_async));
    assert(pieces(out@) =~= Seq::<PieceView>::empty() + executor_execute_task_spec(path, pt, sv, has_async) + executor_execute_channeled_task_spec(path, pt, sv, has_async));
    append(&mut out, executor_try_execute(path, has_async));
    assert(pieces(out@) =~= Seq::<PieceView>::empty() + executor_execute_task_spec(path, pt, sv, has_async) + executor_execute_channeled_task_spec(path, pt, sv, has_async) + executor_try_execute_spec(path, has_async));
    append(&mut out, executor_execute_from_queue(path, has_async));
    assert(pieces(out@) =~= Seq::<PieceView>::empty() + executor_execute_task_spec(path, pt, sv, has_async) + executor_execute_channeled_task_spec(path, pt, sv, has_async) + executor_try_execute_spec(path, has_async) + executor_execute_from_queue_spec(path, has_async));
    append(&mut out, executor_execute_remaining(path, has_async));
    assert(pieces(out@) =~= Seq::<PieceView>::empty() + executor_execute_task_spec(path, pt, sv, has_async) + executor_execute_channeled_task_spec(path, pt, sv, has_async) + executor_try_execute_spec(path, has_async) + executor_execute_from_queue_spec(path, has_async) + executor_execute_remaining_spec(path, has_async));
    append(&mut out, executor_execute_until_dropped(path, has_async));
    assert(pieces(out@) =~= Seq::<PieceView>::empty() + executor_execute_task_spec(path, pt, sv, has_async) + executor_execute_channeled_task_spec(path, pt, sv, has_async) + executor_try_execute_spec(path, has_async) + executor_execute_from_queue_spec(path, has_async) + executor_execute_remaining_spec(path, has_async) + executor_execute_until_dropped_spec(path, has_async));
    out
}

/// The pieces of the task executor: the user's `impl` header, then the executor's methods in braces.
pub open spec fn executor_impl_spec(head: usize, path: usize, pt: Seq<char>, sv: Seq<WorkerSigView>, has_async: bool) -> Seq<PieceView> {
    seq![frag(head), txt("{"@)]
        + executor_impl_body_spec(path, pt, sv, has_async)
        + seq![txt("}"@)]
}

/// Generates the task executor: the user's `impl` header, then the executor's methods in braces.
pub fn executor_impl(head: usize, path: usize, path_text: &str, sigs: &Vec<WorkerSig>, has_async: bool) -> (r: Vec<CodePiece>)
    ensures
        pieces(r@) == executor_impl_spec(head, path, path_text@, sigs_view(sigs@), has_async),
{
    let ghost pt = path_text@;
    let ghost sv = sigs_view(sigs@);
    let mut out: Vec<CodePiece> = Vec::new();
    assert(pieces(out@) =~= Seq::<PieceView>::empty());
    push_frag(&mut out, head);
    push_text(&mut out, "{");
    assert(pieces(out@) =~= Seq::<PieceView>::empty() + seq![frag(head), txt("{"@)]);
    append(&mut out, executor_impl_body(path, path_text, sigs, has_async));
    assert(pieces(out@) =~= Seq::<PieceView>::empty() + seq![frag(head), txt("{"@)] + executor_impl_body_spec(path, pt, sv, has_async));
    push_text(&mut out, "}");
    assert(pieces(out@) =~= Seq::<PieceView>::empty() + seq![frag(head), txt("{"@)] + executor_impl_body_spec(path, pt, sv, has_async) + seq![txt("}"@)]);
    out
}

/// The pieces of the client: a struct holding the task sender, and its methods: `new`, `execute_task`, one method per worker method, and the user's client methods.
pub open spec fn client_impl_spec(client: usize, sv: Seq<WorkerSigView>, cm: Seq<usize>) -> Seq<PieceView> {
    seq![txt("#[derive(Clone)] pub struct"@), frag(client), txt("{ task_sender: ::method_taskifier::task_channel::TaskSender<ChanneledTask>, } impl"@), frag(client), txt("{ pub fn new(sender: ::method_taskifier::task_channel::TaskSender<ChanneledTask>,) -> Self { Self { task_sender: sender, } } pub async fn execute_task(&self, task: self::Task) -> Result<self::TaskResult, ::method_taskifier::AllWorkersDroppedError> { match task {"@)]
        + concat_map(sv, client_execute_arm_fn())
        + seq![txt("} }"@)]
        + concat_map(sv, client_function_fn())
        + concat_map(cm, fragment_fn())
        + seq![txt("}"@)]
}

/// Generates the client: a struct holding the task sender, and its methods: `new`, `execute_task`, one method per worker method, and the user's client methods.
pub fn client_impl(client: usize, sigs: &Vec<WorkerSig>, client_methods: &Vec<usize>) -> (r: Vec<CodePiece>)
    ensures
        pieces(r@) == client_impl_spec(client, sigs_view(sigs@), client_methods@),
{
    let ghost sv = sigs_view(sigs@);
    let ghost cm = client_methods@;
    let mut out: Vec<CodePiece> = Vec::new();
    assert(pieces(out@) =~= Seq::<PieceView>::empty());
    push_text(&mut out, "#[derive(Clone)] pub struct");
    push_frag(&mut out, client);
    push_text(&mut out, "{ task_sender: ::method_taskifier::task_channel::TaskSender<ChanneledTask>, } impl");
    push_frag(&mut out, client);
    push_text(&mut out, "{ pub fn new(sender: ::method_taskifier::task_channel::TaskSender<ChanneledTask>,) -> Self { Self { task_sender: sender, } } pub async fn execute_task(&self, task: self::Task) -> Result<self::TaskResult, ::method_taskifier::AllWorkersDroppedError> { match task {");
    assert(pieces(out@) =~= Seq::<PieceView>::empty() + seq![txt("#[derive(Clone)] pub struct"@), frag(client), txt("{ task_sender: ::method_taskifier::task_channel::TaskSender<ChanneledTask>, } impl"@), frag(client), txt("{ pub fn new(sender: ::method_taskifier::task_channel::TaskSender<ChanneledTask>,) -> Self { Self { task_sender: sender, } } pub async fn execute_task(&self, task: self::Task) -> Result<self::TaskResult, ::method_taskifier::AllWorkersDroppedError> { match task {"@)]);
    emit_client_execute_arms(&mut out, sigs);
    assert(pieces(out@) =~= Seq::<PieceView>::empty() + seq![txt("#[derive(Clone)] pub struct"@), frag(client), txt("{ task_sender: ::method_taskifier::task_channel::TaskSender<ChanneledTask>, } impl"@), frag(client), txt("{ pub fn new(sender: ::method_taskifier::task_channel::TaskSender<ChanneledTask>,) -> Self { Self { task_sender: sender, } } pub async fn execute_task(&self, task: self::Task) -> Result<self::TaskResult, ::method_taskifier::AllWorkersDroppedError> { match task {"@)] + concat_map(sv, client_execute_arm_fn()));
    push_text(&mut out, "} }");
    assert(pieces(out@) =~= Seq::<PieceView>::empty() + seq![txt("#[derive(Clone)] pub struct"@), frag(client), txt("{ task_sender: ::method_taskifier::task_channel::TaskSender<ChanneledTask>, } impl"@), frag(client), txt("{ pub fn new(sender: ::method_taskifier::task_channel::TaskSender<ChanneledTask>,) -> Self { Self { task_sender: sender, } } pub async fn execute_task(&self, task: self::Task) -> Result<self::TaskResult, ::method_taskifier::AllWorkersDroppedError> { match task {"@)] + concat_map(sv, client_execute_arm_fn()) + seq![txt("} }"@)]);
    emit_client_functions(&mut out, sigs);
    assert(pieces(out@) =~= Seq::<PieceView>::empty() + seq![txt("#[derive(Clone)] pub struct"@), frag(client), txt("{ task_sender: ::method_taskifier::task_channel::TaskSender<ChanneledTask>, } impl"@), frag(client), txt("{ pub fn new(sender: ::method_taskifier::task_channel::TaskSender<ChanneledTask>,) -> Self { Self { task_sender: sender, } } pub async fn execute_task(&self, task: self::Task) -> Result<self::TaskResult, ::method_taskifier::AllWorkersDroppedError> { match task {"@)] + concat_map(sv, client_execute_arm_fn()) + seq![txt("} }"@)] + concat_map(sv, client_function_fn()));
    emit_fragments(&mut out, client_methods);
    assert(pieces(out@) =~= Seq::<PieceView>::empty() + seq![txt("#[derive(Clone)] pub struct"@), frag(client), txt("{ task_sender: ::method_taskifier::task_channel::TaskSender<ChanneledTask>, } impl"@), frag(client), txt("{ pub fn new(sender: ::method_taskifier::task_channel::TaskSender<ChanneledTask>,) -> Self { Self { task_sender: sender, } } pub async fn execute_task(&self, task: self::Task) -> Result<self::TaskResult, ::method_taskifier::AllWorkersDroppedError> { match task {"@)] + concat_map(sv, client_execute_arm_fn()) + seq![txt("} }"@)] + concat_map(sv, client_function_fn()) + concat_map(cm, fragment_fn()));
    push_text(&mut out, "}");
    assert(pieces(out@) =~= Seq::<PieceView>::empty() + seq![txt("#[derive(Clone)] pub struct"@), frag(client), txt("{ task_sender: ::method_taskifier::task_channel::TaskSender<ChanneledTask>, } impl"@), frag(client), txt("{ pub fn new(sender: ::method_taskifier::task_channel::TaskSender<ChanneledTask>,) -> Self { Self { task_sender: sender, } } pub async fn execute_task(&self, task: self::Task) -> Result<self::TaskResult, ::method_taskifier::AllWorkersDroppedError> { match task {"@)] + concat_map(sv, client_execute_arm_fn()) + seq![txt("} }"@)] + concat_map(sv, client_function_fn()) + concat_map(cm, fragment_fn()) + seq![txt("}"@)]);
    out
}

/// The pieces of the whole expansion: the worker `impl` block as the user wrote it less the markers and client methods, the executor, the task types with their constructors and accessors, the channel constructor and the client.
pub open spec fn expansion_items_spec(args: TaskifierArgs<usize, usize>, pt: Seq<char>, sv: Seq<WorkerSigView>, worker_impl: usize, executor_head: usize, cm: Seq<usize>) -> Seq<PieceView> {
    seq![frag(worker_impl)]
        + executor_impl_spec(executor_head, args.task_definitions_module_path, pt, sv, any_async(sv))
        + concat_map(sv, task_structs_fn(args.use_serde))
        + serde_derive_spec(args.use_serde)
        + seq![txt("pub enum Task {"@)]
        + join_map(sv, task_variant_fn(), comma())
        + seq![txt("} impl Task {"@)]
        + concat_map(sv, task_builder_fn())
        + seq![txt("}"@)]
        + serde_derive_spec(args.use_serde)
        + seq![txt("pub enum TaskResult {"@)]
        + join_map(sv, task_result_variant_fn(), comma())
        + seq![txt("} impl TaskResult {"@)]
        + concat_map(sv, as_result_function_fn())
        + seq![txt("}"@)]
        + serde_derive_spec(false)
        + seq![txt("pub enum ChanneledTask {"@)]
        + join_map(sv, channeled_task_variant_fn(), comma())
        + seq![txt("} pub fn channel() -> ( ::method_taskifier::task_channel::TaskSender<ChanneledTask>, ::method_taskifier::task_channel::TaskReceiver<ChanneledTask>, ) { ::method_taskifier::task_channel::task_channel() }"@)]
        + client_impl_spec(args.client_name, sv, cm)
}

/// Generates the whole expansion: the worker `impl` block as the user wrote it less the markers and client methods, the executor, the task types with their constructors and accessors, the channel constructor and the client.
pub fn expansion_items(args: &TaskifierArgs<usize, usize>, path_text: &str, sigs: &Vec<WorkerSig>, worker_impl: usize, executor_head: usize, client_methods: &Vec<usize>) -> (r: Vec<CodePiece>)
    ensures
        pieces(r@) == expansion_items_spec(*args, path_text@, sigs_view(sigs@), worker_impl, executor_head, client_methods@),
{
    let ghost pt = path_text@;
    let ghost sv = sigs_view(sigs@);
    let ghost cm = client_methods@;
    let has_async = has_async_worker_method(sigs);
    let mut out: Vec<CodePiece> = Vec::new();
    assert(pieces(out@) =~= Seq::<PieceView>::empty());
    push_frag(&mut out, worker_impl);
    assert(pieces(out@) =~= Seq::<PieceView>::empty() + seq![frag(worker_impl)]);
    append(&mut out, executor_impl(executor_head, args.task_definitions_module_path, path_text, sigs, has_async));
    assert(pieces(out@) =~= Seq::<PieceView>::empty() + seq![frag(worker_impl)] + executor_impl_spec(executor_head, args.task_definitions_module_path, pt, sv, any_async(sv)));
    emit_task_structs(&mut out, args.use_serde, sigs);
    assert(pieces(out@) =~= Seq::<PieceView>::empty() + seq![frag(worker_impl)] + executor_impl_spec(executor_head, args.task_definitions_module_path, pt, sv, any_async(sv)) + concat_map(sv, task_structs_fn(args.use_serde)));
    emit_serde(&mut out, derives_serde(args.use_serde, GeneratedItem::TaskEnum));
    assert(pieces(out@) =~= Seq::<PieceView>::empty() + seq![frag(worker_impl)] + executor_impl_spec(executor_head, args.task_definitions_module_path, pt, sv, any_async(sv)) + concat_map(sv, task_structs_fn(args.use_serde)) + serde_derive_spec(args.use_serde));
    push_text(&mut out, "pub enum Task {");
    assert(pieces(out@) =~= Seq::<PieceView>::empty() + seq![frag(worker_impl)] + executor_impl_spec(executor_head, args.task_definitions_module_path, pt, sv, any_async(sv)) + concat_map(sv, task_structs_fn(args.use_serde)) + serde_derive_spec(args.use_serde) + seq![txt("pub enum Task {"@)]);
    emit_task_variants(&mut out, sigs);
    assert(pieces(out@) =~= Seq::<PieceView>::empty() + seq![frag(worker_impl)] + executor_impl_spec(executor_head, args.task_definitions_module_path, pt, sv, any_async(sv)) + concat_map(sv, task_structs_fn(args.use_serde)) + serde_derive_spec(args.use_serde) + seq![txt("pub enum Task {"@)] + join_map(sv, task_variant_fn(), comma()));
    push_text(&mut out, "} impl Task {");
    assert(pieces(out@) =~= Seq::<PieceView>::empty() + seq![frag(worker_impl)] + executor_impl_spec(executor_head, args.task_definitions_module_path, pt, sv, any_async(sv)) + concat_map(sv, task_structs_fn(args.use_serde)) + serde_derive_spec(args.use_serde) + seq![txt("pub enum Task {"@)] + join_map(sv, task_variant_fn(), comma()) + seq![txt("} impl Task {"@)]);
    emit_task_builders(&mut out, sigs);
    assert(pieces(out@) =~= Seq::<PieceView>::empty() + seq![frag(worker_impl)] + executor_impl_spec(executor_head, args.task_definitions_module_path, pt, sv, any_async(sv)) + concat_map(sv, task_structs_fn(args.use_serde)) + serde_derive_spec(args.use_serde) + seq![txt("pub enum Task {"@)] + join_map(sv, task_variant_fn(), comma()) + seq![txt("} impl Task {"@)] + concat_map(sv, task_builder_fn()));
    push_text(&mut out, "}");
    assert(pieces(out@) =~= Seq::<PieceView>::empty() + seq![frag(worker_impl)] + executor_impl_spec(executor_head, args.task_definitions_module_path, pt, sv, any_async(sv)) + concat_map(sv, task_structs_fn(args.use_serde)) + serde_derive_spec(args.use_serde) + seq![txt("pub enum Task {"@)] + join_map(sv, task_variant_fn(), comma()) + seq![txt("} impl Task {"@)] + concat_map(sv, task_builder_fn()) + seq![txt("}"@)]);
    emit_serde(&mut out, derives_serde(args.use_serde, GeneratedItem::TaskResultEnum));
    assert(pieces(out@) =~= Seq::<PieceView>::empty() + seq![frag(worker_impl)] + executor_impl_spec(executor_head, args.task_definitions_module_path, pt, sv, any_async(sv)) + concat_map(sv, task_structs_fn(args.use_serde)) + serde_derive_spec(args.use_serde) + seq![txt("pub enum Task {"@)] + join_map(sv, task_variant_fn(), comma()) + seq![txt("} impl Task {"@)] + concat_map(sv, task_builder_fn()) + seq![txt("}"@)] + serde_derive_spec(args.use_serde));
    push_text(&mut out, "pub enum TaskResult {");
    assert(pieces(out@) =~= Seq::<PieceView>::empty() + seq![frag(worker_impl)] + executor_impl_spec(executor_head, args.task_definitions_module_path, pt, sv, any_async(sv)) + concat_map(sv, task_structs_fn(args.use_serde)) + serde_derive_spec(args.use_serde) + seq![txt("pub enum Task {"@)] + join_map(sv, task_variant_fn(), comma()) + seq![txt("} impl Task {"@)] + concat_map(sv, task_builder_fn()) + seq![txt("}"@)] + serde_derive_spec(args.use_serde) + seq![txt("pub enum TaskResult {"@)]);
    emit_task_result_variants(&mut out, sigs);
    assert(pieces(out@) =~= Seq::<PieceView>::empty() + seq![frag(worker_impl)] + executor_impl_spec(executor_head, args.task_definitions_module_path, pt, sv, any_async(sv)) + concat_map(sv, task_structs_fn(args.use_serde)) + serde_derive_spec(args.use_serde) + seq![txt("pub enum Task {"@)] + join_map(sv, task_variant_fn(), comma()) + seq![txt("} impl Task {"@)] + concat_map(sv, task_builder_fn()) + seq![txt("}"@)] + serde_derive_spec(args.use_serde) + seq![txt("pub enum TaskResult {"@)] + join_map(sv, task_result_variant_fn(), comma()));
    push_text(&mut out, "} impl TaskResult {");
    assert(pieces(out@) =~= Seq::<PieceView>::empty() + seq![frag(worker_impl)] + executor_impl_spec(executor_head, args.task_definitions_module_path, pt, sv, any_async(sv)) + concat_map(sv, task_structs_fn(args.use_serde)) + serde_derive_spec(args.use_serde) + seq![txt("pub enum Task {"@)] + join_map(sv, task_variant_fn(), comma()) + seq![txt("} impl Task {"@)] + concat_map(sv, task_builder_fn()) + seq![txt("}"@)] + serde_derive_spec(args.use_serde) + seq![txt("pub enum TaskResult {"@)] + join_map(sv, task_result_variant_fn(), comma()) + seq![txt("} impl TaskResult {"@)]);
    emit_as_result_functions(&mut out, sigs);
    assert(pieces(out@) =~= Seq::<PieceView>::empty() + seq![frag(worker_impl)] + executor_impl_spec(executor_head, args.task_definitions_module_path, pt, sv, any_async(sv)) + concat_map(sv, task_structs_fn(args.use_serde)) + serde_derive_spec(args.use_serde) + seq![txt("pub enum Task {"@)] + join_map(sv, task_variant_fn(), comma()) + seq![txt("} impl Task {"@)] + concat_map(sv, task_builder_fn()) + seq![txt("}"@)] + serde_derive_spec(args.use_serde) + seq![txt("pub enum TaskResult {"@)] + join_map(sv, task_result_variant_fn(), comma()) + seq![txt("} impl TaskResult {"@)] + concat_map(sv, as_result_function_fn()));
    push_text(&mut out, "}");
    assert(pieces(out@) =~= Seq::<PieceView>::empty() + seq![frag(worker_impl)] + executor_impl_spec(executor_head, args.task_definitions_module_path, pt, sv, any_async(sv)) + concat_map(sv, task_structs_fn(args.use_serde)) + serde_derive_spec(args.use_serde) + seq![txt("pub enum Task {"@)] + join_map(sv, task_variant_fn(), comma()) + seq![txt("} impl Task {"@)] + concat_map(sv, task_builder_fn()) + seq![txt("}"@)] + serde_derive_spec(args.use_serde) + seq![txt("pub enum TaskResult {"@)] + join_map(sv, task_result_variant_fn(), comma()) + seq![txt("} impl TaskResult {"@)] + concat_map(sv, as_result_function_fn()) + seq![txt("}"@)]);
    emit_serde(&mut out, derives_serde(args.use_serde, GeneratedItem::ChanneledTaskEnum));
    assert(pieces(out@) =~= Seq::<PieceView>::empty() + seq![frag(worker_impl)] + executor_impl_spec(executor_head, args.task_definitions_module_path, pt, sv, any_async(sv)) + concat_map(sv, task_structs_fn(args.use_serde)) + serde_derive_spec(args.use_serde) + seq![txt("pub enum Task {"@)] + join_map(sv, task_variant_fn(), comma()) + seq![txt("} impl Task {"@)] + concat_map(sv, task_builder_fn()) + seq![txt("}"@)] + serde_derive_spec(args.use_serde) + seq![txt("pub enum TaskResult {"@)] + join_map(sv, task_result_variant_fn(), comma()) + seq![txt("} impl TaskResult {"@)] + concat_map(sv, as_result_function_fn()) + seq![txt("}"@)] + serde_derive_spec(false));
    push_text(&mut out, "pub enum ChanneledTask {");
    assert(pieces(out@) =~= Seq::<PieceView>::empty() + seq![frag(worker_impl)] + executor_impl_spec(executor_head, args.task_definitions_module_path, pt, sv, any_async(sv)) + concat_map(sv, task_structs_fn(args.use_serde)) + serde_derive_spec(args.use_serde) + seq![txt("pub enum Task {"@)] + join_map(sv, task_variant_fn(), comma()) + seq![txt("} impl Task {"@)] + concat_map(sv, task_builder_fn()) + seq![txt("}"@)] + serde_derive_spec(args.use_serde) + seq![txt("pub enum TaskResult {"@)] + join_map(sv, task_result_variant_fn(), comma()) + seq![txt("} impl TaskResult {"@)] + concat_map(sv, as_result_function_fn()) + seq![txt("}"@)] + serde_derive_spec(false) + seq![txt("pub enum ChanneledTask {"@)]);
    emit_channeled_task_variants(&mut out, sigs);
    assert(pieces(out@) =~= Seq::<PieceView>::empty() + seq![frag(worker_impl)] + executor_impl_spec(executor_head, args.task_definitions_module_path, pt, sv, any_async(sv)) + concat_map(sv, task_structs_fn(args.use_serde)) + serde_derive_spec(args.use_serde) + seq![txt("pub enum Task {"@)] + join_map(sv, task_variant_fn(), comma()) + seq![txt("} impl Task {"@)] + concat_map(sv, task_builder_fn()) + seq![txt("}"@)] + serde_derive_spec(args.use_serde) + seq![txt("pub enum TaskResult {"@)] + join_map(sv, task_result_variant_fn(), comma()) + seq![txt("} impl TaskResult {"@)] + concat_map(sv, as_result_function_fn()) + seq![txt("}"@)] + serde_derive_spec(false) + seq![txt("pub enum ChanneledTask {"@)] + join_map(sv, channeled_task_variant_fn(), comma()));
    push_text(&mut out, "} pub fn channel() -> ( ::method_taskifier::task_channel::TaskSender<ChanneledTask>, ::method_taskifier::task_channel::TaskReceiver<ChanneledTask>, ) { ::method_taskifier::task_channel::task_channel() }");
    assert(pieces(out@) =~= Seq::<PieceView>::empty() + seq![frag(worker_impl)] + executor_impl_spec(executor_head, args.task_definitions_module_path, pt, sv, any_async(sv)) + concat_map(sv, task_structs_fn(args.use_serde)) + serde_derive_spec(args.use_serde) + seq![txt("pub enum Task {"@)] + join_map(sv, task_variant_fn(), comma()) + seq![txt("} impl Task {"@)] + concat_map(sv, task_builder_fn()) + seq![txt("}"@)] + serde_derive_spec(args.use_serde) + seq![txt("pub enum TaskResult {"@)] + join_map(sv, task_result_variant_fn(), comma()) + seq![txt("} impl TaskResult {"@)] + concat_map(sv, as_result_function_fn()) + seq![txt("}"@)] + serde_derive_spec(false) + seq![txt("pub enum ChanneledTask {"@)] + join_map(sv, channeled_task_variant_fn(), comma()) + seq![txt("} pub fn channel() -> ( ::method_taskifier::task_channel::TaskSender<ChanneledTask>, ::method_taskifier::task_channel::TaskReceiver<ChanneledTask>, ) { ::method_taskifier::task_channel::task_channel() }"@)]);
    append(&mut out, client_impl(args.client_name, sigs, client_methods));
    assert(pieces(out@) =~= Seq::<PieceView>::empty() + seq![frag(worker_impl)] + executor_impl_spec(executor_head, args.task_definitions_module_path, pt, sv, any_async(sv)) + concat_map(sv, task_structs_fn(args.use_serde)) + serde_derive_spec(args.use_serde) + seq![txt("pub enum Task {"@)] + join_map(sv, task_variant_fn(), comma()) + seq![txt("} impl Task {"@)] + concat_map(sv, task_builder_fn()) + seq![txt("}"@)] + serde_derive_spec(args.use_serde) + seq![txt("pub enum TaskResult {"@)] + join_map(sv, task_result_variant_fn(), comma()) + seq![txt("} impl TaskResult {"@)] + concat_map(sv, as_result_function_fn()) + seq![txt("}"@)] + serde_derive_spec(false) + seq![txt("pub enum ChanneledTask {"@)] + join_map(sv, channeled_task_variant_fn(), comma()) + seq![txt("} pub fn channel() -> ( ::method_taskifier::task_channel::TaskSender<ChanneledTask>, ::method_taskifier::task_channel::TaskReceiver<ChanneledTask>, ) { ::method_taskifier::task_channel::task_channel() }"@)] + client_impl_spec(args.client_name, sv, cm));
    out
}
/// The number of pieces of `n` parameters separated by commas.
pub open spec fn param_list_len(n: nat) -> int {
    if n == 0 { 0 } else { 2 * n - 1 }
}

/// `x` lists the parameters of `params` in signature order, separated by
/// commas, and nothing else: their typed arguments when `typed`, their
/// patterns otherwise.
pub open spec fn lists_params(x: Seq<PieceView>, params: Seq<(usize, usize)>, typed: bool) -> bool {
    &&& x.len() == param_list_len(params.len())
    &&& forall|j: int| 0 <= j < params.len() ==> #[trigger] x[2 * j] == frag(if typed { params[j].1 } else { params[j].0 })
    &&& forall|j: int| 0 <= j < params.len() - 1 ==> #[trigger] x[2 * j + 1] == txt(","@)
}

/// At `k` the pieces call the worker method `ident` on `self` with exactly
/// the patterns of `params`, in order, binding the result to `ret`.
pub open spec fn calls_at(pieces: Seq<PieceView>, k: int, ident: usize, params: Seq<(usize, usize)>) -> bool {
    let n: int = param_list_len(params.len());
    &&& 0 <= k
    &&& k + 3 + n < pieces.len()
    &&& pieces[k] == txt("let ret = self."@)
    &&& pieces[k + 1] == frag(ident)
    &&& pieces[k + 2] == txt("("@)
    &&& lists_params(pieces.subrange(k + 3, k + 3 + n), params, false)
    &&& pieces[k + 3 + n] == txt(")"@)
}

/// At `j` the pieces destructure the struct `name` into exactly the patterns
/// of `params`.
pub open spec fn destructures_at(pieces: Seq<PieceView>, j: int, name: Seq<char>, params: Seq<(usize, usize)>) -> bool {
    let n: int = param_list_len(params.len());
    &&& 0 <= j
    &&& j + 2 + n <= pieces.len()
    &&& pieces[j] == txt(name)
    &&& pieces[j + 1] == txt("{"@)
    &&& lists_params(pieces.subrange(j + 2, j + 2 + n), params, false)
}

/// The parameters joined with commas list the parameters in order.
pub proof fn lemma_param_list_lists_params(params: Seq<(usize, usize)>, typed: bool)
    ensures
        lists_params(param_list(params, typed), params, typed),
    decreases params.len(),
{
    let x = param_list(params, typed);
    if params.len() == 1 {
        assert(x == seq![frag(if typed { params[0].1 } else { params[0].0 })]);
    } else if params.len() > 1 {
        let pre = params.drop_last();
        lemma_param_list_lists_params(pre, typed);
        let y = param_list(pre, typed);
        assert(x == y + comma() + seq![frag(if typed { params.last().1 } else { params.last().0 })]);
        assert forall|j: int| 0 <= j < params.len() implies #[trigger] x[2 * j] == frag(if typed { params[j].1 } else { params[j].0 }) by {
            if j < params.len() - 1 {
                assert(y[2 * j] == frag(if typed { pre[j].1 } else { pre[j].0 }));
            }
        }
        assert forall|j: int| 0 <= j < params.len() - 1 implies #[trigger] x[2 * j + 1] == txt(","@) by {
            if j < params.len() - 2 {
                assert(y[2 * j + 1] == txt(","@));
            }
        }
    }
}

/// The constructor of `Task` for a worker method is named after the method and
/// takes the method's typed arguments in signature order, so that
/// `Task::m(a, b)` holds the same arguments as a call `m(a, b)`.
pub proof fn lemma_task_builder_takes_arguments_in_order(s: WorkerSigView)
    ensures
        ({
            let b = task_builder_spec(s);
            let n: int = param_list_len(s.params.len());
            &&& b.subrange(0, 3) == seq![txt("pub fn"@), frag(s.ident), txt("("@)]
            &&& 3 + n < b.len()
            &&& lists_params(b.subrange(3, 3 + n), s.params, true)
            &&& b[3 + n] == txt(") -> self::Task { self::Task::"@)
        }),
{
    let b = task_builder_spec(s);
    lemma_param_list_lists_params(s.params, true);
    let pl = param_list(s.params, true);
    let n: int = pl.len() as int;
    assert(b.subrange(0, 3) =~= seq![txt("pub fn"@), frag(s.ident), txt("("@)]);
    assert(b.subrange(3, 3 + n) =~= pl);
}

/// The executor's `execute_task` arm of a worker method destructures the
/// method's parameter struct into the method's parameter patterns, calls the
/// method on the worker with exactly those patterns in signature order, and
/// returns the method's result wrapped in the method's `TaskResult` variant.
pub proof fn lemma_execution_arm_calls_method(path: usize, pt: Seq<char>, s: WorkerSigView)
    ensures
        ({
            let arm = task_execution_arm_spec(path, pt, s);
            &&& exists|j: int| #[trigger] destructures_at(arm, j, params_struct_of(s), s.params)
            &&& exists|k: int| #[trigger] calls_at(arm, k, s.ident, s.params)
            &&& arm.subrange(arm.len() - 8, arm.len() as int) == seq![
                frag(path), txt("::TaskResult::"@), txt(variant_of(s)), txt("("@), frag(path), txt("::"@),
                txt(result_struct_of(s)), txt("(ret)) }"@),
            ]
        }),
{
    let arm = task_execution_arm_spec(path, pt, s);
    let pl = param_list(s.params, false);
    lemma_param_list_lists_params(s.params, false);
    let n: int = pl.len() as int;
    assert(arm.subrange(8, 8 + n) =~= pl);
    assert(destructures_at(arm, 6, params_struct_of(s), s.params));
    let k: int = 8 + n + 4;
    assert(arm.subrange(k + 3, k + 3 + n) =~= pl);
    assert(calls_at(arm, k, s.ident, s.params));
    assert(arm.subrange(arm.len() - 8, arm.len() as int) =~= seq![
        frag(path), txt("::TaskResult::"@), txt(variant_of(s)), txt("("@), frag(path), txt("::"@),
        txt(result_struct_of(s)), txt("(ret)) }"@),
    ]);
}

/// The executor's `execute_channeled_task` arm of a worker method binds the
/// task's result sender, destructures the parameters, calls the method with
/// exactly those patterns in signature order, and afterwards sends the
/// method's result, wrapped in the method's result struct, through the
/// result sender.
pub proof fn lemma_channeled_arm_sends_result(path: usize, pt: Seq<char>, s: WorkerSigView)
    ensures
        ({
            let arm = channeled_task_execution_arm_spec(path, pt, s);
            &&& arm[3] == txt("{ result_sender, params:"@)
            &&& exists|j: int| #[trigger] destructures_at(arm, j, params_struct_of(s), s.params)
            &&& exists|k: int, m: int| #[trigger] calls_at(arm, k, s.ident, s.params) && k < m && #[trigger] arm.subrange(m, m + 5) == seq![
                txt("let _ = result_sender.send("@), frag(path), txt("::"@), txt(result_struct_of(s)), txt("(ret));"@),
            ]
        }),
{
    let arm = channeled_task_execution_arm_spec(path, pt, s);
    let pl = param_list(s.params, false);
    lemma_param_list_lists_params(s.params, false);
    let n: int = pl.len() as int;
    assert(arm.subrange(8, 8 + n) =~= pl);
    assert(destructures_at(arm, 6, params_struct_of(s), s.params));
    let k: int = 8 + n + 4;
    assert(arm.subrange(k + 3, k + 3 + n) =~= pl);
    assert(calls_at(arm, k, s.ident, s.params));
    let w: int = await_spec(s.is_async).len() as int;
    let m: int = k + 4 + n + w + 4;
    assert(arm.subrange(m, m + 5) =~= seq![
        txt("let _ = result_sender.send("@), frag(path), txt("::"@), txt(result_struct_of(s)), txt("(ret));"@),
    ]);
}

/// The client's method for a worker method sends the task and keeps the
/// outcome of the send in `ret`; it returns `AllWorkersDroppedError` early
/// only under `if let Err(e) = ret`, that is when the send failed; after that
/// it awaits the worker's result and resolves to `Ok` of what the worker sent.
pub proof fn lemma_client_body_fails_only_on_send_error(s: WorkerSigView)
    ensures
        ({
            let body = client_function_body_spec(s);
            exists|a: int, b: int, c: int|
                0 <= a < b && b + 6 <= c && c + 2 <= body.len()
                && #[trigger] body[a] == txt("let ret = self.task_sender.send(ChanneledTask::"@)
                && #[trigger] body.subrange(b, b + 6) == seq![
                    txt("if let Err(e) = ret {"@), txt("::log::error!("@), lit(send_error_msg(s)),
                    txt(", module_path!(), e);"@), txt("return Err(::method_taskifier::AllWorkersDroppedError);"@),
                    txt("}"@),
                ]
                && #[trigger] body.subrange(c, c + 2) == seq![txt("match result_receiver.await {"@), txt("Ok(ret) => Ok(ret.0),"@)]
        }),
{
    let body = client_function_body_spec(s);
    let n: int = param_list(s.params, false).len() as int;
    let a: int = 4;
    let b: int = 9 + n + 2;
    let c: int = b + 6 + 3;
    assert(body[a] == txt("let ret = self.task_sender.send(ChanneledTask::"@));
    assert(body.subrange(b, b + 6) =~= seq![
        txt("if let Err(e) = ret {"@), txt("::log::error!("@), lit(send_error_msg(s)),
        txt(", module_path!(), e);"@), txt("return Err(::method_taskifier::AllWorkersDroppedError);"@),
        txt("}"@),
    ]);
    assert(body.subrange(c, c + 2) =~= seq![txt("match result_receiver.await {"@), txt("Ok(ret) => Ok(ret.0),"@)]);
}

/// The arm of the client's `execute_task` for a worker method sends the task
/// and returns `AllWorkersDroppedError` early only when the send failed; after
/// that it awaits the worker's result and wraps it in the method's
/// `TaskResult` variant.
pub proof fn lemma_client_arm_fails_only_on_send_error(s: WorkerSigView)
    ensures
        ({
            let arm = client_execute_arm_spec(s);
            exists|a: int, b: int, c: int|
                0 <= a < b && b + 6 <= c && c + 3 <= arm.len()
                && #[trigger] arm[a] == txt("let ret = self.task_sender.send(self::ChanneledTask::"@)
                && #[trigger] arm.subrange(b, b + 6) == seq![
                    txt("if let Err(e) = ret {"@), txt("::log::error!("@), lit(send_error_msg(s)),
                    txt(", module_path!(), e);"@), txt("return Err(::method_taskifier::AllWorkersDroppedError);"@),
                    txt("}"@),
                ]
                && #[trigger] arm.subrange(c, c + 3) == seq![
                    txt("match result_receiver.await {"@), txt("Ok(ret) => Ok(self::TaskResult::"@), txt(variant_of(s)),
                ]
        }),
{
    let arm = client_execute_arm_spec(s);
    let a: int = 7;
    let b: int = 10;
    let c: int = b + 6 + 3;
    assert(arm[a] == txt("let ret = self.task_sender.send(self::ChanneledTask::"@));
    assert(arm.subrange(b, b + 6) =~= seq![
        txt("if let Err(e) = ret {"@), txt("::log::error!("@), lit(send_error_msg(s)),
        txt(", module_path!(), e);"@), txt("return Err(::method_taskifier::AllWorkersDroppedError);"@),
        txt("}"@),
    ]);
    assert(arm.subrange(c, c + 3) =~= seq![
        txt("match result_receiver.await {"@), txt("Ok(ret) => Ok(self::TaskResult::"@), txt(variant_of(s)),
    ]);
}

proof fn lemma_concat_map_contains<A>(items: Seq<A>, f: spec_fn(A) -> Seq<PieceView>, i: int)
    requires
        0 <= i < items.len(),
    ensures
        exists|k: int| 0 <= k && k + f(items[i]).len() <= concat_map(items, f).len()
            && #[trigger] concat_map(items, f).subrange(k, k + f(items[i]).len()) == f(items[i]),
    decreases items.len(),
{
    let whole = concat_map(items, f);
    let pre = concat_map(items.drop_last(), f);
    let item = f(items[i]);
    if i == items.len() - 1 {
        let k: int = pre.len() as int;
        assert(whole.subrange(k, k + item.len()) =~= item);
    } else {
        lemma_concat_map_contains(items.drop_last(), f, i);
        assert(items.drop_last()[i] == items[i]);
        let k: int = choose|k: int| 0 <= k && k + item.len() <= pre.len()
            && #[trigger] pre.subrange(k, k + item.len()) == item;
        assert(whole.subrange(k, k + item.len()) =~= pre.subrange(k, k + item.len()));
    }
}

/// The executor's `execute_task` dispatches every worker method: the arm of
/// each method stands in its `match`.
pub proof fn lemma_execute_task_dispatches_every_method(path: usize, pt: Seq<char>, sv: Seq<WorkerSigView>, has_async: bool, i: int)
    requires
        0 <= i < sv.len(),
    ensures
        ({
            let m = executor_execute_task_spec(path, pt, sv, has_async);
            let arm = task_execution_arm_spec(path, pt, sv[i]);
            exists|k: int| 0 <= k && k + arm.len() <= m.len() && #[trigger] m.subrange(k, k + arm.len()) == arm
        }),
{
    let m = executor_execute_task_spec(path, pt, sv, has_async);
    let f = task_execution_arm_fn(path, pt);
    let arm = task_execution_arm_spec(path, pt, sv[i]);
    let all = concat_map(sv, f);
    lemma_concat_map_contains(sv, f, i);
    assert(f(sv[i]) == arm);
    let k: int = choose|k: int| 0 <= k && k + arm.len() <= all.len() && #[trigger] all.subrange(k, k + arm.len()) == arm;
    let pre = seq![txt("pub"@)] + async_spec(executor_method_is_async_spec(ExecutorMethod::ExecuteTask, has_async))
        + seq![txt("fn execute_task(&mut self, task:"@), frag(path), txt("::Task,) ->"@), frag(path), txt("::TaskResult {"@), txt("match task {"@)];
    let off: int = pre.len() as int;
    assert(m.subrange(off + k, off + k + arm.len()) =~= all.subrange(k, k + arm.len()));
}

/// The executor's `execute_channeled_task` dispatches every worker method: the
/// channeled arm of each method stands in its `match`.
pub proof fn lemma_execute_channeled_task_dispatches_every_method(path: usize, pt: Seq<char>, sv: Seq<WorkerSigView>, has_async: bool, i: int)
    requires
        0 <= i < sv.len(),
    ensures
        ({
            let m = executor_execute_channeled_task_spec(path, pt, sv, has_async);
            let arm = channeled_task_execution_arm_spec(path, pt, sv[i]);
            exists|k: int| 0 <= k && k + arm.len() <= m.len() && #[trigger] m.subrange(k, k + arm.len()) == arm
        }),
{
    let m = executor_execute_channeled_task_spec(path, pt, sv, has_async);
    let f = channeled_task_execution_arm_fn(path, pt);
    let arm = channeled_task_execution_arm_spec(path, pt, sv[i]);
    let all = concat_map(sv, f);
    lemma_concat_map_contains(sv, f, i);
    assert(f(sv[i]) == arm);
    let k: int = choose|k: int| 0 <= k && k + arm.len() <= all.len() && #[trigger] all.subrange(k, k + arm.len()) == arm;
    let pre = seq![txt("pub"@)] + async_spec(executor_method_is_async_spec(ExecutorMethod::ExecuteChanneledTask, has_async))
        + seq![txt("fn execute_channeled_task(&mut self, task:"@), frag(path), txt("::ChanneledTask,) {"@), txt("match task {"@)];
    let off: int = pre.len() as int;
    assert(m.subrange(off + k, off + k + arm.len()) =~= all.subrange(k, k + arm.len()));
}

/// `try_execute_channeled_task_from_queue` takes a task without waiting; when
/// it gets one it executes it (awaiting exactly when `execute_channeled_task`
/// is `async`) and reports `Ok(true)`; with an empty queue it reports
/// `Ok(false)`; once every client is gone it reports `AllClientsDroppedError`.
pub proof fn lemma_try_execute_reports_outcome(path: usize, has_async: bool)
    ensures
        ({
            let m = executor_try_execute_spec(path, has_async);
            exists|a: int, b: int|
                0 <= a && a + 3 <= b && b + 4 <= m.len()
                && #[trigger] m.subrange(a, a + 3) == seq![
                    txt("let task = receiver.try_recv();"@), txt("match task {"@),
                    txt("Ok(task) => { self.execute_channeled_task(task)"@),
                ]
                && m.subrange(a + 3, b) == await_spec(executor_method_is_async_spec(ExecutorMethod::ExecuteChanneledTask, has_async))
                && #[trigger] m.subrange(b, b + 4) == seq![
                    txt(";"@), txt("return Ok(true); }"@),
                    txt("Err(::method_taskifier::task_channel::TryRecvError::Empty) => return Ok(false),"@),
                    txt("Err(::method_taskifier::task_channel::TryRecvError::Disconnected) => { return Err(::method_taskifier::AllClientsDroppedError) }"@),
                ]
        }),
{
    let m = executor_try_execute_spec(path, has_async);
    let x: int = async_spec(executor_method_is_async_spec(ExecutorMethod::TryExecuteChanneledTaskFromQueue, has_async)).len() as int;
    let w: int = await_spec(executor_method_is_async_spec(ExecutorMethod::ExecuteChanneledTask, has_async)).len() as int;
    let a: int = 4 + x;
    let b: int = a + 3 + w;
    assert(m.subrange(a, a + 3) =~= seq![
        txt("let task = receiver.try_recv();"@), txt("match task {"@),
        txt("Ok(task) => { self.execute_channeled_task(task)"@),
    ]);
    assert(m.subrange(a + 3, b) =~= await_spec(executor_method_is_async_spec(ExecutorMethod::ExecuteChanneledTask, has_async)));
    assert(m.subrange(b, b + 4) =~= seq![
        txt(";"@), txt("return Ok(true); }"@),
        txt("Err(::method_taskifier::task_channel::TryRecvError::Empty) => return Ok(false),"@),
        txt("Err(::method_taskifier::task_channel::TryRecvError::Disconnected) => { return Err(::method_taskifier::AllClientsDroppedError) }"@),
    ]);
}

/// `execute_channeled_task_from_queue` is always `async`: it waits for a task,
/// executes it (awaiting exactly when `execute_channeled_task` is `async`) and
/// reports `Ok(())`, or reports `AllClientsDroppedError` once every client is
/// gone.
pub proof fn lemma_execute_from_queue_waits_then_executes(path: usize, has_async: bool)
    ensures
        ({
            let m = executor_execute_from_queue_spec(path, has_async);
            &&& m.subrange(0, 2) == seq![txt("pub"@), txt("async"@)]
            &&& exists|a: int, b: int|
                0 <= a && a + 3 <= b && b + 3 <= m.len()
                && #[trigger] m.subrange(a, a + 3) == seq![
                    txt("let task = receiver.recv_async().await;"@), txt("match task {"@),
                    txt("Ok(task) => { self.execute_channeled_task(task)"@),
                ]
                && m.subrange(a + 3, b) == await_spec(executor_method_is_async_spec(ExecutorMethod::ExecuteChanneledTask, has_async))
                && #[trigger] m.subrange(b, b + 3) == seq![
                    txt(";"@), txt("Ok(()) }"@),
                    txt("Err(::method_taskifier::task_channel::RecvError::Disconnected) => { Err(::method_taskifier::AllClientsDroppedError) }"@),
                ]
        }),
{
    let m = executor_execute_from_queue_spec(path, has_async);
    let w: int = await_spec(executor_method_is_async_spec(ExecutorMethod::ExecuteChanneledTask, has_async)).len() as int;
    let a: int = 5;
    let b: int = a + 3 + w;
    assert(m.subrange(0, 2) =~= seq![txt("pub"@), txt("async"@)]);
    assert(m.subrange(a, a + 3) =~= seq![
        txt("let task = receiver.recv_async().await;"@), txt("match task {"@),
        txt("Ok(task) => { self.execute_channeled_task(task)"@),
    ]);
    assert(m.subrange(a + 3, b) =~= await_spec(executor_method_is_async_spec(ExecutorMethod::ExecuteChanneledTask, has_async)));
    assert(m.subrange(b, b + 3) =~= seq![
        txt(";"@), txt("Ok(()) }"@),
        txt("Err(::method_taskifier::task_channel::RecvError::Disconnected) => { Err(::method_taskifier::AllClientsDroppedError) }"@),
    ]);
}

/// `execute_remaining_channeled_tasks_from_queue` repeats
/// `try_execute_channeled_task_from_queue` (awaiting it exactly when it is
/// `async`) while it reports a task, propagates `AllClientsDroppedError`, and
/// then reports `Ok(())`.
pub proof fn lemma_execute_remaining_repeats_try_execute(path: usize, has_async: bool)
    ensures
        ({
            let m = executor_execute_remaining_spec(path, has_async);
            let w: int = await_spec(executor_method_is_async_spec(ExecutorMethod::TryExecuteChanneledTaskFromQueue, has_async)).len() as int;
            exists|a: int|
                0 <= a && a + 3 + w <= m.len()
                && #[trigger] m[a] == txt("while self.try_execute_channeled_task_from_queue(receiver)"@)
                && m.subrange(a + 1, a + 1 + w) == await_spec(executor_method_is_async_spec(ExecutorMethod::TryExecuteChanneledTaskFromQueue, has_async))
                && m.subrange(a + 1 + w, a + 3 + w) == seq![txt("? {}"@), txt("Ok(()) }"@)]
        }),
{
    let m = executor_execute_remaining_spec(path, has_async);
    let x: int = async_spec(executor_method_is_async_spec(ExecutorMethod::ExecuteRemainingChanneledTasksFromQueue, has_async)).len() as int;
    let w: int = await_spec(executor_method_is_async_spec(ExecutorMethod::TryExecuteChanneledTaskFromQueue, has_async)).len() as int;
    let a: int = 4 + x;
    assert(m[a] == txt("while self.try_execute_channeled_task_from_queue(receiver)"@));
    assert(m.subrange(a + 1, a + 1 + w) =~= await_spec(executor_method_is_async_spec(ExecutorMethod::TryExecuteChanneledTaskFromQueue, has_async)));
    assert(m.subrange(a + 1 + w, a + 3 + w) =~= seq![txt("? {}"@), txt("Ok(()) }"@)]);
}

/// `execute_channeled_tasks_from_queue_until_clients_dropped` is always
/// `async` and repeats `execute_channeled_task_from_queue` until it fails.
pub proof fn lemma_execute_until_dropped_loops(path: usize, has_async: bool)
    ensures
        ({
            let m = executor_execute_until_dropped_spec(path, has_async);
            &&& m.subrange(0, 2) == seq![txt("pub"@), txt("async"@)]
            &&& m.last() == txt("loop { self.execute_channeled_task_from_queue(receiver).await? } }"@)
        }),
{
    let m = executor_execute_until_dropped_spec(path, has_async);
    assert(m.subrange(0, 2) =~= seq![txt("pub"@), txt("async"@)]);
}

} // verus!
