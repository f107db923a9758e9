//! The whole pass over one module: validate, build the model, emit. It ends
//! with the three texts or with every diagnostic of the module, never with
//! both.

use vstd::prelude::*;
use crate::builder::build;
use crate::catalogue::{Catalogue, EntryView};
use crate::decl::{RawModule, RawModuleView};
use crate::diag::Diagnostic;
use crate::lower::{classes_of, glue_of, lower_classes, lower_glue};
use crate::model::{BridgeModule, BridgeModuleView};
use crate::render::{
    glue_lines_text, headers_text, print_glue, print_headers, print_sources, sources_text,
};
use crate::semantic::{diagnostics, module_model};

verus! {

/// The C++ side of what is emitted for a module.
#[derive(Clone, Debug, PartialEq, Eq)]
pub struct Native {
    pub header: String,
    pub source: String,
}

/// What is emitted for a module.
#[derive(Clone, Debug, PartialEq, Eq)]
pub struct Artifacts {
    pub header: String,
    pub source: String,
    pub glue: String,
}

pub struct ArtifactsView {
    pub header: Seq<char>,
    pub source: Seq<char>,
    pub glue: Seq<char>,
}

impl View for Artifacts {
    type V = ArtifactsView;

    open spec fn view(&self) -> ArtifactsView {
        ArtifactsView { header: self.header@, source: self.source@, glue: self.glue@ }
    }
}

/// The header of a model: the headers of its classes, in the order of its
/// objects.
pub open spec fn native_header(model: BridgeModuleView) -> Seq<char> {
    headers_text(classes_of(model), classes_of(model).len() as int)
}

/// The source of a model: the sources of its classes, in the order of its
/// objects.
pub open spec fn native_source(model: BridgeModuleView) -> Seq<char> {
    sources_text(classes_of(model), classes_of(model).len() as int)
}

/// The glue of a model: one line for each declaration, in the order of the
/// model's entries.
pub open spec fn glue_lines(model: BridgeModuleView) -> Seq<char> {
    glue_lines_text(glue_of(model), glue_of(model).len() as int)
}

pub open spec fn emitted(model: BridgeModuleView) -> ArtifactsView {
    ArtifactsView {
        header: native_header(model),
        source: native_source(model),
        glue: glue_lines(model),
    }
}

/// What compiling a module gives: every diagnostic of the module where it
/// has any, the faults of its structure first and its semantic and type
/// errors behind them; else what the module's model emits.
pub open spec fn compiled(cat: Seq<EntryView>, m: RawModuleView) -> Result<
    ArtifactsView,
    Seq<Diagnostic>,
> {
    if diagnostics(cat, m).len() > 0 {
        Err(diagnostics(cat, m))
    } else {
        Ok(emitted(module_model(cat, m)))
    }
}

/// What a compilation ended with, as plain values.
pub open spec fn outcome_view(res: Result<Artifacts, Vec<Diagnostic>>) -> Result<
    ArtifactsView,
    Seq<Diagnostic>,
> {
    match res {
        Ok(a) => Ok(a@),
        Err(d) => Err(d@),
    }
}

/// Emits the C++ classes of a model.
pub fn emit_native(model: &BridgeModule) -> (out: Native)
    ensures
        out.header@ == native_header(model@),
        out.source@ == native_source(model@),
{
    let classes = lower_classes(model);
    Native { header: print_headers(&classes), source: print_sources(&classes) }
}

/// Emits the glue declarations of a model.
pub fn emit_glue(model: &BridgeModule) -> (out: String)
    ensures
        out@ == glue_lines(model@),
{
    let decls = lower_glue(model);
    print_glue(&decls)
}

/// Emits everything for a model.
pub fn emit(model: &BridgeModule) -> (out: Artifacts)
    ensures
        out@ == emitted(model@),
{
    let native = emit_native(model);
    let glue = emit_glue(model);
    Artifacts { header: native.header, source: native.source, glue }
}

/// Compiles one module against a catalogue.
///
/// A module with any fault or error gives all of them and no text: the
/// faults of its structure in the order of its declarations, then its
/// semantic and type errors in that order. Any other module gives its three
/// texts.
pub fn compile(cat: &Catalogue, m: &RawModule) -> (res: Result<Artifacts, Vec<Diagnostic>>)
    ensures
        outcome_view(res) == compiled(cat@, m@),
{
    match build(cat, m) {
        Ok(model) => Ok(emit(&model)),
        Err(all) => Err(all),
    }
}

/// Compiles several modules against one catalogue, each for itself: what a
/// module ends with depends on that module and the catalogue alone, so a
/// module that is rejected takes nothing from the others.
pub fn compile_all(cat: &Catalogue, modules: &Vec<RawModule>) -> (out: Vec<
    Result<Artifacts, Vec<Diagnostic>>,
>)
    ensures
        out@.len() == modules@.len(),
        forall|i: int|
            0 <= i < modules@.len() ==> outcome_view(#[trigger] out@[i]) == compiled(
                cat@,
                modules@[i]@,
            ),
{
    let mut out: Vec<Result<Artifacts, Vec<Diagnostic>>> = Vec::new();
    let n: usize = modules.len();
    let mut i: usize = 0;
    while i < n
        invariant
            n == modules@.len(),
            i <= n,
            out@.len() == i,
            forall|j: int|
                0 <= j < i ==> outcome_view(#[trigger] out@[j]) == compiled(cat@, modules@[j]@),
        decreases n - i,
    {
        out.push(compile(cat, &modules[i]));
        i = i + 1;
    }
    out
}

/// The status that a compilation ends with: 0 where it gave its texts, 1
/// where it gave diagnostics.
pub fn exit_status(res: &Result<Artifacts, Vec<Diagnostic>>) -> (status: u8)
    ensures
        status == if res.is_ok() {
            0u8
        } else {
            1u8
        },
{
    match res {
        Ok(_) => 0,
        Err(_) => 1,
    }
}

} // verus!
