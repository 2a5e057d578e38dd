use vstd::prelude::*;
use vstd::string::StringExecFns;

use crate::error::EngineError;
use crate::template::Template;

verus! {

/// An engine outcome with the text seen as characters.
pub open spec fn outcome_view(r: Result<String, EngineError>) -> Result<Seq<char>, EngineError> {
    match r {
        Ok(s) => Ok(s@),
        Err(e) => Err(e),
    }
}

/// The rendering capability that the worker holds.
///
/// An engine need not be thread-safe: the worker is its only user, and runs
/// one render at a time.
pub trait Engine<P> {
    /// What this engine, in its present state, makes of `template` and `payload`.
    spec fn rendered(&self, template: Template, payload: P) -> Result<Seq<char>, EngineError>;

    /// Renders `template` against `payload`: the rendered text, or the engine's error.
    fn render(&mut self, template: &Template, payload: &P) -> (r: Result<String, EngineError>)
        ensures
            outcome_view(r) == old(self).rendered(*template, *payload),
    ;
}

/// What the stand-in engine produces for a template of the given name.
pub open spec fn fake_output(name: Seq<char>) -> Seq<char> {
    "[rendered:"@ + name + "]"@
}

/// A deterministic stand-in for the real engine: it ignores the template's
/// text and the payload, and always succeeds with `[rendered:<name>]`.
#[derive(Clone, Copy, Debug, PartialEq, Eq)]
pub struct FakeEngine {}

impl FakeEngine {
    pub fn new() -> (r: FakeEngine) {
        FakeEngine {}
    }
}

/// The stand-in's text for `template`.
pub fn fake_render(template: &Template) -> (r: String)
    ensures
        r@ == fake_output(template.name_spec()),
{
    let mut s = String::from_str("[rendered:");
    s.append(template.name());
    s.append("]");
    s
}

impl<P> Engine<P> for FakeEngine {
    open spec fn rendered(&self, template: Template, payload: P) -> Result<Seq<char>, EngineError> {
        Ok(fake_output(template.name_spec()))
    }

    fn render(&mut self, template: &Template, payload: &P) -> (r: Result<String, EngineError>) {
        Ok(fake_render(template))
    }
}

/// The stand-in engine that also records, in order, the name of every
/// template it was asked to render.
#[derive(Clone, Debug)]
pub struct RecordingEngine {
    log: Vec<String>,
}

impl RecordingEngine {
    pub fn new() -> (r: RecordingEngine)
        ensures
            r.log_spec().len() == 0,
    {
        RecordingEngine { log: Vec::new() }
    }

    /// The names rendered so far, oldest first.
    pub closed spec fn log_spec(&self) -> Seq<String> {
        self.log@
    }

    /// The names rendered so far, oldest first.
    pub fn log(&self) -> (r: &Vec<String>)
        ensures
            r@ == self.log_spec(),
    {
        &self.log
    }
}

impl<P> Engine<P> for RecordingEngine {
    open spec fn rendered(&self, template: Template, payload: P) -> Result<Seq<char>, EngineError> {
        Ok(fake_output(template.name_spec()))
    }

    fn render(&mut self, template: &Template, payload: &P) -> (r: Result<String, EngineError>) {
        self.log.push(template.name().to_string());
        Ok(fake_render(template))
    }
}

} // verus!
