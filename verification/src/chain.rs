//! The private chain of causes, and the two error libraries that can back it.
//!
//! A chain is known to the rest of the library by the display strings of its
//! causes, outermost first. What the backing libraries do is taken on trust:
//! each call into them sits in a small function of its own whose contract is
//! stated, not proved.

use vstd::prelude::*;

verus! {

/// `anyhow::Error`, carried through as it is. Nothing is known of what it
/// holds but what the functions below say.
#[verifier::external_type_specification]
#[verifier::external_body]
pub struct ExAnyhowError(anyhow::Error);

/// `eyre::Report`, carried through as it is. Nothing is known of what it
/// holds but what the functions below say.
#[verifier::external_type_specification]
#[verifier::external_body]
pub struct ExEyreReport(eyre::Report);

/// The display strings of the causes that `anyhow::Error::chain` walks
/// through, in the order of the walk: the error itself first, its root cause
/// last. An error's causes are taken to display the same each time they are
/// asked.
pub uninterp spec fn anyhow_causes(error: anyhow::Error) -> Seq<Seq<char>>;

/// The display strings of the causes that `eyre::Report::chain` walks
/// through, in the order of the walk: the report's error first, its root
/// cause last. A report's causes are taken to display the same each time they
/// are asked.
pub uninterp spec fn eyre_causes(report: eyre::Report) -> Seq<Seq<char>>;

/// The texts of a list of strings.
pub open spec fn texts(strings: Seq<String>) -> Seq<Seq<char>> {
    Seq::new(strings.len(), |i: int| strings[i]@)
}

/// The text of an optional string.
pub open spec fn text_of(string: Option<String>) -> Option<Seq<char>> {
    match string {
        Some(s) => Some(s@),
        None => None,
    }
}

/// The causes of a chain once an optional context has been laid around it:
/// the context, where there is one, becomes the outermost entry and the
/// chain's own causes follow unchanged.
pub open spec fn wrapped(causes: Seq<Seq<char>>, context: Option<Seq<char>>) -> Seq<Seq<char>> {
    match context {
        Some(text) => seq![text] + causes,
        None => causes,
    }
}

/// Calls `anyhow::Error::chain` and renders every cause it yields with
/// `to_string`. The walk starts at the error itself, so it yields at least
/// one cause. It follows `source()` links and is taken to come to an end, as
/// it does for every error whose sources do not form a cycle; and every cause
/// is taken to display without failing, as `to_string` panics where one does
/// not.
#[verifier::external_body]
fn anyhow_messages(error: &anyhow::Error) -> (messages: Vec<String>)
    ensures
        texts(messages@) == anyhow_causes(*error),
        messages@.len() >= 1,
{
    let mut messages = Vec::new();
    for cause in error.chain() {
        messages.push(cause.to_string());
    }
    messages
}

/// Calls `anyhow::Error::context`. The error that comes back displays as the
/// context and has the given error as its source, so its chain is the context
/// followed by the chain of the given error, which holds at least that error.
#[verifier::external_body]
fn anyhow_context(error: anyhow::Error, context: String) -> (outer: anyhow::Error)
    ensures
        anyhow_causes(outer) == seq![context@] + anyhow_causes(error),
        anyhow_causes(outer).len() >= 2,
{
    error.context(context)
}

/// Calls `eyre::Report::chain` and renders every cause it yields with
/// `to_string`. The walk starts at the report's error, so it yields at least
/// one cause. It follows `source()` links and is taken to come to an end, as
/// it does for every error whose sources do not form a cycle; and every cause
/// is taken to display without failing, as `to_string` panics where one does
/// not.
#[verifier::external_body]
fn eyre_messages(report: &eyre::Report) -> (messages: Vec<String>)
    ensures
        texts(messages@) == eyre_causes(*report),
        messages@.len() >= 1,
{
    let mut messages = Vec::new();
    for cause in report.chain() {
        messages.push(cause.to_string());
    }
    messages
}

/// Calls `eyre::Report::wrap_err`. The error of the report that comes back
/// displays as the message and has the given report's error as its source, so
/// its chain is the message followed by the chain of the given report, which
/// holds at least that error.
#[verifier::external_body]
fn eyre_wrap_err(report: eyre::Report, context: String) -> (outer: eyre::Report)
    ensures
        eyre_causes(outer) == seq![context@] + eyre_causes(report),
        eyre_causes(outer).len() >= 2,
{
    report.wrap_err(context)
}

/// An ordered chain of causes: the failure itself and whatever context was
/// laid around it. The container works on any chain through this interface
/// and never looks at the library behind it.
pub trait CauseChain: Sized {
    /// The display strings of the causes, outermost first.
    spec fn causes(&self) -> Seq<Seq<char>>;

    /// Renders every cause of the chain, outermost first. A chain holds at
    /// least the failure it was made from.
    fn messages(&self) -> (messages: Vec<String>)
        ensures
            texts(messages@) == self.causes(),
            messages@.len() >= 1,
    ;

    /// Lays `context` around the chain as its new outermost cause. The
    /// causes that the chain had follow it, and there is at least one.
    fn with_context(self, context: String) -> (outer: Self)
        ensures
            outer.causes() == wrapped(self.causes(), Some(context@)),
            outer.causes().len() >= 2,
    ;
}

impl CauseChain for anyhow::Error {
    open spec fn causes(&self) -> Seq<Seq<char>> {
        anyhow_causes(*self)
    }

    fn messages(&self) -> (messages: Vec<String>) {
        anyhow_messages(self)
    }

    fn with_context(self, context: String) -> (outer: Self) {
        anyhow_context(self, context)
    }
}

impl CauseChain for eyre::Report {
    open spec fn causes(&self) -> Seq<Seq<char>> {
        eyre_causes(*self)
    }

    fn messages(&self) -> (messages: Vec<String>) {
        eyre_messages(self)
    }

    fn with_context(self, context: String) -> (outer: Self) {
        eyre_wrap_err(self, context)
    }
}

} // verus!
