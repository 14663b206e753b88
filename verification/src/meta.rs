//! Diagnostic metadata of a container, and the rule that turns it and a chain
//! of causes into a record.

use vstd::prelude::*;

use crate::chain::texts;
use crate::fields::Fields;
use crate::level::Level;
use crate::record::{Record, RecordView};

verus! {

/// What the metadata of a container holds.
#[verifier::ext_equal]
pub struct MetaView {
    pub fields: Map<Seq<char>, Seq<char>>,
    pub file: Seq<char>,
    pub module: Seq<char>,
    pub line: u32,
    pub level: Level,
    pub has_logged: bool,
}

/// The record that metadata, the causes of a chain (outermost first) and the
/// rendering of a public value amount to. The outermost cause is the message
/// and is left out of `errors`; the fields travel as `additional_context`
/// unless there are none.
pub open spec fn record_of(
    meta: MetaView,
    causes: Seq<Seq<char>>,
    public_error: Seq<char>,
) -> RecordView {
    RecordView {
        level: meta.level,
        message: causes.first(),
        errors: causes.drop_first(),
        public_error,
        additional_context: if meta.fields == Map::<Seq<char>, Seq<char>>::empty() {
            None
        } else {
            Some(meta.fields)
        },
        file: meta.file,
        line: meta.line as int,
        module: meta.module,
    }
}

/// The metadata once it has been logged.
pub open spec fn logged(meta: MetaView) -> MetaView {
    MetaView { has_logged: true, ..meta }
}

/// One call of the logging operation: metadata that has been logged stays as
/// it is and gives nothing out; other metadata gives out its record and is
/// marked as logged.
pub open spec fn log_step(
    meta: MetaView,
    causes: Seq<Seq<char>>,
    public_error: Seq<char>,
) -> (MetaView, Option<RecordView>) {
    if meta.has_logged {
        (meta, None)
    } else {
        (logged(meta), Some(record_of(meta, causes, public_error)))
    }
}

/// What an optional record says.
pub open spec fn view_of(record: Option<Record>) -> Option<RecordView> {
    match record {
        Some(r) => Some(r@),
        None => None,
    }
}

/// Severity, call site, caller's fields and the one-shot marker.
pub struct Meta {
    fields: Fields,
    file: String,
    module: String,
    line: u32,
    level: Level,
    has_logged: bool,
}

impl View for Meta {
    type V = MetaView;

    closed spec fn view(&self) -> MetaView {
        MetaView {
            fields: self.fields@,
            file: self.file@,
            module: self.module@,
            line: self.line,
            level: self.level,
            has_logged: self.has_logged,
        }
    }
}

impl Meta {
    /// Metadata that has not been logged yet.
    pub fn new(fields: Fields, file: String, module: String, line: u32, level: Level) -> (meta:
        Meta)
        ensures
            meta@ == (MetaView {
                fields: fields@,
                file: file@,
                module: module@,
                line,
                level,
                has_logged: false,
            }),
    {
        Meta { fields, file, module, line, level, has_logged: false }
    }

    /// Whether the record has been given out.
    pub fn has_logged(&self) -> (done: bool)
        ensures
            done == self@.has_logged,
    {
        self.has_logged
    }

    /// Builds the record for these metadata from the rendered causes of a
    /// chain, outermost first, and the rendering of the public value. This
    /// only reads the metadata: it neither asks for the one-shot marker nor
    /// sets it.
    pub fn record(&self, messages: Vec<String>, public_error: String) -> (record: Record)
        requires
            messages@.len() >= 1,
        ensures
            record@ == record_of(self@, texts(messages@), public_error@),
    {
        let mut errors = messages;
        let message = errors.remove(0);
        let additional_context = if self.fields.is_empty() {
            None
        } else {
            Some(self.fields.clone())
        };
        let record = Record {
            level: self.level,
            message,
            errors,
            public_error,
            additional_context,
            file: self.file.clone(),
            line: self.line as i64,
            module: self.module.clone(),
        };
        proof {
            assert(record@.errors =~= texts(messages@).drop_first());
            assert(record@ =~~= record_of(self@, texts(messages@), public_error@));
        }
        record
    }

    /// Gives out the record of metadata that have not been logged, and marks
    /// them as logged.
    pub(crate) fn emit(&mut self, messages: Vec<String>, public_error: String) -> (record: Record)
        requires
            messages@.len() >= 1,
            !old(self)@.has_logged,
        ensures
            final(self)@ == logged(old(self)@),
            record@ == record_of(old(self)@, texts(messages@), public_error@),
    {
        let record = self.record(messages, public_error);
        self.has_logged = true;
        record
    }

    /// The one-shot logging operation over rendered values. The first call
    /// gives out the record and marks the metadata as logged; every later
    /// call gives out nothing and changes nothing.
    pub fn log(&mut self, messages: Vec<String>, public_error: String) -> (emitted: Option<Record>)
        requires
            messages@.len() >= 1,
        ensures
            (final(self)@, view_of(emitted)) == log_step(
                old(self)@,
                texts(messages@),
                public_error@,
            ),
    {
        if self.has_logged {
            None
        } else {
            Some(self.emit(messages, public_error))
        }
    }
}

} // verus!
