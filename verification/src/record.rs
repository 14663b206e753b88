//! The structured diagnostic record that a container gives out once.

use vstd::prelude::*;

use crate::chain::texts;
use crate::fields::Fields;
use crate::level::Level;

verus! {

/// One diagnostic record, as it is handed to a log sink.
#[derive(Debug)]
pub struct Record {
    /// Severity under which the record is emitted.
    pub level: Level,
    /// The primary message: the display string of the outermost cause.
    pub message: String,
    /// The display strings of all causes below the outermost, outer to inner.
    pub errors: Vec<String>,
    /// The debug rendering of the public value.
    pub public_error: String,
    /// The caller's fields; absent where the caller gave none.
    pub additional_context: Option<Fields>,
    /// Source file of the call site.
    pub file: String,
    /// Line of the call site.
    pub line: i64,
    /// Module path of the call site.
    pub module: String,
}

/// What a record says.
#[verifier::ext_equal]
pub struct RecordView {
    pub level: Level,
    pub message: Seq<char>,
    pub errors: Seq<Seq<char>>,
    pub public_error: Seq<char>,
    pub additional_context: Option<Map<Seq<char>, Seq<char>>>,
    pub file: Seq<char>,
    pub line: int,
    pub module: Seq<char>,
}

impl View for Record {
    type V = RecordView;

    open spec fn view(&self) -> RecordView {
        RecordView {
            level: self.level,
            message: self.message@,
            errors: texts(self.errors@),
            public_error: self.public_error@,
            additional_context: match self.additional_context {
                Some(fields) => Some(fields@),
                None => None,
            },
            file: self.file@,
            line: self.line as int,
            module: self.module@,
        }
    }
}

} // verus!
