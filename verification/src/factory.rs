//! Entry points that build a container for a call site: one for each of the
//! two common severities and one that takes the severity as an argument.
//!
//! The call site is passed in as it was captured and reaches the record
//! unchanged. Trailing key/value pairs become the fields of the container.

use std::fmt::Debug;
use vstd::prelude::*;

use crate::chain::CauseChain;
use crate::container::{DetailedError, ToResponse};
use crate::fields::{pairs_map, Fields};
use crate::level::Level;
use crate::record::Record;

verus! {

/// Builds a container at the given severity. Without pairs the container has
/// no fields; with pairs it has the mapping that they stand for, where the
/// later of two pairs with the same key decides.
pub fn detailed_error<Pub: ToResponse + Debug, Chain: CauseChain>(
    level: Level,
    private: Chain,
    public: Pub,
    context: Option<String>,
    pairs: Vec<(String, String)>,
    file: String,
    line: u32,
    module: String,
) -> (built: (DetailedError<Pub, Chain>, Record))
    ensures
        DetailedError::constructed(
            built,
            private,
            public,
            context,
            level,
            file,
            line,
            module,
            pairs_map(pairs@),
        ),
{
    if pairs.len() == 0 {
        DetailedError::new(private, public, context, level, file, line, module)
    } else {
        let fields = Fields::from_pairs(pairs);
        DetailedError::new_with_tracing(
            private,
            public,
            context,
            level,
            file,
            line,
            module,
            fields,
        )
    }
}

/// Builds a container at severity [`Level::Error`].
pub fn e<Pub: ToResponse + Debug, Chain: CauseChain>(
    private: Chain,
    public: Pub,
    context: Option<String>,
    pairs: Vec<(String, String)>,
    file: String,
    line: u32,
    module: String,
) -> (built: (DetailedError<Pub, Chain>, Record))
    ensures
        DetailedError::constructed(
            built,
            private,
            public,
            context,
            Level::Error,
            file,
            line,
            module,
            pairs_map(pairs@),
        ),
{
    detailed_error(Level::Error, private, public, context, pairs, file, line, module)
}

/// Builds a container at severity [`Level::Warn`].
pub fn w<Pub: ToResponse + Debug, Chain: CauseChain>(
    private: Chain,
    public: Pub,
    context: Option<String>,
    pairs: Vec<(String, String)>,
    file: String,
    line: u32,
    module: String,
) -> (built: (DetailedError<Pub, Chain>, Record))
    ensures
        DetailedError::constructed(
            built,
            private,
            public,
            context,
            Level::Warn,
            file,
            line,
            module,
            pairs_map(pairs@),
        ),
{
    detailed_error(Level::Warn, private, public, context, pairs, file, line, module)
}

} // verus!
