//! What holds of every container, from its construction to the moment it is
//! taken apart. The statements are over the predicate that every constructor
//! promises, the model of the logging step, and the contracts of the
//! functions that read a container.

use std::fmt::Debug;
use vstd::prelude::*;

use crate::chain::{text_of, wrapped, CauseChain};
use crate::container::{DetailedError, ToResponse};
use crate::level::Level;
use crate::meta::{log_step, logged, record_of, MetaView};
use crate::record::{Record, RecordView};

verus! {

/// A container is logged when its constructor returns, and the record that
/// comes back with it is the one record it ever gives out: it is what the
/// logging step makes of the same metadata not yet logged, and any logging
/// step after construction gives out nothing and leaves the metadata alone.
pub proof fn law_constructed_is_logged_once<Pub: ToResponse + Debug, Chain: CauseChain>(
    built: (DetailedError<Pub, Chain>, Record),
    private: Chain,
    public: Pub,
    context: Option<String>,
    level: Level,
    file: String,
    line: u32,
    module: String,
    fields: Map<Seq<char>, Seq<char>>,
    later_rendering: Seq<char>,
)
    requires
        DetailedError::constructed(
            built,
            private,
            public,
            context,
            level,
            file,
            line,
            module,
            fields,
        ),
    ensures
        built.0@.meta.has_logged,
        ({
            let fresh = MetaView { has_logged: false, ..built.0@.meta };
            log_step(fresh, built.0@.private.causes(), built.1@.public_error) == (
                built.0@.meta,
                Some(built.1@),
            )
        }),
        log_step(built.0@.meta, built.0@.private.causes(), later_rendering) == (
            built.0@.meta,
            None::<RecordView>,
        ),
{
    let fresh = MetaView { has_logged: false, ..built.0@.meta };
    assert(logged(fresh) =~~= built.0@.meta);
    assert(record_of(fresh, built.0@.private.causes(), built.1@.public_error) =~~= built.1@);
}

/// The logging step is one-shot from any state: two steps in a row give out
/// at most one record, the first gives one out exactly when the metadata
/// were not logged before, and the second is a no-op.
pub proof fn law_log_is_one_shot(
    meta: MetaView,
    causes: Seq<Seq<char>>,
    first_rendering: Seq<char>,
    second_rendering: Seq<char>,
)
    ensures
        ({
            let (after_first, first) = log_step(meta, causes, first_rendering);
            let (after_second, second) = log_step(after_first, causes, second_rendering);
            &&& after_first.has_logged
            &&& first is Some <==> !meta.has_logged
            &&& second is None
            &&& after_second == after_first
        }),
{
}

/// The record of a container built with fields carries exactly those fields
/// as its additional context; the record of a container built without any
/// carries no additional context.
pub proof fn law_additional_context_is_the_fields<Pub: ToResponse + Debug, Chain: CauseChain>(
    built: (DetailedError<Pub, Chain>, Record),
    private: Chain,
    public: Pub,
    context: Option<String>,
    level: Level,
    file: String,
    line: u32,
    module: String,
    fields: Map<Seq<char>, Seq<char>>,
)
    requires
        DetailedError::constructed(
            built,
            private,
            public,
            context,
            level,
            file,
            line,
            module,
            fields,
        ),
    ensures
        (exists|key: Seq<char>| fields.contains_key(key)) ==> built.1@.additional_context == Some(
            fields,
        ),
        (forall|key: Seq<char>| !fields.contains_key(key)) ==> built.1@.additional_context is None,
{
    if exists|key: Seq<char>| fields.contains_key(key) {
        let key = choose|key: Seq<char>| fields.contains_key(key);
        assert(!Map::<Seq<char>, Seq<char>>::empty().contains_key(key));
    }
    if forall|key: Seq<char>| !fields.contains_key(key) {
        assert(fields =~= Map::<Seq<char>, Seq<char>>::empty());
    }
}

/// The record lists the display strings of every cause of the container's
/// chain except the first, in the order of the chain; the first is the
/// record's message and is not listed. Of the chain that was supplied, the
/// record lists every cause where a context was laid around it, and every
/// cause but the first where none was.
pub proof fn law_errors_are_the_trailing_causes<Pub: ToResponse + Debug, Chain: CauseChain>(
    built: (DetailedError<Pub, Chain>, Record),
    private: Chain,
    public: Pub,
    context: Option<String>,
    level: Level,
    file: String,
    line: u32,
    module: String,
    fields: Map<Seq<char>, Seq<char>>,
)
    requires
        DetailedError::constructed(
            built,
            private,
            public,
            context,
            level,
            file,
            line,
            module,
            fields,
        ),
    ensures
        ({
            let causes = built.0@.private.causes();
            &&& causes.len() >= 1
            &&& built.1@.message == causes[0]
            &&& built.1@.errors.len() == causes.len() - 1
            &&& forall|i: int|
                0 <= i < built.1@.errors.len() ==> built.1@.errors[i] == #[trigger] causes[i + 1]
            &&& seq![built.1@.message] + built.1@.errors == causes
        }),
        match context {
            Some(text) => built.1@.message == text@ && built.1@.errors == private.causes(),
            None => built.1@.message == private.causes()[0] && built.1@.errors
                == private.causes().drop_first(),
        },
{
    let causes = built.0@.private.causes();
    assert(seq![built.1@.message] + built.1@.errors =~= causes);
    match context {
        Some(text) => {
            assert(causes.drop_first() =~= private.causes());
        },
        None => {},
    }
}

/// Mapping a container to its response is pure: whatever two calls on the
/// same container return, they return the same, and it is the response of
/// the public value.
pub proof fn law_to_response_is_pure<Pub: ToResponse + Debug, Chain: CauseChain>(
    error: &DetailedError<Pub, Chain>,
    first: Pub::Response,
    second: Pub::Response,
)
    requires
        call_ensures(DetailedError::<Pub, Chain>::to_response, (error,), first),
        call_ensures(DetailedError::<Pub, Chain>::to_response, (error,), second),
    ensures
        first == second,
        first == error@.public.response(),
{
}

/// The response shows the public value and nothing else: two containers with
/// the same public value map to the same response, whatever their private
/// chains and metadata are.
pub proof fn law_response_shows_only_the_public_value<Pub: ToResponse + Debug, Chain: CauseChain>(
    one: &DetailedError<Pub, Chain>,
    other: &DetailedError<Pub, Chain>,
    response_of_one: Pub::Response,
    response_of_other: Pub::Response,
)
    requires
        one@.public == other@.public,
        call_ensures(DetailedError::<Pub, Chain>::to_response, (one,), response_of_one),
        call_ensures(DetailedError::<Pub, Chain>::to_response, (other,), response_of_other),
    ensures
        response_of_one == response_of_other,
{
}

/// Taking a container apart gives back the supplied chain: untouched where
/// no context was given, and otherwise as the tail of the chain behind the
/// context. Either way the root cause, and the display string of the
/// supplied error itself, are what they were.
pub proof fn law_into_inner_keeps_the_supplied_chain<Pub: ToResponse + Debug, Chain: CauseChain>(
    built: (DetailedError<Pub, Chain>, Record),
    private: Chain,
    public: Pub,
    context: Option<String>,
    level: Level,
    file: String,
    line: u32,
    module: String,
    fields: Map<Seq<char>, Seq<char>>,
    parts: (Chain, Pub),
)
    requires
        DetailedError::constructed(
            built,
            private,
            public,
            context,
            level,
            file,
            line,
            module,
            fields,
        ),
        call_ensures(DetailedError::<Pub, Chain>::into_inner, (built.0,), parts),
    ensures
        parts.1 == public,
        parts.0.causes() == wrapped(private.causes(), text_of(context)),
        context is None ==> parts.0 == private,
        parts.0.causes().last() == private.causes().last(),
        ({
            let kept = parts.0.causes();
            let depth = kept.len() - private.causes().len();
            &&& 0 <= depth <= 1
            &&& kept.subrange(depth, kept.len() as int) == private.causes()
            &&& kept[depth] == private.causes()[0]
        }),
{
    let kept = parts.0.causes();
    let depth = kept.len() - private.causes().len();
    assert(kept.subrange(depth, kept.len() as int) =~= private.causes());
}

} // verus!
