//! The error container: a private chain of causes, a public value and the
//! metadata of the one diagnostic record that the container gives out.

use std::fmt::Debug;
use vstd::prelude::*;

use crate::chain::{text_of, wrapped, CauseChain};
use crate::fields::Fields;
use crate::level::Level;
use crate::meta::{log_step, record_of, view_of, Meta, MetaView};
use crate::record::Record;

verus! {

/// How a public error turns into the response that a caller may see. The
/// response is a function of the value alone: mapping it reads nothing else
/// and changes nothing.
///
/// It is entirely up to the implementor what the response is.
pub trait ToResponse {
    type Response;

    /// The response that the value maps to. An implementation that is
    /// verified says here what its response is; the default says nothing of
    /// it, so that an implementation outside verified code has only
    /// `to_response` to write.
    open spec fn response(&self) -> Self::Response {
        arbitrary()
    }

    /// Maps the value to its response.
    fn to_response(&self) -> (response: Self::Response)
        ensures
            response == self.response(),
    ;
}

/// Renders a value with its `Debug` implementation, as `format!("{:?}", ..)`
/// does. What comes out is up to that implementation, and nothing is claimed
/// of it; the implementation is taken not to fail, as `format!` panics where
/// one does.
#[verifier::external_body]
fn debug_form<T: Debug>(value: &T) -> (rendered: String) {
    format!("{:?}", value)
}

/// `text` is a rendering of `value` by its `Debug` implementation: it is what
/// a call of the rendering on this value gave. What such a rendering holds is
/// up to the implementation.
pub closed spec fn rendered_by_debug<T: Debug>(value: T, text: Seq<char>) -> bool {
    exists|rendered: String| rendered@ == text && call_ensures(debug_form::<T>, (&value,), rendered)
}

/// An error that is at once the value that propagates and the diagnostic
/// record of what went wrong.
pub struct DetailedError<Pub: ToResponse + Debug, Chain: CauseChain> {
    private: Chain,
    public: Pub,
    meta: Meta,
}

/// What a container holds.
pub struct ErrorView<Pub, Chain> {
    pub private: Chain,
    pub public: Pub,
    pub meta: MetaView,
}

impl<Pub: ToResponse + Debug, Chain: CauseChain> View for DetailedError<Pub, Chain> {
    type V = ErrorView<Pub, Chain>;

    closed spec fn view(&self) -> ErrorView<Pub, Chain> {
        ErrorView { private: self.private, public: self.public, meta: self.meta@ }
    }
}

impl<Pub: ToResponse + Debug, Chain: CauseChain> DetailedError<Pub, Chain> {
    /// What construction from the given arguments gives: a container that
    /// holds the public value, the supplied chain behind the context (the
    /// chain itself where there is no context), and the metadata, already
    /// logged; and with it the record of that container, in which the public
    /// value appears as its `Debug` rendering.
    pub open spec fn constructed(
        built: (Self, Record),
        private: Chain,
        public: Pub,
        context: Option<String>,
        level: Level,
        file: String,
        line: u32,
        module: String,
        fields: Map<Seq<char>, Seq<char>>,
    ) -> bool {
        &&& built.0@.public == public
        &&& private.causes().len() >= 1
        &&& built.0@.private.causes() == wrapped(private.causes(), text_of(context))
        &&& context is None ==> built.0@.private == private
        &&& built.0@.meta == (MetaView {
            fields,
            file: file@,
            module: module@,
            line,
            level,
            has_logged: true,
        })
        &&& built.1@ == record_of(
            built.0@.meta,
            built.0@.private.causes(),
            built.1@.public_error,
        )
        &&& rendered_by_debug(public, built.1@.public_error)
    }

    /// Builds a container without fields. See [`DetailedError::new_with_tracing`].
    pub fn new(
        private: Chain,
        public: Pub,
        context: Option<String>,
        level: Level,
        file: String,
        line: u32,
        module: String,
    ) -> (built: (Self, Record))
        ensures
            Self::constructed(
                built,
                private,
                public,
                context,
                level,
                file,
                line,
                module,
                Map::empty(),
            ),
    {
        Self::new_with_tracing(
            private,
            public,
            context,
            level,
            file,
            line,
            module,
            Fields::new(),
        )
    }

    /// Builds a container and logs it. The context, where one is given, is
    /// laid around the private chain as its outermost cause. The container
    /// comes back already logged, together with the one record that is to be
    /// emitted for it.
    pub fn new_with_tracing(
        private: Chain,
        public: Pub,
        context: Option<String>,
        level: Level,
        file: String,
        line: u32,
        module: String,
        fields: Fields,
    ) -> (built: (Self, Record))
        ensures
            Self::constructed(
                built,
                private,
                public,
                context,
                level,
                file,
                line,
                module,
                fields@,
            ),
    {
        let meta = Meta::new(fields, file, module, line, level);
        let private = match context {
            Some(text) => private.with_context(text),
            None => private,
        };
        let mut error = DetailedError { private, public, meta };
        let record = error.emit();
        proof {
            assert(error@.meta =~~= (MetaView {
                fields: fields@,
                file: file@,
                module: module@,
                line,
                level,
                has_logged: true,
            }));
            assert(record@ =~~= record_of(error@.meta, error@.private.causes(), record@.public_error));
        }
        (error, record)
    }

    /// The response of the public value.
    pub fn to_response(&self) -> (response: Pub::Response)
        ensures
            response == self@.public.response(),
    {
        self.public.to_response()
    }

    /// Takes the container apart into its private chain and its public
    /// value. The metadata are dropped.
    pub fn into_inner(self) -> (parts: (Chain, Pub))
        ensures
            parts.0 == self@.private,
            parts.1 == self@.public,
    {
        (self.private, self.public)
    }

    /// Renders the chain and the public value and gives out the record of a
    /// container that has not been logged.
    fn emit(&mut self) -> (record: Record)
        requires
            !old(self)@.meta.has_logged,
        ensures
            old(self)@.private.causes().len() >= 1,
            rendered_by_debug(old(self)@.public, record@.public_error),
            final(self)@.private == old(self)@.private,
            final(self)@.public == old(self)@.public,
            (final(self)@.meta, Some(record@)) == log_step(
                old(self)@.meta,
                old(self)@.private.causes(),
                record@.public_error,
            ),
    {
        let messages = self.private.messages();
        let public_error = debug_form(&self.public);
        self.meta.emit(messages, public_error)
    }

    /// Logs the container unless it has been logged before. The first call
    /// gives out the record to emit, with the chain and the public value
    /// rendered as they are at that moment; every later call is a no-op that
    /// gives out nothing. A container that came from a constructor has been
    /// logged.
    pub fn log(&mut self) -> (emitted: Option<Record>)
        ensures
            emitted is Some ==> old(self)@.private.causes().len() >= 1,
            emitted matches Some(record) ==> rendered_by_debug(
                old(self)@.public,
                record@.public_error,
            ),
            final(self)@.private == old(self)@.private,
            final(self)@.public == old(self)@.public,
            (final(self)@.meta, view_of(emitted)) == log_step(
                old(self)@.meta,
                old(self)@.private.causes(),
                match emitted {
                    Some(record) => record@.public_error,
                    None => Seq::empty(),
                },
            ),
    {
        if self.meta.has_logged() {
            return None;
        }
        Some(self.emit())
    }

    /// The private chain of causes.
    pub fn private(&self) -> (chain: &Chain)
        ensures
            *chain == self@.private,
    {
        &self.private
    }

    /// The public value.
    pub fn public(&self) -> (value: &Pub)
        ensures
            *value == self@.public,
    {
        &self.public
    }

    /// Whether the record of this container has been given out.
    pub fn has_logged(&self) -> (done: bool)
        ensures
            done == self@.meta.has_logged,
    {
        self.meta.has_logged()
    }

    /// The human-readable form of the container: the display string of the
    /// outermost cause of the private chain.
    pub fn message(&self) -> (text: String)
        ensures
            self@.private.causes().len() >= 1,
            text@ == self@.private.causes().first(),
    {
        let mut messages = self.private.messages();
        let text = messages.remove(0);
        text
    }
}

} // verus!
