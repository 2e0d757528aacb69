//! Per-frame state handling: the held document, the inline load-error state,
//! and the processing of load-completion messages drained from the channel
//! each frame.

use vstd::prelude::*;

use crate::document::Document;

verus! {

/// Why a load failed: the chosen file could not be read, or its bytes were
/// not a valid document. Both are recoverable: the state keeps the previously
/// loaded document and reports the error inline.
#[derive(Clone, Copy, PartialEq, Eq, Structural, Debug)]
pub enum LoadError {
    FileIo,
    DecodeFailure,
}

impl LoadError {
    /// The inline text shown for this error.
    pub fn describe(&self) -> (r: &'static str)
        ensures
            *self is FileIo ==> r@ == "Couldn't read the file."@,
            *self is DecodeFailure ==> r@ == "Couldn't decode the file."@,
    {
        match self {
            LoadError::FileIo => "Couldn't read the file.",
            LoadError::DecodeFailure => "Couldn't decode the file.",
        }
    }
}

/// One load-completion event, posted by a background file-open task and
/// drained by the update loop: the finished document, or the error the load
/// ended in.
pub enum Message {
    Loaded(Document),
    LoadFailed(LoadError),
}

/// What a finished file-open task posts: nothing when the dialog was
/// cancelled, the decoded document on success, the load error on failure.
pub fn message_for_load(outcome: Option<Result<Document, LoadError>>) -> (m: Option<Message>)
    ensures
        m == match outcome {
            Option::None => Option::<Message>::None,
            Option::Some(Result::Ok(d)) => Option::Some(Message::Loaded(d)),
            Option::Some(Result::Err(e)) => Option::Some(Message::LoadFailed(e)),
        },
{
    match outcome {
        Option::None => Option::None,
        Option::Some(Result::Ok(d)) => Option::Some(Message::Loaded(d)),
        Option::Some(Result::Err(e)) => Option::Some(Message::LoadFailed(e)),
    }
}

/// The state the update loop owns: the current document and the inline
/// error of the most recent failed load, if any.
pub struct App {
    pub document: Document,
    pub load_error: Option<LoadError>,
}

impl App {
    /// The state after one message: a finished load replaces the document
    /// wholesale and clears the error; a failed load keeps the document and
    /// records the error.
    pub open spec fn spec_apply(s: App, m: Message) -> App {
        match m {
            Message::Loaded(d) => App { document: d, load_error: Option::None },
            Message::LoadFailed(e) => App { document: s.document, load_error: Option::Some(e) },
        }
    }

    /// The state after a queue of messages, processed in FIFO order.
    pub open spec fn spec_apply_all(s: App, msgs: Seq<Message>) -> App
        decreases msgs.len(),
    {
        if msgs.len() == 0 {
            s
        } else {
            Self::spec_apply_all(Self::spec_apply(s, msgs[0]), msgs.drop_first())
        }
    }

    /// The initial state: the placeholder document, no error.
    pub fn new() -> (s: App)
        ensures
            s.document.is_placeholder(),
            !s.document.is_loaded(),
            s.document.header.name@ == "Not Loaded"@,
            s.document.header.format_version is V0,
            s.load_error is None,
    {
        App { document: Document::empty(), load_error: Option::None }
    }

    /// Processes one drained message.
    pub fn apply_message(&mut self, m: Message)
        ensures
            *final(self) == Self::spec_apply(*old(self), m),
    {
        match m {
            Message::Loaded(d) => {
                self.document = d;
                self.load_error = Option::None;
            },
            Message::LoadFailed(e) => {
                self.load_error = Option::Some(e);
            },
        }
    }

    /// Drains one frame's queued messages, oldest first; when several loads
    /// finished in the same frame, the last processed one wins.
    pub fn apply_all(&mut self, msgs: Vec<Message>)
        ensures
            *final(self) == Self::spec_apply_all(*old(self), msgs@),
    {
        let mut queue = msgs;
        while queue.len() > 0
            invariant
                Self::spec_apply_all(*old(self), msgs@) == Self::spec_apply_all(*self, queue@),
            decreases queue@.len(),
        {
            let ghost qpre = queue@;
            let m = queue.remove(0);
            proof {
                assert(qpre.remove(0) =~= qpre.drop_first());
            }
            self.apply_message(m);
        }
    }
}

impl Default for App {
    /// The initial state: the placeholder document, no error.
    fn default() -> (s: App)
        ensures
            s.document.is_placeholder(),
            !s.document.is_loaded(),
            s.document.header.name@ == "Not Loaded"@,
            s.document.header.format_version is V0,
            s.load_error is None,
    {
        App::new()
    }
}

/// Law: a finished load replaces the held document wholesale - the new state
/// holds exactly the decoded header and body, so a document decoded with
/// zero elements is held with an empty body - and clears any inline error.
pub proof fn lemma_load_replaces_document(s: App, d: Document)
    ensures
        App::spec_apply(s, Message::Loaded(d)).document.header == d.header,
        App::spec_apply(s, Message::Loaded(d)).document.body == d.body,
        App::spec_apply(s, Message::Loaded(d)).load_error is None,
        d.body@.len() == 0 ==> App::spec_apply(s, Message::Loaded(d)).document.body@
            =~= Seq::<crate::document::Element>::empty(),
{
}

/// Law: a failed load leaves the previously held document untouched and only
/// records the error.
pub proof fn lemma_failed_load_keeps_document(s: App, e: LoadError)
    ensures
        App::spec_apply(s, Message::LoadFailed(e)).document == s.document,
        App::spec_apply(s, Message::LoadFailed(e)).load_error == Option::Some(e),
{
}

/// Law: processing a load-completion message is deterministic and does not
/// depend on the state it lands on: one decoded document always yields the
/// same held document. Opening one file twice therefore holds structurally
/// identical documents, provided the decode of its bytes was deterministic.
pub proof fn lemma_load_deterministic(s1: App, s2: App, d: Document)
    ensures
        App::spec_apply(s1, Message::Loaded(d)) == App::spec_apply(s2, Message::Loaded(d)),
{
}

/// Law: when the last message of a drained queue is a finished load, that
/// load's document is the one held afterwards, whatever came before it.
pub proof fn lemma_last_load_wins(s: App, msgs: Seq<Message>, d: Document)
    requires
        msgs.len() > 0,
        msgs.last() == Message::Loaded(d),
    ensures
        App::spec_apply_all(s, msgs).document == d,
        App::spec_apply_all(s, msgs).load_error is None,
    decreases msgs.len(),
{
    if msgs.len() == 1 {
        assert(msgs[0] == Message::Loaded(d));
        assert(msgs.drop_first().len() == 0);
        assert(App::spec_apply_all(App::spec_apply(s, msgs[0]), msgs.drop_first())
            == App::spec_apply(s, msgs[0]));
    } else {
        assert(msgs.drop_first().last() == msgs.last());
        lemma_last_load_wins(App::spec_apply(s, msgs[0]), msgs.drop_first(), d);
    }
}

} // verus!
