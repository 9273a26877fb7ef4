//! Context negotiator: a synchronous observer on the pipeline's message bus.
//!
//! It answers "need-context" requests by attaching the shared handles to the
//! requesting element and passes every other message through unchanged, in
//! order.  It runs on the pipeline's own thread before any asynchronous
//! dispatch, so a context is attached before the requesting element
//! proceeds; here that ordering shows up as the observer handling messages
//! one by one, index for index.

use vstd::prelude::*;
use crate::context::ContextHandles;

verus! {

/// The context type a "need-context" message asks for.
#[derive(Clone, Copy, Debug, PartialEq, Eq, Structural)]
pub enum ContextType {
    /// The display-context type.
    GlDisplay,
    /// The application-GL-context type (the fixed "gst.gl.app_context"
    /// token).
    GlApp,
    /// Any other context type, by an opaque tag.
    Other(u32),
}

/// One message observed on the bus.
#[derive(Clone, Copy, Debug, PartialEq, Eq, Structural)]
pub enum BusMessage {
    /// An element requests a shared resource.  `source_present` says whether
    /// the message names a requesting element to attach to.
    NeedContext { source_present: bool, ctx_type: ContextType },
    /// Any other message, by an opaque tag.
    Other(u32),
}

/// What the observer attaches to a requesting element.
#[derive(Clone, Copy, Debug, PartialEq, Eq, Structural)]
pub enum Attachment {
    /// A context value wrapping the shared display handle.
    Display(usize),
    /// A context value whose payload is the wrapped application context.
    AppContext(usize),
}

/// The observer's verdict on one message: the message itself, passed through
/// unchanged, plus what was attached to its source, if anything.
#[derive(Clone, Copy, Debug, PartialEq, Eq, Structural)]
pub struct Outcome {
    pub message: BusMessage,
    pub attached: Option<Attachment>,
}

/// Whether a message is a recognized context request: a "need-context"
/// message with a requesting element and a context type the bridge serves.
pub open spec fn recognized(m: BusMessage) -> bool {
    &&& m matches BusMessage::NeedContext { source_present, ctx_type }
    &&& source_present
    &&& (ctx_type is GlDisplay || ctx_type is GlApp)
}

/// What the observer attaches for a given message: the display handle for a
/// display-context request, the application context for an app-context
/// request, nothing otherwise.
pub open spec fn attachment_for(h: ContextHandles, m: BusMessage) -> Option<Attachment> {
    if m matches BusMessage::NeedContext { source_present: true, ctx_type: ContextType::GlDisplay } {
        Some(Attachment::Display(h.display))
    } else if m matches BusMessage::NeedContext { source_present: true, ctx_type: ContextType::GlApp } {
        Some(Attachment::AppContext(h.app_context))
    } else {
        None
    }
}

/// How many messages of a sequence are recognized context requests.
pub open spec fn count_recognized(s: Seq<BusMessage>) -> nat
    decreases s.len(),
{
    if s.len() == 0 {
        0
    } else {
        count_recognized(s.drop_last()) + if recognized(s.last()) { 1nat } else { 0nat }
    }
}

/// How many outcomes of a sequence carry an attachment.
pub open spec fn count_attached(s: Seq<Outcome>) -> nat
    decreases s.len(),
{
    if s.len() == 0 {
        0
    } else {
        count_attached(s.drop_last()) + if s.last().attached is Some { 1nat } else { 0nat }
    }
}

/// The observer object: it owns copies of the shared handles, so nothing of
/// its state hides in a callback closure.
#[derive(Clone, Copy, Debug)]
pub struct ContextNegotiator {
    pub handles: ContextHandles,
}

impl ContextNegotiator {
    /// An observer lending the given handles.
    pub fn new(handles: ContextHandles) -> (r: ContextNegotiator)
        ensures
            r.handles == handles,
    {
        ContextNegotiator { handles }
    }

    /// Handles one bus message: attaches a context to a recognized request
    /// and passes the message through unchanged either way.
    pub fn handle_message(&self, m: &BusMessage) -> (r: Outcome)
        ensures
            r.message == *m,
            r.attached == attachment_for(self.handles, *m),
            r.attached is Some <==> recognized(*m),
    {
        let attached = match m {
            BusMessage::NeedContext { source_present: true, ctx_type: ContextType::GlDisplay } => {
                Some(Attachment::Display(self.handles.display))
            },
            BusMessage::NeedContext { source_present: true, ctx_type: ContextType::GlApp } => {
                Some(Attachment::AppContext(self.handles.app_context))
            },
            _ => None,
        };
        Outcome { message: *m, attached }
    }

    /// Handles a whole message sequence in order.  Every message passes
    /// through unchanged at its own index, an attachment happens exactly at
    /// the recognized requests, and so exactly as many outcomes carry one
    /// as the sequence holds recognized requests.
    pub fn process_messages(&self, msgs: &Vec<BusMessage>) -> (r: Vec<Outcome>)
        ensures
            r@.len() == msgs@.len(),
            forall|i: int| 0 <= i < msgs@.len() ==> #[trigger] r@[i].message == msgs@[i],
            forall|i: int|
                0 <= i < msgs@.len() ==> #[trigger] r@[i].attached == attachment_for(
                    self.handles,
                    msgs@[i],
                ),
            count_attached(r@) == count_recognized(msgs@),
    {
        let mut out: Vec<Outcome> = Vec::new();
        let n = msgs.len();
        for idx in 0..n
            invariant
                n == msgs@.len(),
                out@.len() == idx,
                forall|i: int| 0 <= i < idx ==> #[trigger] out@[i].message == msgs@[i],
                forall|i: int|
                    0 <= i < idx ==> #[trigger] out@[i].attached == attachment_for(
                        self.handles,
                        msgs@[i],
                    ),
        {
            let o = self.handle_message(&msgs[idx]);
            out.push(o);
        }
        proof {
            lemma_attachment_count(self.handles, msgs@, out@);
        }
        out
    }
}

/// Law: over any message sequence, exactly as many outcomes carry an
/// attachment as there are recognized context requests; the rest pass
/// through with nothing attached.  Stated over any outcome sequence that
/// attaches per message what [`attachment_for`] gives, which is what
/// [`ContextNegotiator::process_messages`] ensures.
pub proof fn lemma_attachment_count(
    h: ContextHandles,
    msgs: Seq<BusMessage>,
    outs: Seq<Outcome>,
)
    requires
        outs.len() == msgs.len(),
        forall|i: int| 0 <= i < msgs.len() ==> #[trigger] outs[i].attached == attachment_for(
            h,
            msgs[i],
        ),
    ensures
        count_attached(outs) == count_recognized(msgs),
    decreases msgs.len(),
{
    if msgs.len() > 0 {
        lemma_attachment_count(h, msgs.drop_last(), outs.drop_last());
        assert(outs.last().attached == attachment_for(h, msgs.last()));
        assert(attachment_for(h, msgs.last()) is Some <==> recognized(msgs.last()));
    }
}

} // verus!
