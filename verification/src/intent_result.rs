//! What an intent handler hands back: the bus messages to publish, in order,
//! and an optional scope transition requested by a slice.

use vstd::prelude::*;
use vstd::string::*;
use crate::dashboard_nav::DashboardNav;
use crate::session::{ChatEntry, EntryId, PinPosition, SessionId};

verus! {

/// A slice's identity in the focus stack and the route table.
#[derive(Debug)]
pub struct SliceScopeId {
    pub namespace: String,
    pub name: String,
}

impl SliceScopeId {
    /// A scope id from its two parts.
    pub fn new(namespace: &str, name: &str) -> (r: SliceScopeId)
        ensures
            r.namespace@ == namespace@,
            r.name@ == name@,
    {
        SliceScopeId { namespace: String::from_str(namespace), name: String::from_str(name) }
    }

    /// A copy of this id.
    pub fn copy(&self) -> (r: SliceScopeId)
        ensures
            r == *self,
    {
        SliceScopeId { namespace: self.namespace.clone(), name: self.name.clone() }
    }

    /// Whether two ids name the same scope.
    pub fn same(&self, other: &SliceScopeId) -> (r: bool)
        ensures
            r == (self.namespace@ == other.namespace@ && self.name@ == other.name@),
    {
        self.namespace == other.namespace && self.name == other.name
    }
}

/// A scope transition requested by a slice's route.
#[derive(Debug)]
pub enum ScopeSignal {
    /// Push the slice's scope.
    Push(SliceScopeId),
    /// Pop the top scope if it is this slice's scope.
    PopIf(SliceScopeId),
}

/// A message for the actor system.
#[derive(Debug)]
pub enum Message {
    PinChatEntry { session_id: SessionId, entry_id: EntryId, position: PinPosition },
    UnpinChatEntry { session_id: SessionId, entry_id: EntryId },
    SessionForkRequested { source_session_id: SessionId, at_ordinal: usize },
    PushChatEntry { session_id: SessionId, entry: ChatEntry },
    PersistSession { session_id: SessionId },
    ContextOverrideChanged { session_id: SessionId, entry_id: EntryId },
    CreateThreadForSession { session_id: SessionId, title: String },
    CancelStream { session_id: SessionId },
    CancelLifecycleCommand { session_id: SessionId },
    CloseSession { session_id: SessionId },
    ActiveSessionChanged { session_id: SessionId },
    SessionCreated { session_id: SessionId },
    ArchiveSessionTree { root: SessionId },
    TeardownSessionTree { root: SessionId },
    MarkSessionInteracted { session_id: SessionId },
    EnqueueUserMessage { session_id: SessionId, text: String },
    SubmitSteeringMessage { session_id: SessionId, text: String },
    Dashboard(DashboardNav),
}

/// The type name a message is published under.
pub open spec fn spec_message_name(m: Message) -> Seq<char> {
    match m {
        Message::PinChatEntry { .. } => "jinn_domain::protocol::PinChatEntry"@,
        Message::UnpinChatEntry { .. } => "jinn_domain::protocol::UnpinChatEntry"@,
        Message::SessionForkRequested { .. } => "jinn_domain::protocol::SessionForkRequested"@,
        Message::PushChatEntry { .. } => "jinn_domain::protocol::PushChatEntry"@,
        Message::PersistSession { .. } => "jinn_domain::protocol::PersistSession"@,
        Message::ContextOverrideChanged { .. } => "jinn_domain::protocol::ContextOverrideChanged"@,
        Message::CreateThreadForSession { .. } => "jinn_domain::protocol::CreateThreadForSession"@,
        Message::CancelStream { .. } => "jinn_domain::protocol::CancelStream"@,
        Message::CancelLifecycleCommand { .. } => "jinn_domain::protocol::CancelLifecycleCommand"@,
        Message::CloseSession { .. } => "jinn_domain::protocol::CloseSession"@,
        Message::ActiveSessionChanged { .. } => "jinn_domain::protocol::ActiveSessionChanged"@,
        Message::SessionCreated { .. } => "jinn_domain::protocol::SessionCreated"@,
        Message::ArchiveSessionTree { .. } => "jinn_domain::protocol::ArchiveSessionTree"@,
        Message::TeardownSessionTree { .. } => "jinn_domain::protocol::TeardownSessionTree"@,
        Message::MarkSessionInteracted { .. } => "jinn_domain::protocol::MarkSessionInteracted"@,
        Message::EnqueueUserMessage { .. } => "jinn_domain::protocol::EnqueueUserMessage"@,
        Message::SubmitSteeringMessage { .. } => "jinn_domain::protocol::SubmitSteeringMessage"@,
        Message::Dashboard(_) => "jinn_domain::dashboard_nav::DashboardNav"@,
    }
}

impl Message {
    /// The type name this message is published under.
    pub fn name(&self) -> (r: String)
        ensures
            r@ == spec_message_name(*self),
    {
        let s = match self {
            Message::PinChatEntry { .. } => "jinn_domain::protocol::PinChatEntry",
            Message::UnpinChatEntry { .. } => "jinn_domain::protocol::UnpinChatEntry",
            Message::SessionForkRequested { .. } => "jinn_domain::protocol::SessionForkRequested",
            Message::PushChatEntry { .. } => "jinn_domain::protocol::PushChatEntry",
            Message::PersistSession { .. } => "jinn_domain::protocol::PersistSession",
            Message::ContextOverrideChanged { .. } => "jinn_domain::protocol::ContextOverrideChanged",
            Message::CreateThreadForSession { .. } => "jinn_domain::protocol::CreateThreadForSession",
            Message::CancelStream { .. } => "jinn_domain::protocol::CancelStream",
            Message::CancelLifecycleCommand { .. } => "jinn_domain::protocol::CancelLifecycleCommand",
            Message::CloseSession { .. } => "jinn_domain::protocol::CloseSession",
            Message::ActiveSessionChanged { .. } => "jinn_domain::protocol::ActiveSessionChanged",
            Message::SessionCreated { .. } => "jinn_domain::protocol::SessionCreated",
            Message::ArchiveSessionTree { .. } => "jinn_domain::protocol::ArchiveSessionTree",
            Message::TeardownSessionTree { .. } => "jinn_domain::protocol::TeardownSessionTree",
            Message::MarkSessionInteracted { .. } => "jinn_domain::protocol::MarkSessionInteracted",
            Message::EnqueueUserMessage { .. } => "jinn_domain::protocol::EnqueueUserMessage",
            Message::SubmitSteeringMessage { .. } => "jinn_domain::protocol::SubmitSteeringMessage",
            Message::Dashboard(_) => "jinn_domain::dashboard_nav::DashboardNav",
        };
        String::from_str(s)
    }
}

/// The messages produced by one intent, with their type names, and an
/// optional scope transition.
#[derive(Debug)]
pub struct IntentResult {
    /// The messages, in publishing order.
    pub messages: Vec<Message>,
    /// The type name of each message, in the same order.
    pub message_names: Vec<String>,
    /// A scope transition to apply before the messages publish.
    pub scope_signal: Option<ScopeSignal>,
}

impl IntentResult {
    /// The names line up with the messages.
    pub open spec fn wf(&self) -> bool {
        &&& self.message_names@.len() == self.messages@.len()
        &&& forall|i: int|
            0 <= i < self.messages@.len() ==> #[trigger] self.message_names@[i]@
                == spec_message_name(self.messages@[i])
    }

    /// No messages and no scope transition.
    pub open spec fn is_empty_result(&self) -> bool {
        self.messages@.len() == 0 && self.scope_signal is None
    }

    /// A result with nothing in it.
    pub fn empty() -> (r: IntentResult)
        ensures
            r.wf(),
            r.is_empty_result(),
    {
        IntentResult { messages: Vec::new(), message_names: Vec::new(), scope_signal: None }
    }

    /// A result with one message.
    pub fn new_message(m: Message) -> (r: IntentResult)
        ensures
            r.wf(),
            r.messages@ == seq![m],
            r.scope_signal is None,
    {
        IntentResult::empty().with_message(m)
    }

    /// This result with `m` appended.
    pub fn with_message(self, m: Message) -> (r: IntentResult)
        requires
            self.wf(),
        ensures
            r.wf(),
            r.messages@ == self.messages@.push(m),
            r.scope_signal == self.scope_signal,
    {
        let mut r = self;
        let name = m.name();
        r.messages.push(m);
        r.message_names.push(name);
        proof {
            assert forall|i: int| 0 <= i < r.messages@.len() implies #[trigger] r.message_names@[i]@
                == spec_message_name(r.messages@[i]) by {
                if i < self.messages@.len() {
                    assert(r.message_names@[i] == self.message_names@[i]);
                    assert(r.messages@[i] == self.messages@[i]);
                }
            }
        }
        r
    }

    /// This result followed by the messages of `other`; `other`'s scope
    /// signal wins when it has one.
    pub fn merge(self, other: IntentResult) -> (r: IntentResult)
        requires
            self.wf(),
            other.wf(),
        ensures
            r.wf(),
            r.messages@ == self.messages@ + other.messages@,
            r.scope_signal == if other.scope_signal is Some {
                other.scope_signal
            } else {
                self.scope_signal
            },
    {
        let mut r = self;
        let mut rest = other;
        let ghost first = r.messages@;
        let ghost second = rest.messages@;
        let signal = if rest.scope_signal.is_some() {
            rest.scope_signal.take()
        } else {
            r.scope_signal.take()
        };
        r.messages.append(&mut rest.messages);
        r.message_names.append(&mut rest.message_names);
        r.scope_signal = signal;
        proof {
            assert forall|i: int| 0 <= i < r.messages@.len() implies #[trigger] r.message_names@[i]@
                == spec_message_name(r.messages@[i]) by {
                if i < first.len() {
                    assert(r.messages@[i] == first[i]);
                } else {
                    assert(r.messages@[i] == second[i - first.len()]);
                }
            }
        }
        r
    }
}

} // verus!
