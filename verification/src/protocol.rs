//! What a monitor asks of the session that it reports to.
use vstd::prelude::*;

verus! {

/// The agents that take part in a monitor's communication.
#[derive(Clone, Copy, Debug, PartialEq, Eq, Structural)]
pub enum AgentPath {
    /// The agent that holds the conversation.
    Root,
    /// The agent in whose name background events are reported.
    Morpheus,
}

impl AgentPath {
    /// The agent that holds the conversation.
    pub fn root() -> (res: AgentPath)
        ensures
            res == AgentPath::Root,
    {
        AgentPath::Root
    }

    /// The agent in whose name background events are reported.
    pub fn morpheus() -> (res: AgentPath)
        ensures
            res == AgentPath::Morpheus,
    {
        AgentPath::Morpheus
    }
}

/// A notice of a monitor, as it is shown to the user.
#[derive(Debug, PartialEq, Eq)]
pub struct MonitorEventEvent {
    /// What is being monitored.
    pub description: String,
    /// The lines of the batch, joined by newlines.
    pub line: String,
}

/// The payload of an event.
#[derive(Debug, PartialEq, Eq)]
pub enum EventMsg {
    MonitorEvent(MonitorEventEvent),
}

/// An event for the user interface.
#[derive(Debug, PartialEq, Eq)]
pub struct Event {
    pub id: String,
    pub msg: EventMsg,
}

/// A message from one agent to another, delivered through the mailbox of the
/// session.
#[derive(Debug, PartialEq, Eq)]
pub struct InterAgentCommunication {
    pub id: Option<String>,
    pub author: AgentPath,
    pub recipient: AgentPath,
    pub other_recipients: Vec<AgentPath>,
    pub content: String,
    pub encrypted_content: Option<String>,
    pub internal_chat_message_metadata_passthrough: Option<String>,
    /// Whether the message starts a turn when the session is idle.
    pub trigger_turn: bool,
}

/// One thing to be done to the session.
#[derive(Debug, PartialEq, Eq)]
pub enum SessionStep {
    /// Show the event.
    SendEvent(Event),
    /// Put the message into the mailbox.
    EnqueueMail(InterAgentCommunication),
    /// Start a turn under this name for pending work, if the session is idle.
    StartTurn { sub_id: String },
}

/// The contents of an [`InterAgentCommunication`].
#[verifier::ext_equal]
pub struct CommunicationView {
    pub id: Option<Seq<char>>,
    pub author: AgentPath,
    pub recipient: AgentPath,
    pub other_recipients: Seq<AgentPath>,
    pub content: Seq<char>,
    pub encrypted_content: Option<Seq<char>>,
    pub internal_chat_message_metadata_passthrough: Option<Seq<char>>,
    pub trigger_turn: bool,
}

/// The contents of a [`SessionStep`].
#[verifier::ext_equal]
pub enum SessionStepView {
    SendEvent { id: Seq<char>, description: Seq<char>, line: Seq<char> },
    EnqueueMail(CommunicationView),
    StartTurn { sub_id: Seq<char> },
}

impl View for InterAgentCommunication {
    type V = CommunicationView;

    open spec fn view(&self) -> CommunicationView {
        CommunicationView {
            id: self.id.deep_view(),
            author: self.author,
            recipient: self.recipient,
            other_recipients: self.other_recipients@,
            content: self.content@,
            encrypted_content: self.encrypted_content.deep_view(),
            internal_chat_message_metadata_passthrough:
                self.internal_chat_message_metadata_passthrough.deep_view(),
            trigger_turn: self.trigger_turn,
        }
    }
}

impl DeepView for SessionStep {
    type V = SessionStepView;

    open spec fn deep_view(&self) -> SessionStepView {
        match self {
            SessionStep::SendEvent(event) => match event.msg {
                EventMsg::MonitorEvent(notice) => SessionStepView::SendEvent {
                    id: event.id@,
                    description: notice.description@,
                    line: notice.line@,
                },
            },
            SessionStep::EnqueueMail(comm) => SessionStepView::EnqueueMail(comm@),
            SessionStep::StartTurn { sub_id } => SessionStepView::StartTurn { sub_id: sub_id@ },
        }
    }
}

/// The view of a session step shows what the step holds.
pub proof fn step_view_shows_the_step(step: SessionStep)
    ensures
        match step {
            SessionStep::SendEvent(event) => {
                &&& event.msg matches EventMsg::MonitorEvent(notice)
                &&& step.deep_view() == (SessionStepView::SendEvent {
                    id: event.id@,
                    description: notice.description@,
                    line: notice.line@,
                })
            },
            SessionStep::EnqueueMail(mail) => step.deep_view() == SessionStepView::EnqueueMail(
                mail@,
            ),
            SessionStep::StartTurn { sub_id } => step.deep_view() == (SessionStepView::StartTurn {
                sub_id: sub_id@,
            }),
        },
{
}

/// The view of a message shows what the message holds.
pub proof fn mail_view_shows_the_mail(mail: InterAgentCommunication)
    ensures
        mail@.id == mail.id.deep_view(),
        mail@.author == mail.author,
        mail@.recipient == mail.recipient,
        mail@.other_recipients == mail.other_recipients@,
        mail@.content == mail.content@,
        mail@.encrypted_content == mail.encrypted_content.deep_view(),
        mail@.internal_chat_message_metadata_passthrough
            == mail.internal_chat_message_metadata_passthrough.deep_view(),
        mail@.trigger_turn == mail.trigger_turn,
{
}

} // verus!
