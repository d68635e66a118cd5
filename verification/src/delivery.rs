//! Delivery of one batch of monitor lines to the session.
use vstd::prelude::*;

use crate::ids::{format_sub_id, MonitorSeq};
use crate::protocol::{
    AgentPath, Event, EventMsg, InterAgentCommunication, MonitorEventEvent, SessionStep,
};
#[allow(unused_imports)]
use crate::protocol::{CommunicationView, SessionStepView};
use crate::text::join_lines;

verus! {

/// The tag by which the model knows the notices of a monitor.
pub open spec fn notice_tag(description: Seq<char>) -> Seq<char> {
    "[monitor: "@ + description + "]"@
}

/// What the model reads of a batch whose joined text is `text`.
pub open spec fn notice_content(description: Seq<char>, text: Seq<char>) -> Seq<char> {
    notice_tag(description) + " background event(s):\n"@ + text
}

/// The message that carries a batch to the model. It comes from the background
/// agent, goes to the root agent alone, and asks for a turn.
pub open spec fn notice_mail(description: Seq<char>, text: Seq<char>) -> CommunicationView {
    CommunicationView {
        id: None,
        author: AgentPath::Morpheus,
        recipient: AgentPath::Root,
        other_recipients: Seq::empty(),
        content: notice_content(description, text),
        encrypted_content: None,
        internal_chat_message_metadata_passthrough: None,
        trigger_turn: true,
    }
}

/// The session steps that deliver `lines` as notice number `n`, in order: one
/// visible notice, one message to the model, one wake. Nothing for an empty
/// batch.
pub open spec fn delivery(
    n: u64,
    description: Seq<char>,
    lines: Seq<Seq<char>>,
) -> Seq<SessionStepView> {
    if lines.len() == 0 {
        Seq::empty()
    } else {
        let text = crate::text::joined(lines);
        seq![
            SessionStepView::SendEvent {
                id: crate::ids::sub_id(n),
                description,
                line: text,
            },
            SessionStepView::EnqueueMail(notice_mail(description, text)),
            SessionStepView::StartTurn { sub_id: crate::ids::sub_id(n) },
        ]
    }
}

/// The counter after a batch has been delivered: an empty batch takes no
/// number.
pub open spec fn seq_after(n: u64, lines: Seq<Seq<char>>) -> u64 {
    if lines.len() == 0 {
        n
    } else {
        crate::ids::successor(n)
    }
}

/// Writes the tag of a monitor.
pub fn format_tag(description: &str) -> (res: String)
    ensures
        res@ == notice_tag(description@),
{
    let mut res = "[monitor: ".to_owned();
    res.append(description);
    res.append("]");
    res
}

/// Emits one coalesced batch of monitor lines: a single visible notice plus a
/// single wake of the model. The result lists what is to be done to the
/// session, in order; it is empty for an empty batch.
pub fn deliver_batch(seq: &mut MonitorSeq, description: &str, lines: Vec<String>) -> (steps: Vec<
    SessionStep,
>)
    ensures
        steps.deep_view() == delivery(old(seq)@, description@, lines.deep_view()),
        final(seq)@ == seq_after(old(seq)@, lines.deep_view()),
        lines@.len() == 0 ==> steps@.len() == 0 && final(seq)@ == old(seq)@,
        lines@.len() > 0 ==> final(seq)@ == (old(seq)@ + 1) % 0x1_0000_0000_0000_0000,
        lines@.len() > 0 ==> ({
            &&& steps@.len() == 3
            &&& steps@[0] matches SessionStep::SendEvent(event)
            &&& event.msg matches EventMsg::MonitorEvent(notice)
            &&& steps@[1] matches SessionStep::EnqueueMail(mail)
            &&& steps@[2] matches SessionStep::StartTurn { sub_id }
            &&& event.id@ == "monitor-"@ + crate::text::decimal(old(seq)@ as nat)
            &&& sub_id@ == event.id@
            &&& notice.description@ == description@
            &&& notice.line@ == crate::text::joined(lines.deep_view())
            &&& mail.content@ == "[monitor: "@ + description@ + "] background event(s):\n"@
                + notice.line@
            &&& mail.id == None::<String>
            &&& mail.author == AgentPath::Morpheus
            &&& mail.recipient == AgentPath::Root
            &&& mail.other_recipients@.len() == 0
            &&& mail.encrypted_content == None::<String>
            &&& mail.internal_chat_message_metadata_passthrough == None::<String>
            &&& mail.trigger_turn
        }),
{
    let mut steps: Vec<SessionStep> = Vec::new();
    if lines.len() == 0 {
        assert(steps.deep_view() == delivery(seq@, description@, lines.deep_view()));
        return steps;
    }
    let sub_id = format_sub_id(seq.draw());
    let joined = join_lines(&lines);

    // One visible, distinct notice for the whole batch.
    steps.push(
        SessionStep::SendEvent(
            Event {
                id: sub_id.clone(),
                msg: EventMsg::MonitorEvent(
                    MonitorEventEvent {
                        description: description.to_owned(),
                        line: joined.clone(),
                    },
                ),
            },
        ),
    );

    // Feed the batch to the model and wake the session.
    let mut content = format_tag(description);
    content.append(" background event(s):\n");
    content.append(joined.as_str());
    steps.push(
        SessionStep::EnqueueMail(
            InterAgentCommunication {
                id: None,
                author: AgentPath::morpheus(),
                recipient: AgentPath::root(),
                other_recipients: Vec::new(),
                content,
                encrypted_content: None,
                internal_chat_message_metadata_passthrough: None,
                trigger_turn: true,
            },
        ),
    );
    steps.push(SessionStep::StartTurn { sub_id });
    proof {
        content_in_one_piece(description@, joined@);
    }
    assert(steps.deep_view() =~~= delivery(old(seq)@, description@, lines.deep_view()));
    steps
}

/// The visible notice and the wake of one delivery bear the same name, and
/// the message holds exactly the text that is shown, after a header that names
/// the monitor.
pub proof fn delivery_is_coherent(n: u64, description: Seq<char>, lines: Seq<Seq<char>>)
    requires
        lines.len() > 0,
    ensures
        ({
            let steps = delivery(n, description, lines);
            &&& steps.len() == 3
            &&& steps[0] matches SessionStepView::SendEvent { id, description: d, line }
            &&& steps[1] matches SessionStepView::EnqueueMail(mail)
            &&& steps[2] matches SessionStepView::StartTurn { sub_id }
            &&& id == sub_id
            &&& mail.content == notice_content(d, line)
            &&& mail.trigger_turn
        }),
{
}

/// From the visible notice of a non-empty batch of newline-free lines its
/// number, its description and its lines can be told.
pub proof fn notice_determines_batch(
    m: u64,
    n: u64,
    da: Seq<char>,
    db: Seq<char>,
    a: Seq<Seq<char>>,
    b: Seq<Seq<char>>,
)
    requires
        a.len() > 0,
        b.len() > 0,
        crate::text::newline_free(a),
        crate::text::newline_free(b),
        delivery(m, da, a)[0] == delivery(n, db, b)[0],
    ensures
        m == n,
        da == db,
        a == b,
{
    crate::ids::sub_id_is_injective(m, n);
    crate::text::joined_is_injective(a, b);
}

/// The name that a session step bears, if it bears one.
pub open spec fn step_name(step: SessionStepView) -> Option<Seq<char>> {
    match step {
        SessionStepView::SendEvent { id, .. } => Some(id),
        SessionStepView::EnqueueMail(_) => None,
        SessionStepView::StartTurn { sub_id } => Some(sub_id),
    }
}

/// Two batches delivered under different draws of one counter, fewer than two
/// to the sixty-fourth draws apart, bear different names, whichever monitors
/// they belong to: their notices differ in name, and so do their wakes. A
/// monitor numbered by a third draw `k` shares its number with neither.
pub proof fn deliveries_have_distinct_names(
    start: u64,
    i: nat,
    j: nat,
    k: nat,
    da: Seq<char>,
    db: Seq<char>,
    a: Seq<Seq<char>>,
    b: Seq<Seq<char>>,
)
    requires
        i < j < i + 0x1_0000_0000_0000_0000,
        k != i,
        k != j,
        j < k + 0x1_0000_0000_0000_0000,
        k < i + 0x1_0000_0000_0000_0000,
        a.len() > 0,
        b.len() > 0,
    ensures
        ({
            let first = delivery(crate::ids::drawn(start, i), da, a);
            let second = delivery(crate::ids::drawn(start, j), db, b);
            &&& step_name(first[0]) is Some
            &&& step_name(second[0]) is Some
            &&& step_name(first[0]) != step_name(second[0])
            &&& step_name(first[2]) is Some
            &&& step_name(second[2]) is Some
            &&& step_name(first[2]) != step_name(second[2])
        }),
        crate::ids::drawn(start, k) != crate::ids::drawn(start, i),
        crate::ids::drawn(start, k) != crate::ids::drawn(start, j),
{
    crate::ids::drawn_ids_are_unique(start, i, j);
    if k < i {
        crate::ids::drawn_ids_are_unique(start, k, i);
    } else {
        crate::ids::drawn_ids_are_unique(start, i, k);
    }
    if k < j {
        crate::ids::drawn_ids_are_unique(start, k, j);
    } else {
        crate::ids::drawn_ids_are_unique(start, j, k);
    }
}

/// The tag of a monitor is its description in a fixed bracket.
pub proof fn tag_holds_the_description(description: Seq<char>)
    ensures
        notice_tag(description) == "[monitor: "@ + description + "]"@,
{
}

proof fn content_in_one_piece(description: Seq<char>, text: Seq<char>)
    ensures
        notice_content(description, text) == "[monitor: "@ + description
            + "] background event(s):\n"@ + text,
{
    reveal_strlit("]");
    reveal_strlit(" background event(s):\n");
    reveal_strlit("] background event(s):\n");
    assert("] background event(s):\n"@ == "]"@ + " background event(s):\n"@);
    assert(notice_content(description, text) == "[monitor: "@ + description
        + "] background event(s):\n"@ + text);
}

/// What a delivery consists of: a notice named after the number, shown under
/// the monitor's description; a message from the background agent to the root
/// agent alone, which asks for a turn and ends with the whole text of the
/// notice, behind a header that names the monitor; and a wake under the name of
/// the notice. An empty batch leads to nothing.
pub proof fn delivery_says_everything(n: u64, description: Seq<char>, lines: Seq<Seq<char>>)
    ensures
        lines.len() == 0 ==> delivery(n, description, lines).len() == 0,
        lines.len() > 0 ==> ({
            let steps = delivery(n, description, lines);
            &&& steps.len() == 3
            &&& steps[0] matches SessionStepView::SendEvent { id, description: shown, line }
            &&& steps[1] matches SessionStepView::EnqueueMail(mail)
            &&& steps[2] matches SessionStepView::StartTurn { sub_id }
            &&& id == "monitor-"@ + crate::text::decimal(n as nat)
            &&& sub_id == "monitor-"@ + crate::text::decimal(n as nat)
            &&& shown == description
            &&& mail.content == "[monitor: "@ + description + "] background event(s):\n"@ + line
            &&& line.is_suffix_of(mail.content)
            &&& mail.id == None::<Seq<char>>
            &&& mail.author == AgentPath::Morpheus
            &&& mail.recipient == AgentPath::Root
            &&& mail.other_recipients.len() == 0
            &&& mail.encrypted_content == None::<Seq<char>>
            &&& mail.internal_chat_message_metadata_passthrough == None::<Seq<char>>
            &&& mail.trigger_turn
        }),
{
    let line = crate::text::joined(lines);
    content_in_one_piece(description, line);
    let content = notice_content(description, line);
    assert(content.skip(content.len() - line.len()) == line);
}

/// The notice of one line shows that line, and the notice of a batch shows its
/// lines in the order of the batch: what comes later stands behind what comes
/// earlier, after one newline. Neither number nor description plays a part.
pub proof fn notice_shows_the_lines_in_order(
    n: u64,
    m: u64,
    da: Seq<char>,
    db: Seq<char>,
    a: Seq<Seq<char>>,
    b: Seq<Seq<char>>,
    line: Seq<char>,
)
    requires
        a.len() > 0,
        b.len() > 0,
    ensures
        delivery(n, da, seq![line])[0]->line == line,
        delivery(n, da, a + b)[0]->line == delivery(n, da, a)[0]->line + "\n"@ + delivery(
            n,
            da,
            b,
        )[0]->line,
        delivery(n, da, a)[0]->line == delivery(m, db, a)[0]->line,
{
    reveal_strlit("\n");
    assert("\n"@ == seq!['\n']);
    crate::text::joining_keeps_the_order(a, b, line);
}

/// A delivery takes exactly one number, and an empty batch none.
pub proof fn delivery_takes_one_number(n: u64, lines: Seq<Seq<char>>)
    ensures
        lines.len() == 0 ==> seq_after(n, lines) == n,
        lines.len() > 0 ==> seq_after(n, lines) == (n + 1) % 0x1_0000_0000_0000_0000,
{
}

} // verus!
