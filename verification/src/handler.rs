//! The handler of the `monitor` tool.
use vstd::prelude::*;

use crate::delivery::format_tag;
use crate::ids::MonitorSeq;
use crate::text::to_decimal;
use crate::tool::{create_monitor_tool, ToolName, ToolSpec, MONITOR_TOOL_NAME};
use crate::watch::Watch;

verus! {

/// The arguments of a call.
#[derive(Debug, PartialEq, Eq)]
pub struct MonitorArgs {
    /// Shell command or script to run in the background.
    pub command: String,
    /// Short human-readable description, surfaced with every event.
    pub description: String,
}

/// What a call carries.
#[derive(Debug, PartialEq, Eq)]
pub enum ToolPayload {
    /// The arguments of a function call, not yet parsed.
    Function { arguments: String },
    /// Anything else, of which this tool has no use.
    Unsupported,
}

/// Why a call is refused.
#[derive(Debug, PartialEq, Eq)]
pub enum FunctionCallError {
    /// The reason, to be told to the model.
    RespondToModel(String),
}

/// The answer to a call.
#[derive(Debug, PartialEq, Eq)]
pub struct FunctionToolOutput {
    pub text: String,
    pub success: Option<bool>,
}

impl FunctionToolOutput {
    /// An answer in plain text.
    pub fn from_text(text: String, success: Option<bool>) -> (res: FunctionToolOutput)
        ensures
            res.text@ == text@,
            res.success == success,
    {
        FunctionToolOutput { text, success }
    }
}

/// A monitor that has been accepted: its number, the watch that is to run in
/// the background, and the answer that is given at once.
///
/// The command is to be started only once the answer has been given. The watch
/// delivers nothing before it is told of the start, so the answer is ordered
/// before every notice.
pub struct StartedMonitor {
    pub monitor_id: u64,
    pub watch: Watch,
    pub output: FunctionToolOutput,
}

/// The answer that announces monitor number `n`.
pub open spec fn started_text(n: u64, description: Seq<char>) -> Seq<char> {
    "Started background monitor #"@ + crate::text::decimal(n as nat) + ": "@ + description
        + ". Output will arrive as quiet `"@ + crate::delivery::notice_tag(description)
        + "` notices (batched); handle them silently unless one needs action. A final notice is delivered when it exits."@
}

/// The handler of the `monitor` tool.
pub struct MonitorHandler;

impl MonitorHandler {
    /// The name under which the tool is called.
    pub fn tool_name(&self) -> (res: ToolName)
        ensures
            res.name@ == MONITOR_TOOL_NAME@,
    {
        ToolName::plain(MONITOR_TOOL_NAME)
    }

    /// The declaration of the tool.
    pub fn spec(&self) -> (res: ToolSpec)
        ensures
            crate::tool::is_monitor_tool(res),
    {
        create_monitor_tool()
    }

    /// The arguments that are to be parsed; a payload other than a function
    /// call is refused.
    pub fn function_arguments(&self, payload: ToolPayload) -> (res: Result<
        String,
        FunctionCallError,
    >)
        ensures
            match payload {
                ToolPayload::Function { arguments } => res == Ok::<String, FunctionCallError>(
                    arguments,
                ),
                ToolPayload::Unsupported => {
                    &&& res matches Err(FunctionCallError::RespondToModel(reason))
                    &&& reason@ == MONITOR_TOOL_NAME@ + " handler received unsupported payload"@
                },
            },
    {
        match payload {
            ToolPayload::Function { arguments } => Ok(arguments),
            ToolPayload::Unsupported => {
                let mut reason = MONITOR_TOOL_NAME.to_owned();
                reason.append(" handler received unsupported payload");
                Err(FunctionCallError::RespondToModel(reason))
            },
        }
    }

    /// Accepts a call whose arguments have been parsed: gives the monitor a
    /// number, prepares its watch, and answers at once. Arguments that failed
    /// to parse are refused for the reason given, and take no number.
    pub fn handle(&self, parsed: Result<MonitorArgs, FunctionCallError>, seq: &mut MonitorSeq) -> (res:
        Result<StartedMonitor, FunctionCallError>)
        ensures
            match parsed {
                Ok(args) => {
                    &&& res matches Ok(started)
                    &&& started.monitor_id == old(seq)@
                    &&& started.watch@ == crate::watch::fresh()
                    &&& started.watch.spec_command() == args.command@
                    &&& started.watch.spec_description() == args.description@
                    &&& started.output.text@ == started_text(old(seq)@, args.description@)
                    &&& started.output.text@ == "Started background monitor #"@
                        + crate::text::decimal(started.monitor_id as nat) + ": "@
                        + args.description@ + ". Output will arrive as quiet `[monitor: "@
                        + args.description@
                        + "]` notices (batched); handle them silently unless one needs action. A final notice is delivered when it exits."@
                    &&& started.output.success == Some(true)
                    &&& final(seq)@ == crate::ids::successor(old(seq)@)
                    &&& final(seq)@ == (old(seq)@ + 1) % 0x1_0000_0000_0000_0000
                },
                Err(error) => {
                    &&& res == Err::<StartedMonitor, FunctionCallError>(error)
                    &&& final(seq)@ == old(seq)@
                },
            },
    {
        let args = match parsed {
            Ok(args) => args,
            Err(error) => {
                return Err(error);
            },
        };
        let monitor_id = seq.draw();

        let mut text = "Started background monitor #".to_owned();
        text.append(to_decimal(monitor_id).as_str());
        text.append(": ");
        text.append(args.description.as_str());
        text.append(". Output will arrive as quiet `");
        text.append(format_tag(args.description.as_str()).as_str());
        text.append(
            "` notices (batched); handle them silently unless one needs action. A final notice is delivered when it exits.",
        );

        proof {
            started_text_in_full(monitor_id, args.description@);
        }
        let watch = Watch::new(args.command, args.description);
        let output = FunctionToolOutput::from_text(text, Some(true));
        Ok(StartedMonitor { monitor_id, watch, output })
    }
}

/// The answer to a call quotes the tag with which every notice to the model
/// begins.
pub proof fn answer_quotes_the_notice_tag(n: u64, description: Seq<char>, text: Seq<char>)
    ensures
        crate::delivery::notice_tag(description).is_prefix_of(
            crate::delivery::notice_content(description, text),
        ),
        exists|before: Seq<char>, after: Seq<char>|
            started_text(n, description) == #[trigger] (before + crate::delivery::notice_tag(
                description,
            ) + after),
{
    let tag = crate::delivery::notice_tag(description);
    let before = "Started background monitor #"@ + crate::text::decimal(n as nat) + ": "@
        + description + ". Output will arrive as quiet `"@;
    let after =
        "` notices (batched); handle them silently unless one needs action. A final notice is delivered when it exits."@;
    assert(started_text(n, description) == before + tag + after);
}

proof fn started_text_in_full(n: u64, description: Seq<char>)
    ensures
        started_text(n, description) == "Started background monitor #"@ + crate::text::decimal(
            n as nat,
        ) + ": "@ + description + ". Output will arrive as quiet `[monitor: "@ + description
            + "]` notices (batched); handle them silently unless one needs action. A final notice is delivered when it exits."@,
{
    reveal_strlit(". Output will arrive as quiet `");
    reveal_strlit("[monitor: ");
    reveal_strlit(". Output will arrive as quiet `[monitor: ");
    reveal_strlit("]");
    reveal_strlit(
        "` notices (batched); handle them silently unless one needs action. A final notice is delivered when it exits.",
    );
    reveal_strlit(
        "]` notices (batched); handle them silently unless one needs action. A final notice is delivered when it exits.",
    );
    assert(". Output will arrive as quiet `[monitor: "@ == ". Output will arrive as quiet `"@
        + "[monitor: "@);
    assert("]` notices (batched); handle them silently unless one needs action. A final notice is delivered when it exits."@
        == "]"@
        + "` notices (batched); handle them silently unless one needs action. A final notice is delivered when it exits."@);
    assert(started_text(n, description) == "Started background monitor #"@ + crate::text::decimal(
        n as nat,
    ) + ": "@ + description + ". Output will arrive as quiet `[monitor: "@ + description
        + "]` notices (batched); handle them silently unless one needs action. A final notice is delivered when it exits."@);
}

/// The answer begins by naming the monitor's own number, followed by the
/// description of what it watches for.
pub proof fn answer_begins_with_the_number(n: u64, description: Seq<char>)
    ensures
        ("Started background monitor #"@ + crate::text::decimal(n as nat) + ": "@
            + description).is_prefix_of(started_text(n, description)),
{
    let begin = "Started background monitor #"@ + crate::text::decimal(n as nat) + ": "@
        + description;
    assert(started_text(n, description).take(begin.len() as int) == begin);
}

/// Two answers are the same only if they announce the same number for the same
/// description.
pub proof fn answer_tells_the_monitor(m: u64, n: u64, da: Seq<char>, db: Seq<char>)
    requires
        started_text(m, da) == started_text(n, db),
    ensures
        m == n,
        da == db,
{
    let prefix = "Started background monitor #"@;
    let p = prefix.len() as int;
    let (a, b) = (crate::text::decimal(m as nat), crate::text::decimal(n as nat));
    let text = started_text(m, da);
    reveal_strlit(": ");
    crate::text::decimal_holds_digits_only(m as nat);
    crate::text::decimal_holds_digits_only(n as nat);
    answer_begins_with_the_number(m, da);
    answer_begins_with_the_number(n, db);
    let ba = prefix + a + ": "@ + da;
    let bb = prefix + b + ": "@ + db;
    assert(forall|i: int| 0 <= i < ba.len() ==> ba[i] == text[i]);
    assert(forall|i: int| 0 <= i < bb.len() ==> bb[i] == text[i]);
    assert(ba[p + a.len()] == ':');
    assert(bb[p + b.len()] == ':');
    assert(forall|i: int| 0 <= i < a.len() ==> text[p + i] == #[trigger] a[i]) by {
        assert(forall|i: int| 0 <= i < a.len() ==> ba[p + i] == #[trigger] a[i]);
    }
    assert(forall|i: int| 0 <= i < b.len() ==> text[p + i] == #[trigger] b[i]) by {
        assert(forall|i: int| 0 <= i < b.len() ==> bb[p + i] == #[trigger] b[i]);
    }
    if a.len() < b.len() {
        assert(b[a.len() as int] == ':');
    }
    if b.len() < a.len() {
        assert(a[b.len() as int] == ':');
    }
    assert(a == b);
    crate::text::decimal_is_injective(m as nat, n as nat);
    let q = p + a.len() + 2;
    assert(da.len() == db.len());
    assert forall|i: int| 0 <= i < da.len() implies da[i] == db[i] by {
        assert(ba[q + i] == da[i]);
        assert(bb[q + i] == db[i]);
    }
    assert(da == db);
}

} // verus!
