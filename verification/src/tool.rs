//! The declaration of the `monitor` tool, as it is shown to the model.
use vstd::prelude::*;

verus! {

/// The name under which the tool is called.
pub const MONITOR_TOOL_NAME: &'static str = "monitor";

/// What the tool does and how its notices are to be treated.
pub const MONITOR_TOOL_DESCRIPTION: &'static str =
    "Start a background monitor that streams events from a long-running command. stdout \
     lines arrive as background notices (you do not poll), batched per burst. \
     IMPORTANT: these are background signals — do NOT narrate or acknowledge each notice; \
     stay silent unless an event actually requires you to act, then act. Use for tailing \
     logs, watching files, or polling loops. Returns immediately; the watch runs across \
     turns until the command exits.";

/// What the `command` argument holds.
pub const COMMAND_DESCRIPTION: &'static str =
    "Shell command or script to run in the background. stdout lines are batched \
     into background notices delivered to you as they arrive. Exit ends the watch. \
     Make the filter selective (e.g. `tail -f log | grep --line-buffered ERROR`).";

/// What the `description` argument holds.
pub const DESCRIPTION_DESCRIPTION: &'static str =
    "Short description of what is being monitored (shown with each event).";

/// A plain tool name.
#[derive(Debug, PartialEq, Eq)]
pub struct ToolName {
    pub name: String,
}

impl ToolName {
    /// A tool known by `name` alone.
    pub fn plain(name: &str) -> (res: ToolName)
        ensures
            res.name@ == name@,
    {
        ToolName { name: name.to_owned() }
    }
}

/// The part of JSON schema that tools use to declare their arguments.
#[derive(Debug, PartialEq, Eq)]
pub enum JsonSchema {
    /// A string.
    Text { description: Option<String> },
    /// An object with the given properties, in ascending order of their names.
    Object {
        properties: Vec<Property>,
        required: Option<Vec<String>>,
        additional_properties: Option<bool>,
    },
}

/// A named property of an object.
#[derive(Debug, PartialEq, Eq)]
pub struct Property {
    pub name: String,
    pub schema: JsonSchema,
}

/// The declaration of a function tool.
#[derive(Debug, PartialEq, Eq)]
pub struct ResponsesApiTool {
    pub name: String,
    pub description: String,
    pub strict: bool,
    pub defer_loading: Option<bool>,
    pub parameters: JsonSchema,
    pub output_schema: Option<JsonSchema>,
}

/// The declaration of a tool.
#[derive(Debug, PartialEq, Eq)]
pub enum ToolSpec {
    Function(ResponsesApiTool),
}

/// The property is a string called `name`, described by `description`.
pub open spec fn is_text_property(
    property: Property,
    name: Seq<char>,
    description: Seq<char>,
) -> bool {
    &&& property.name@ == name
    &&& property.schema matches JsonSchema::Text { description: Some(text) }
    &&& text@ == description
}

/// The schema accepts an object with the two string properties `command` and
/// `description`, both required, and no others.
pub open spec fn is_monitor_schema(schema: JsonSchema) -> bool {
    &&& schema matches JsonSchema::Object { properties, required, additional_properties }
    &&& properties@.len() == 2
    &&& is_text_property(properties@[0], "command"@, COMMAND_DESCRIPTION@)
    &&& is_text_property(properties@[1], "description"@, DESCRIPTION_DESCRIPTION@)
    &&& required.deep_view() == Some(seq!["command"@, "description"@])
    &&& additional_properties == Some(false)
}

/// The declaration of the `monitor` tool.
pub open spec fn is_monitor_tool(tool: ToolSpec) -> bool {
    &&& tool matches ToolSpec::Function(function)
    &&& function.name@ == MONITOR_TOOL_NAME@
    &&& function.description@ == MONITOR_TOOL_DESCRIPTION@
    &&& !function.strict
    &&& function.defer_loading == None::<bool>
    &&& is_monitor_schema(function.parameters)
    &&& function.output_schema == None::<JsonSchema>
}

/// Declares the `monitor` tool.
pub fn create_monitor_tool() -> (res: ToolSpec)
    ensures
        is_monitor_tool(res),
{
    let mut properties: Vec<Property> = Vec::new();
    properties.push(
        Property {
            name: "command".to_owned(),
            schema: JsonSchema::Text { description: Some(COMMAND_DESCRIPTION.to_owned()) },
        },
    );
    properties.push(
        Property {
            name: "description".to_owned(),
            schema: JsonSchema::Text { description: Some(DESCRIPTION_DESCRIPTION.to_owned()) },
        },
    );
    let mut required: Vec<String> = Vec::new();
    required.push("command".to_owned());
    required.push("description".to_owned());
    assert(required.deep_view() == seq!["command"@, "description"@]);
    ToolSpec::Function(
        ResponsesApiTool {
            name: MONITOR_TOOL_NAME.to_owned(),
            description: MONITOR_TOOL_DESCRIPTION.to_owned(),
            strict: false,
            defer_loading: None,
            parameters: JsonSchema::Object {
                properties,
                required: Some(required),
                additional_properties: Some(false),
            },
            output_schema: None,
        },
    )
}

/// Every declared argument is required, every required argument is declared,
/// and no argument is declared twice.
pub proof fn monitor_arguments_are_all_required(schema: JsonSchema)
    requires
        is_monitor_schema(schema),
    ensures
        schema matches JsonSchema::Object { properties, required, .. } && required matches Some(
            names,
        ) && {
            &&& names@.len() == properties@.len()
            &&& forall|i: int|
                0 <= i < properties@.len() ==> (#[trigger] properties@[i]).name@ == names@[i]@
            &&& forall|i: int, j: int|
                0 <= i < j < properties@.len() ==> (#[trigger] properties@[i]).name@ != (
                #[trigger] properties@[j]).name@
        },
{
    reveal_strlit("command");
    reveal_strlit("description");
    assert("command"@.len() != "description"@.len());
    if let JsonSchema::Object { properties, required, .. } = schema {
        let names = required->Some_0;
        assert(required.deep_view() == Some(names.deep_view()));
        assert(names.deep_view() == seq!["command"@, "description"@]);
        assert(names.deep_view().len() == names@.len());
        assert(names.deep_view()[0] == names@[0]@);
        assert(names.deep_view()[1] == names@[1]@);
        assert(properties@[0].name@ != properties@[1].name@);
    }
}

} // verus!
