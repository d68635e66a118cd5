use monitor_tool::delivery::{deliver_batch, format_tag};
use monitor_tool::handler::{
    FunctionCallError, MonitorArgs, MonitorHandler, StartedMonitor, ToolPayload,
};
use monitor_tool::ids::{format_sub_id, MonitorSeq};
use monitor_tool::protocol::{
    AgentPath, Event, EventMsg, InterAgentCommunication, MonitorEventEvent, SessionStep,
};
use monitor_tool::text::{is_blank, is_white_space, join_lines, to_decimal};
use monitor_tool::tool::{
    create_monitor_tool, JsonSchema, ToolSpec, COMMAND_DESCRIPTION, DESCRIPTION_DESCRIPTION,
    MONITOR_TOOL_DESCRIPTION, MONITOR_TOOL_NAME,
};
use monitor_tool::watch::{
    SpawnRequest, Watch, WatchAction, WatchEvent, FLUSH_DEBOUNCE_MILLIS, MAX_BATCH_LINES,
};

fn strings(items: &[&str]) -> Vec<String> {
    items.iter().map(|item| item.to_string()).collect()
}

fn line(text: &str) -> WatchEvent {
    WatchEvent::Read(Ok(Some(text.to_string())))
}

fn reading() -> Watch {
    let mut watch = Watch::new("cmd".to_string(), "desc".to_string());
    assert!(watch.advance(WatchEvent::Spawned(Ok(true))).is_empty());
    watch
}

fn start(seq: &mut MonitorSeq, command: &str, description: &str) -> StartedMonitor {
    let args = MonitorArgs {
        command: command.to_string(),
        description: description.to_string(),
    };
    match MonitorHandler.handle(Ok(args), seq) {
        Ok(started) => started,
        Err(error) => panic!("refused: {:?}", error),
    }
}

fn numbered_lines(range: std::ops::Range<usize>) -> Vec<String> {
    range.map(|i| format!("line {}", i)).collect()
}

#[test]
fn monitor_spec_is_function_with_required_args() {
    #[allow(irrefutable_let_patterns)]
    let ToolSpec::Function(tool) = MonitorHandler.spec() else {
        panic!("expected a function tool spec");
    };
    assert_eq!(tool.name, MONITOR_TOOL_NAME);
    let JsonSchema::Object { required, .. } = tool.parameters else {
        panic!("expected an object schema");
    };
    let required = required.expect("required array present");
    assert!(required.iter().any(|v| v == "command"));
    assert!(required.iter().any(|v| v == "description"));
}

#[test]
fn tool_declaration_is_complete() {
    let ToolSpec::Function(tool) = create_monitor_tool();
    assert_eq!(tool.name, "monitor");
    assert_eq!(MonitorHandler.tool_name().name, "monitor");
    assert_eq!(tool.description, MONITOR_TOOL_DESCRIPTION);
    assert_eq!(
        tool.description,
        "Start a background monitor that streams events from a long-running command. stdout lines arrive as background notices (you do not poll), batched per burst. IMPORTANT: these are background signals — do NOT narrate or acknowledge each notice; stay silent unless an event actually requires you to act, then act. Use for tailing logs, watching files, or polling loops. Returns immediately; the watch runs across turns until the command exits."
    );
    assert!(!tool.strict);
    assert_eq!(tool.defer_loading, None);
    assert_eq!(tool.output_schema, None);
    let JsonSchema::Object {
        properties,
        required,
        additional_properties,
    } = tool.parameters
    else {
        panic!("expected an object schema");
    };
    assert_eq!(additional_properties, Some(false));
    assert_eq!(required, Some(strings(&["command", "description"])));
    assert_eq!(properties.len(), 2);
    assert_eq!(properties[0].name, "command");
    assert_eq!(
        properties[0].schema,
        JsonSchema::Text {
            description: Some(COMMAND_DESCRIPTION.to_string())
        }
    );
    assert_eq!(
        COMMAND_DESCRIPTION,
        "Shell command or script to run in the background. stdout lines are batched into background notices delivered to you as they arrive. Exit ends the watch. Make the filter selective (e.g. `tail -f log | grep --line-buffered ERROR`)."
    );
    assert_eq!(properties[1].name, "description");
    assert_eq!(
        properties[1].schema,
        JsonSchema::Text {
            description: Some(DESCRIPTION_DESCRIPTION.to_string())
        }
    );
    assert_eq!(
        DESCRIPTION_DESCRIPTION,
        "Short description of what is being monitored (shown with each event)."
    );
}

#[test]
fn white_space_is_what_trimming_removes() {
    for c in '\0'..=char::MAX {
        let text = c.to_string();
        assert_eq!(is_white_space(c), c.is_whitespace(), "{:?}", c);
        assert_eq!(is_blank(&text), text.trim().is_empty(), "{:?}", c);
    }
}

#[test]
fn blank_lines_are_told_from_others() {
    assert!(is_blank(""));
    assert!(is_blank(" \t\u{3000}\r"));
    assert!(!is_blank("  x  "));
    assert!(!is_blank("x"));
    assert!(!is_blank(" \u{200B} "));
}

#[test]
fn numerals_are_decimal() {
    for n in [0, 7, 9, 10, 11, 99, 100, 101, 1234567890, u64::MAX - 1, u64::MAX] {
        assert_eq!(to_decimal(n), n.to_string());
    }
}

#[test]
fn lines_are_joined_by_newlines() {
    assert_eq!(join_lines(&Vec::new()), "");
    assert_eq!(join_lines(&strings(&["a"])), "a");
    assert_eq!(join_lines(&strings(&["a", "", "c d"])), "a\n\nc d");
}

#[test]
fn joined_text_splits_into_its_lines() {
    let lines = strings(&["one", "", "three é", "four"]);
    let text = join_lines(&lines);
    assert_eq!(text.split('\n').collect::<Vec<_>>(), lines);
}

#[test]
fn numbers_are_consecutive_and_distinct() {
    let mut seq = MonitorSeq::new();
    let names: Vec<String> = (0..120).map(|_| format_sub_id(seq.draw())).collect();
    assert_eq!(names[0], "monitor-0");
    assert_eq!(names[10], "monitor-10");
    assert_eq!(names[119], "monitor-119");
    for i in 0..names.len() {
        for j in 0..i {
            assert_ne!(names[i], names[j]);
        }
    }
}

#[test]
fn empty_batch_is_not_delivered() {
    let mut seq = MonitorSeq::new();
    assert_eq!(deliver_batch(&mut seq, "d", Vec::new()), Vec::new());
    assert_eq!(seq.draw(), 0);
}

#[test]
fn batch_is_one_notice_one_message_and_one_wake() {
    let mut seq = MonitorSeq::new();
    seq.draw();
    let steps = deliver_batch(&mut seq, "build log", strings(&["error: x", "error: y"]));
    assert_eq!(
        steps,
        vec![
            SessionStep::SendEvent(Event {
                id: "monitor-1".to_string(),
                msg: EventMsg::MonitorEvent(MonitorEventEvent {
                    description: "build log".to_string(),
                    line: "error: x\nerror: y".to_string(),
                }),
            }),
            SessionStep::EnqueueMail(InterAgentCommunication {
                id: None,
                author: AgentPath::morpheus(),
                recipient: AgentPath::root(),
                other_recipients: Vec::new(),
                content: "[monitor: build log] background event(s):\nerror: x\nerror: y".to_string(),
                encrypted_content: None,
                internal_chat_message_metadata_passthrough: None,
                trigger_turn: true,
            }),
            SessionStep::StartTurn {
                sub_id: "monitor-1".to_string(),
            },
        ]
    );
    assert_ne!(AgentPath::morpheus(), AgentPath::root());
    assert_eq!(seq.draw(), 2);
}

#[test]
fn unsupported_payload_is_refused() {
    assert_eq!(
        MonitorHandler.function_arguments(ToolPayload::Unsupported),
        Err(FunctionCallError::RespondToModel(
            "monitor handler received unsupported payload".to_string()
        ))
    );
    assert_eq!(
        MonitorHandler.function_arguments(ToolPayload::Function {
            arguments: "{}".to_string()
        }),
        Ok("{}".to_string())
    );
}

#[test]
fn refused_arguments_take_no_number() {
    let mut seq = MonitorSeq::new();
    let refused = MonitorHandler.handle(
        Err(FunctionCallError::RespondToModel("missing field".to_string())),
        &mut seq,
    );
    assert_eq!(
        refused.err(),
        Some(FunctionCallError::RespondToModel("missing field".to_string()))
    );
    assert_eq!(seq.draw(), 0);
}

#[test]
fn accepted_call_is_answered_at_once() {
    let mut seq = MonitorSeq::new();
    start(&mut seq, "true", "first");
    let started = start(&mut seq, "tail -f log", "errors");
    assert_eq!(started.monitor_id, 1);
    assert_eq!(
        started.output.text,
        "Started background monitor #1: errors. Output will arrive as quiet `[monitor: errors]` notices (batched); handle them silently unless one needs action. A final notice is delivered when it exits."
    );
    assert_eq!(started.output.success, Some(true));
    assert_eq!(
        started.watch.action(),
        WatchAction::Spawn(SpawnRequest {
            program: "bash".to_string(),
            args: strings(&["-lc", "tail -f log"]),
            pipe_stdout: true,
            pipe_stderr: true,
            kill_on_drop: true,
        })
    );
}

#[test]
fn answer_quotes_the_tag_of_the_notices() {
    let mut seq = MonitorSeq::new();
    let started = start(&mut seq, "c", "a b");
    let tag = format_tag("a b");
    assert_eq!(tag, "[monitor: a b]");
    assert!(started.output.text.contains(&tag));
    let steps = deliver_batch(&mut seq, "a b", strings(&["x"]));
    let SessionStep::EnqueueMail(mail) = &steps[1] else {
        panic!("expected a message");
    };
    assert!(mail.content.starts_with(&tag));
}

#[test]
fn monitor_and_its_notices_have_numbers_of_their_own() {
    let mut seq = MonitorSeq::new();
    let mut first = start(&mut seq, "c", "one").watch;
    let mut second = start(&mut seq, "c", "two").watch;
    let mut ids = Vec::new();
    for watch in [&mut first, &mut second] {
        let mut steps = watch.observe(&mut seq, WatchEvent::Spawned(Ok(true)));
        assert!(steps.is_empty());
        steps.extend(watch.observe(&mut seq, line("x")));
        steps.extend(watch.observe(&mut seq, WatchEvent::Quiet));
        steps.extend(watch.observe(&mut seq, WatchEvent::Read(Ok(None))));
        steps.extend(watch.observe(&mut seq, WatchEvent::Waited(Ok("exit status: 0".to_string()))));
        assert_eq!(steps.len(), 6);
        for step in steps {
            if let SessionStep::StartTurn { sub_id } = step {
                ids.push(sub_id);
            }
        }
    }
    assert_eq!(
        ids,
        strings(&["monitor-2", "monitor-3", "monitor-4", "monitor-5"])
    );
}

#[test]
fn nothing_is_delivered_before_the_start() {
    let mut seq = MonitorSeq::new();
    let mut watch = start(&mut seq, "cmd", "desc").watch;
    for event in [
        line("early"),
        WatchEvent::Read(Ok(None)),
        WatchEvent::Quiet,
        WatchEvent::Waited(Ok("exit status: 0".to_string())),
    ] {
        assert_eq!(watch.observe(&mut seq, event), Vec::new());
        assert!(matches!(watch.action(), WatchAction::Spawn(_)));
    }
    assert_eq!(seq.draw(), 1);
    let steps = watch.observe(&mut seq, WatchEvent::Spawned(Err("denied".to_string())));
    assert_eq!(steps.len(), 3);
}

#[test]
fn failed_start_is_the_only_notice() {
    let mut watch = Watch::new("cmd".to_string(), "desc".to_string());
    assert_eq!(
        watch.advance(WatchEvent::Spawned(Err("No such file".to_string()))),
        strings(&["failed to start: No such file"])
    );
    assert_eq!(watch.action(), WatchAction::Stop);
    assert!(watch
        .advance(WatchEvent::Waited(Ok("exit status: 0".to_string())))
        .is_empty());
    assert_eq!(watch.action(), WatchAction::Stop);
}

#[test]
fn command_without_output_is_only_awaited() {
    let mut watch = Watch::new("cmd".to_string(), "desc".to_string());
    assert!(watch.advance(WatchEvent::Spawned(Ok(false))).is_empty());
    assert_eq!(watch.action(), WatchAction::Wait);
    assert_eq!(
        watch.advance(WatchEvent::Waited(Ok("exit status: 3".to_string()))),
        strings(&["monitor exited (exit status: 3)"])
    );
    assert_eq!(watch.action(), WatchAction::Stop);
}

#[test]
fn failed_wait_is_reported() {
    let mut watch = Watch::new("cmd".to_string(), "desc".to_string());
    watch.advance(WatchEvent::Spawned(Ok(false)));
    assert_eq!(
        watch.advance(WatchEvent::Waited(Err("no child".to_string()))),
        strings(&["monitor wait error: no child"])
    );
}

#[test]
fn quiet_period_runs_only_while_lines_are_pending() {
    let mut watch = reading();
    let idle = WatchAction::ReadLine {
        flush_after_millis: None,
    };
    let armed = WatchAction::ReadLine {
        flush_after_millis: Some(FLUSH_DEBOUNCE_MILLIS),
    };
    assert_eq!(FLUSH_DEBOUNCE_MILLIS, 800);
    assert_eq!(watch.action(), idle);
    assert!(watch.advance(line("   ")).is_empty());
    assert_eq!(watch.action(), idle);
    assert!(watch.advance(line("a")).is_empty());
    assert_eq!(watch.action(), armed);
    assert_eq!(watch.advance(WatchEvent::Quiet), strings(&["a"]));
    assert_eq!(watch.action(), idle);
}

#[test]
fn burst_is_one_batch_without_its_blank_lines() {
    let mut watch = reading();
    for text in ["a", "", " b ", "\t", "c"] {
        assert!(watch.advance(line(text)).is_empty());
    }
    assert_eq!(
        watch.advance(WatchEvent::Quiet),
        strings(&["a", " b ", "c"])
    );
    assert!(watch.advance(WatchEvent::Quiet).is_empty());
}

#[test]
fn burst_of_exactly_the_cap_is_one_batch() {
    let mut watch = reading();
    let mut batches = Vec::new();
    for text in numbered_lines(0..MAX_BATCH_LINES) {
        batches.push(watch.advance(line(&text)));
    }
    batches.push(watch.advance(WatchEvent::Quiet));
    batches.retain(|batch| !batch.is_empty());
    assert_eq!(batches, vec![numbered_lines(0..50)]);
}

#[test]
fn interleaved_monitors_share_no_name() {
    let mut seq = MonitorSeq::new();
    let first = start(&mut seq, "c", "one");
    let mut watch_one = first.watch;
    let mut steps = watch_one.observe(&mut seq, WatchEvent::Spawned(Ok(true)));
    steps.extend(watch_one.observe(&mut seq, line("x")));
    steps.extend(watch_one.observe(&mut seq, WatchEvent::Quiet));
    let second = start(&mut seq, "c", "two");
    let mut watch_two = second.watch;
    steps.extend(watch_two.observe(&mut seq, WatchEvent::Spawned(Err("no".to_string()))));
    steps.extend(watch_one.observe(&mut seq, line("y")));
    steps.extend(watch_one.observe(&mut seq, WatchEvent::Read(Ok(None))));
    let events: Vec<String> = steps
        .iter()
        .filter_map(|step| match step {
            SessionStep::SendEvent(event) => Some(event.id.clone()),
            _ => None,
        })
        .collect();
    assert_eq!((first.monitor_id, second.monitor_id), (0, 2));
    assert_eq!(events, strings(&["monitor-1", "monitor-3", "monitor-4"]));
}

#[test]
fn firehose_is_cut_at_the_cap() {
    let mut watch = reading();
    assert_eq!(MAX_BATCH_LINES, 50);
    let mut batches = Vec::new();
    for text in numbered_lines(0..120) {
        let batch = watch.advance(line(&text));
        if !batch.is_empty() {
            batches.push(batch);
        }
    }
    assert_eq!(
        batches,
        vec![numbered_lines(0..50), numbered_lines(50..100)]
    );
    assert_eq!(
        watch.advance(WatchEvent::Read(Ok(None))),
        numbered_lines(100..120)
    );
}

#[test]
fn end_of_output_flushes_and_awaits_the_exit() {
    let mut watch = reading();
    watch.advance(line("last words"));
    assert_eq!(
        watch.advance(WatchEvent::Read(Ok(None))),
        strings(&["last words"])
    );
    assert_eq!(watch.action(), WatchAction::Wait);
}

#[test]
fn read_error_ends_the_output() {
    let mut watch = reading();
    watch.advance(line("before"));
    assert_eq!(
        watch.advance(WatchEvent::Read(Err("invalid utf-8".to_string()))),
        strings(&["before"])
    );
    assert_eq!(watch.action(), WatchAction::Wait);

    let mut silent = reading();
    assert!(silent
        .advance(WatchEvent::Read(Err("invalid utf-8".to_string())))
        .is_empty());
    assert_eq!(silent.action(), WatchAction::Wait);
}

#[test]
fn full_life_delivers_every_line_and_one_last_notice() {
    let mut watch = reading();
    let mut delivered = Vec::new();
    for i in 0..130 {
        delivered.extend(watch.advance(line(&format!("line {}", i))));
        delivered.extend(watch.advance(line(" ")));
        if i % 17 == 0 {
            delivered.extend(watch.advance(WatchEvent::Quiet));
        }
    }
    delivered.extend(watch.advance(WatchEvent::Read(Ok(None))));
    assert_eq!(delivered, numbered_lines(0..130));
    assert_eq!(
        watch.advance(WatchEvent::Waited(Ok("signal: 9 (SIGKILL)".to_string()))),
        strings(&["monitor exited (signal: 9 (SIGKILL))"])
    );
    for event in [line("late"), WatchEvent::Quiet, WatchEvent::Spawned(Ok(true))] {
        assert!(watch.advance(event).is_empty());
        assert_eq!(watch.action(), WatchAction::Stop);
    }
}

#[test]
fn unawaited_events_change_nothing() {
    let mut watch = Watch::new("cmd".to_string(), "desc".to_string());
    assert!(watch.advance(line("early")).is_empty());
    assert!(watch.advance(WatchEvent::Quiet).is_empty());
    assert!(matches!(watch.action(), WatchAction::Spawn(_)));

    let mut busy = reading();
    busy.advance(line("kept"));
    assert!(busy
        .advance(WatchEvent::Waited(Ok("exit status: 0".to_string())))
        .is_empty());
    assert_eq!(busy.advance(WatchEvent::Quiet), strings(&["kept"]));
}
