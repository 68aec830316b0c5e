use rig_pipeline::completion::CompletionError;
use rig_pipeline::message::{AssistantContent, Text, ToolCall, ToolFunction};
use rig_pipeline::pipeline::agent_ops::{ChunkAction, StreamItem, StreamedText};

fn text(s: &str) -> StreamItem {
    Ok(AssistantContent::Text(Text { text: s.to_string() }))
}

fn tool_call(name: &str) -> StreamItem {
    Ok(AssistantContent::ToolCall(ToolCall {
        id: "call-1".to_string(),
        function: ToolFunction { name: name.to_string(), arguments: "{}".to_string() },
    }))
}

/// Runs a whole stream through the reactions, as a caller of the library would:
/// what was sent, whether the sender was closed, and what the call returns.
fn run(items: Vec<StreamItem>) -> (Vec<String>, bool, Result<String, CompletionError>) {
    let mut collected = StreamedText::new();
    let mut sent = Vec::new();
    let mut events = items.into_iter().map(Some).chain(std::iter::once(None));
    loop {
        match collected.react(events.next().unwrap()) {
            ChunkAction::Send(chunk) => sent.push(chunk),
            ChunkAction::Skip => {}
            ChunkAction::Fail(e) => return (sent, false, Err(e)),
            ChunkAction::Finish(text) => return (sent, true, Ok(text)),
        }
    }
}

#[test]
fn text_chunks_are_sent_and_joined() {
    let (sent, closed, result) = run(vec![text("Hello"), text(", "), text("world")]);
    assert_eq!(sent, vec!["Hello".to_string(), ", ".to_string(), "world".to_string()]);
    assert!(closed);
    assert!(matches!(result, Ok(ref t) if t == "Hello, world"));
}

#[test]
fn tool_calls_are_skipped() {
    let (sent, closed, result) = run(vec![text("a"), tool_call("search"), text("b")]);
    assert_eq!(sent, vec!["a".to_string(), "b".to_string()]);
    assert!(closed);
    assert!(matches!(result, Ok(ref t) if t == "ab"));
}

#[test]
fn empty_stream_returns_empty_text() {
    let (sent, closed, result) = run(vec![]);
    assert!(sent.is_empty());
    assert!(closed);
    assert!(matches!(result, Ok(ref t) if t.is_empty()));
}

#[test]
fn error_stops_the_stream_without_closing() {
    let (sent, closed, result) = run(vec![
        text("partial"),
        Err(CompletionError::ProviderError("overloaded".to_string())),
        text("never"),
    ]);
    assert_eq!(sent, vec!["partial".to_string()]);
    assert!(!closed);
    assert!(matches!(result, Err(CompletionError::ProviderError(ref m)) if m == "overloaded"));
}

#[test]
fn react_on_end_returns_collected_text() {
    let mut collected = StreamedText::new();
    assert!(matches!(collected.react(Some(text("x"))), ChunkAction::Send(ref s) if s == "x"));
    assert!(matches!(collected.react(Some(tool_call("f"))), ChunkAction::Skip));
    assert!(matches!(collected.react(None), ChunkAction::Finish(ref s) if s == "x"));
}

/// Runs a stream with a sender whose calls fail as `fails` says, in turn; the loop
/// goes on after a failed send, as a streamed prompt does.
fn run_with_failing_sender(
    items: Vec<StreamItem>,
    fails: &dyn Fn(usize) -> bool,
) -> (Vec<String>, bool, Result<String, CompletionError>) {
    let mut collected = StreamedText::new();
    let mut calls = Vec::new();
    let mut events = items.into_iter().map(Some).chain(std::iter::once(None));
    loop {
        match collected.react(events.next().unwrap()) {
            ChunkAction::Send(chunk) => {
                let _failed = fails(calls.len());
                calls.push(chunk);
            }
            ChunkAction::Skip => {}
            ChunkAction::Fail(e) => return (calls, false, Err(e)),
            ChunkAction::Finish(text) => return (calls, true, Ok(text)),
        }
    }
}

#[test]
fn sender_failures_change_nothing() {
    let items = || vec![text("one "), tool_call("f"), text("two "), text("three")];
    let (calls_a, closed_a, result_a) = run_with_failing_sender(items(), &|_| false);
    let (calls_b, closed_b, result_b) = run_with_failing_sender(items(), &|i| i % 2 == 0);
    assert_eq!(calls_a, calls_b);
    assert_eq!(closed_a, closed_b);
    assert!(matches!((&result_a, &result_b), (Ok(a), Ok(b)) if a == b && a == "one two three"));
}

#[test]
fn stream_that_cannot_start_fails_at_once() {
    let started: Result<u8, CompletionError> = Err(CompletionError::HttpError("refused".to_string()));
    assert!(matches!(StreamedText::start(started), Err(CompletionError::HttpError(ref m)) if m == "refused"));
    let started: Result<u8, CompletionError> = Ok(9);
    match StreamedText::start(started) {
        Ok((mut collected, stream)) => {
            assert_eq!(stream, 9);
            assert!(matches!(collected.react(None), ChunkAction::Finish(ref s) if s.is_empty()));
        }
        Err(_) => panic!("the stream started"),
    }
}
