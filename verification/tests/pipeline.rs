use rig_pipeline::completion::{CompletionError, PromptError};
use rig_pipeline::message::{AssistantContent, Message, Text, ToolCall, ToolFunction};
use rig_pipeline::pipeline::agent_ops::{self, Lookup, Prompt};
use rig_pipeline::pipeline::op::{self, passthrough, Passthrough};
use rig_pipeline::pipeline::{
    self, model_streaming, streaming, streaming_map, streaming_pipeline, ChainError, MappedItem,
    StreamingMapStage, StreamingPipelineStage,
};
use rig_pipeline::vector_store::VectorStoreError;

fn content(s: &str) -> AssistantContent {
    AssistantContent::Text(Text { text: s.to_string() })
}

fn text_of(c: AssistantContent) -> String {
    match c {
        AssistantContent::Text(t) => t.text,
        AssistantContent::ToolCall(call) => format!("Tool call: {}", call.function.name),
    }
}

#[test]
fn map_adds_and_formats() {
    let add = pipeline::new().map(|(x, y): (i32, i32)| x + y);
    assert_eq!(add.call((1, 2)), 3);
    let format = pipeline::new().map(|z: i32| format!("Result: {z}!"));
    assert_eq!(format.call(add.call((1, 2))), "Result: 3!");
}

#[test]
fn standalone_map_and_passthrough() {
    let inc = op::map(|x: i32| x + 1);
    assert_eq!(inc.call(1), 2);
    let same: Passthrough<&str> = passthrough();
    assert_eq!(same.call("What is a flurbo?"), "What is a flurbo?");
}

#[test]
fn chain_returns_the_op() {
    let op = op::map(|x: i32| x - 1);
    let chained = pipeline::with_error::<()>().chain(op);
    assert_eq!(chained.call(1), 0);
}

#[test]
fn lookup_keeps_index_and_n() {
    let op: Lookup<&str, String, String> = pipeline::new().lookup("index", 2);
    assert_eq!(*op.index(), "index");
    assert_eq!(op.n(), 2);
    let op: Lookup<u8, String, String> = agent_ops::lookup(7u8, 1);
    assert_eq!(*op.index(), 7u8);
    assert_eq!(op.n(), 1);
}

#[test]
fn prompt_keeps_agent() {
    let op: Prompt<&str, String> = pipeline::new().prompt("agent");
    assert_eq!(*op.agent(), "agent");
    let op: Prompt<&str, String> = agent_ops::prompt("model");
    assert_eq!(*op.agent(), "model");
}

#[test]
fn extract_keeps_extractor() {
    let op: agent_ops::Extract<&str, String, u32> = pipeline::new().extract("extractor");
    assert_eq!(*op.extractor(), "extractor");
}

#[test]
fn streaming_prompt_with_sender_keeps_agent_and_sender() {
    let op: agent_ops::StreamingPromptWithSender<&str, String, u8> =
        pipeline::new().streaming_prompt_with_sender("agent", 3u8);
    assert_eq!(*op.agent(), "agent");
    assert_eq!(*op.sender(), 3u8);
    let op: agent_ops::StreamingPromptWithSender<&str, String, u8> =
        pipeline::streaming_prompt_with_sender("model", 4u8);
    assert_eq!(*op.agent(), "model");
    assert_eq!(*op.sender(), 4u8);
}

#[test]
fn streaming_ops() {
    let through = streaming::<i32>();
    assert_eq!(through.call(5), 5);
    let double = streaming_map(|x: i32| x * 2);
    assert_eq!(double.call(5), 10);
    let op: agent_ops::StreamingPrompt<&str, String> = pipeline::streaming_prompt("model");
    assert_eq!(*op.agent(), "model");
}

#[test]
fn stream_stage_maps_each_content() {
    let stage: StreamingPipelineStage<&str, ()> = streaming_pipeline("model");
    assert_eq!(*stage.prompt(), "model");
    let texts = stage.map(text_of);
    assert_eq!(texts.map_content(content("Rust")), "Rust");
    let tool = AssistantContent::ToolCall(ToolCall {
        id: "1".to_string(),
        function: ToolFunction { name: "weather".to_string(), arguments: "{}".to_string() },
    });
    assert_eq!(texts.map_content(tool), "Tool call: weather");
}

#[test]
fn nested_stream_stages_compose() {
    let stage: StreamingPipelineStage<&str, ()> = pipeline::new().streaming_prompt("model");
    let lengths = stage.map(text_of).map(|s: String| s.len());
    assert_eq!(lengths.map_content(content("four")), 4);
    let built = StreamingMapStage::new(StreamingMapStage::new(stage_of("m"), text_of), |s: String| s + "!");
    assert_eq!(built.map_content(content("hi")), "hi!");
}

fn stage_of(p: &'static str) -> StreamingPipelineStage<&'static str, ()> {
    StreamingPipelineStage::new(p)
}

#[test]
fn adapter_builds_a_single_prompt_request() {
    let adapter = model_streaming("model");
    assert_eq!(*adapter.model(), "model");
    let request = adapter.completion_request(Message::user("What is Rust?".to_string()));
    assert_eq!(request.chat_history.len(), 1);
    assert!(matches!(&request.chat_history[0], Message::User { content } if content == "What is Rust?"));
    assert!(request.preamble.is_none());
    assert!(request.documents.is_empty());
    assert!(request.tools.is_empty());
    assert!(request.temperature.is_none());
    assert!(request.max_tokens.is_none());
    assert!(request.additional_params.is_none());
}

#[test]
fn chain_error_from_each_cause() {
    let e: ChainError = PromptError::ToolError("boom".to_string()).into();
    assert!(matches!(e, ChainError::PromptError(PromptError::ToolError(ref m)) if m == "boom"));
    let e: ChainError =
        PromptError::CompletionError(CompletionError::ResponseError("bad".to_string())).into();
    assert!(matches!(e, ChainError::PromptError(PromptError::CompletionError(_))));
    let e: ChainError = VectorStoreError::DatastoreError("down".to_string()).into();
    assert!(matches!(e, ChainError::LookupError(VectorStoreError::DatastoreError(ref m)) if m == "down"));
}

#[test]
fn user_message_holds_text() {
    assert!(matches!(Message::user("hello".to_string()), Message::User { content } if content == "hello"));
}

fn items() -> Vec<rig_pipeline::pipeline::agent_ops::StreamItem> {
    vec![
        Ok(content("alpha")),
        Ok(content("be")),
        Err(CompletionError::ResponseError("cut".to_string())),
        Ok(content("never")),
    ]
}

/// What a stage's `map_item` yields for `items`, up to the first item that stops it.
fn streamed<O>(map_item: impl Fn(rig_pipeline::pipeline::agent_ops::StreamItem) -> MappedItem<O>) -> Vec<O> {
    let mut out = Vec::new();
    for item in items() {
        match map_item(item) {
            MappedItem::Item(o) => out.push(o),
            MappedItem::Abort(_) => break,
        }
    }
    out
}

#[test]
fn map_item_maps_content_and_stops_on_error() {
    let stage = stage_of("m").map(text_of);
    assert!(matches!(stage.map_item(Ok(content("x"))), MappedItem::Item(ref s) if s == "x"));
    assert!(matches!(
        stage.map_item(Err(CompletionError::HttpError("down".to_string()))),
        MappedItem::Abort(CompletionError::HttpError(ref m)) if m == "down"
    ));
    assert_eq!(streamed(|i| stage.map_item(i)), vec!["alpha".to_string(), "be".to_string()]);
}

#[test]
fn mapping_twice_is_mapping_the_composition() {
    let twice = stage_of("m").map(text_of).map(|s: String| s.len());
    let once = stage_of("m").map(|c: AssistantContent| text_of(c).len());
    assert_eq!(streamed(|i| twice.map_item(i)), streamed(|i| once.map_item(i)));
    assert_eq!(streamed(|i| twice.map_item(i)), vec![5, 2]);
}

#[test]
fn mapping_again_maps_each_streamed_item() {
    let inner = stage_of("m").map(text_of);
    let inner_out = streamed(|i| inner.map_item(i));
    let outer = stage_of("m").map(text_of).map(|s: String| s.to_uppercase());
    let expected: Vec<String> = inner_out.iter().map(|s| s.to_uppercase()).collect();
    assert_eq!(streamed(|i| outer.map_item(i)), expected);
}

#[test]
fn new_stage_streams_as_map_does() {
    let built = StreamingMapStage::new(stage_of("m"), text_of);
    let mapped = stage_of("m").map(text_of);
    assert_eq!(streamed(|i| built.map_item(i)), streamed(|i| mapped.map_item(i)));
}

#[test]
fn string_is_a_user_message() {
    let m: Message = "hi".to_string().into();
    assert!(matches!(m, Message::User { content } if content == "hi"));
}

#[test]
fn stream_that_cannot_start_maps_nothing() {
    let started: Result<u8, CompletionError> = Err(CompletionError::ProviderError("x".to_string()));
    assert!(pipeline::stream_to_map(started).is_none());
    assert_eq!(pipeline::stream_to_map(Ok::<u8, CompletionError>(3)), Some(3));
}

#[test]
fn query_is_formatted_as_in_the_prompt_pipeline() {
    let query = pipeline::new().map(|input: &str| format!("User query: {}", input));
    assert_eq!(query.call("What is a flurbo?"), "User query: What is a flurbo?");
}

#[test]
fn documents_are_formatted_as_in_the_lookup_pipeline() {
    let docs = pipeline::new().map(|foo: &str| format!("Top documents:\n{}", foo));
    assert_eq!(docs.call("bar"), "Top documents:\nbar");
}

#[test]
fn rag_prompt_is_built_from_query_and_documents() {
    let query = op::passthrough::<&str>().call("What is a flurbo?");
    let rag = pipeline::new().map(|(query, foo): (&str, &str)| {
        format!("User query: {}\n\nTop documents:\n{}", query, foo)
    });
    assert_eq!(
        rag.call((query, "bar")),
        "User query: What is a flurbo?\n\nTop documents:\nbar"
    );
}
