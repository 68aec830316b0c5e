# rig_pipeline

Pipelines of operations around language-model agents: map a value, prompt an
agent, look documents up in a vector store, extract structured data, or stream a
model's answer while collecting it.

- `src/` is the verified library (Verus): the operations and the builder that
  makes them, the streaming stages and the adapter that turns a prompt into a
  completion request, and the decisions taken on each item of a streamed answer
  (`pipeline::agent_ops::StreamedText::react`), with the proved laws of that
  stream: what is sent, what is returned, and when the sender is closed.
- `app/` is the asynchronous side: the `Op` and `StreamingOp` traits, the traits
  that models, stores, extractors and senders implement, and the loops that await
  them and hand each item to the library.
- `tests/` runs the library on concrete values.
