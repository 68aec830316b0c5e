//! Pipelines: sequences of operations, some of which prompt agents, search vector
//! stores or stream a model's answer, built with a [`PipelineBuilder`].
use vstd::prelude::*;

use std::marker::PhantomData;

use crate::completion::{CompletionError, CompletionRequest, PromptError};
use crate::message::{AssistantContent, Message};
use crate::vector_store::VectorStoreError;

pub mod agent_ops;
pub mod op;

use agent_ops::{Extract, Lookup, Prompt, StreamItem, StreamingPrompt, StreamingPromptWithSender};
use op::{MapOp, StreamingMap, StreamingPassthrough, StreamingThen, Then};

verus! {

/// Builds a pipeline; `E` is the error type of the pipeline.
pub struct PipelineBuilder<E> {
    _error: PhantomData<E>,
}

impl<E> PipelineBuilder<E> {
    /// Adds a function to the current pipeline.
    pub fn map<F, Input, Output>(self, f: F) -> (op: MapOp<F, Input>) where F: Fn(Input) -> Output
        ensures
            op.spec_function() == f,
    {
        MapOp::new(f)
    }

    /// Same as `map` but for asynchronous functions.
    pub fn then<F, Input, Fut>(self, f: F) -> (op: Then<F, Input>) where F: Fn(Input) -> Fut
        ensures
            op.spec_function() == f,
    {
        Then::new(f)
    }

    /// Adds an arbitrary operation to the current pipeline.
    pub fn chain<T>(self, op: T) -> (r: T)
        ensures
            r == op,
    {
        op
    }

    /// Chains a lookup operation: the current pipeline outputs a query, and the lookup
    /// retrieves the top `n` documents of `index` for it.
    pub fn lookup<I, Input, Output>(self, index: I, n: usize) -> (op: Lookup<I, Input, Output>)
        ensures
            op.spec_index() == index,
            op.spec_n() == n,
    {
        Lookup::new(index, n)
    }

    /// Adds a prompt operation: the current pipeline outputs a string, with which
    /// `agent` is prompted.
    pub fn prompt<P, Input>(self, agent: P) -> (op: Prompt<P, Input>)
        ensures
            op.spec_agent() == agent,
    {
        Prompt::new(agent)
    }

    /// Adds an extract operation: the current pipeline outputs a string, from which
    /// `extractor` extracts data of type `Output`.
    pub fn extract<X, Input, Output>(self, extractor: X) -> (op: Extract<X, Input, Output>)
        ensures
            op.spec_extractor() == extractor,
    {
        Extract::new(extractor)
    }

    /// Adds a streaming prompt to the pipeline.
    pub fn streaming_prompt<P, R>(self, prompt: P) -> (stage: StreamingPipelineStage<P, R>)
        ensures
            stage.spec_prompt() == prompt,
    {
        StreamingPipelineStage::new(prompt)
    }

    /// Adds a streaming prompt operation that sends chunks via a generic sender and
    /// returns the final response.
    pub fn streaming_prompt_with_sender<P, Input, S>(self, agent: P, sender: S) -> (op:
        StreamingPromptWithSender<P, Input, S>)
        ensures
            op.spec_agent() == agent,
            op.spec_sender() == sender,
    {
        StreamingPromptWithSender::new(agent, sender)
    }
}

/// The error of a pipeline built with [`new`].
pub enum ChainError {
    /// Prompting an agent failed.
    PromptError(PromptError),
    /// Looking documents up failed.
    LookupError(VectorStoreError),
}

impl From<PromptError> for ChainError {
    fn from(e: PromptError) -> (r: ChainError)
        ensures
            r == ChainError::PromptError(e),
    {
        ChainError::PromptError(e)
    }
}

impl vstd::std_specs::convert::FromSpecImpl<PromptError> for ChainError {
    open spec fn obeys_from_spec() -> bool {
        true
    }

    open spec fn from_spec(e: PromptError) -> ChainError {
        ChainError::PromptError(e)
    }
}

impl From<VectorStoreError> for ChainError {
    fn from(e: VectorStoreError) -> (r: ChainError)
        ensures
            r == ChainError::LookupError(e),
    {
        ChainError::LookupError(e)
    }
}

impl vstd::std_specs::convert::FromSpecImpl<VectorStoreError> for ChainError {
    open spec fn obeys_from_spec() -> bool {
        true
    }

    open spec fn from_spec(e: VectorStoreError) -> ChainError {
        ChainError::LookupError(e)
    }
}

/// A pipeline's error keeps its cause: a failed prompt is reported as a prompt error
/// and a failed lookup as a lookup error, each holding the original error.
pub proof fn lemma_chain_error_keeps_its_cause(p: PromptError, e: VectorStoreError)
    ensures
        <ChainError as vstd::std_specs::convert::FromSpec<PromptError>>::from_spec(p)
            == ChainError::PromptError(p),
        <ChainError as vstd::std_specs::convert::FromSpec<VectorStoreError>>::from_spec(e)
            == ChainError::LookupError(e),
{
}

/// A pipeline builder whose errors are [`ChainError`]s.
pub fn new() -> (builder: PipelineBuilder<ChainError>) {
    PipelineBuilder { _error: PhantomData }
}

/// A pipeline builder whose errors are of type `E`.
pub fn with_error<E>() -> (builder: PipelineBuilder<E>) {
    PipelineBuilder { _error: PhantomData }
}

/// Creates a new streaming pipeline that passes through its input without modification.
pub fn streaming<T>() -> (op: StreamingPassthrough<T>) {
    StreamingPassthrough::new()
}

/// Creates a new streaming pipeline that maps its input using the given function.
pub fn streaming_map<F, Input, Output>(f: F) -> (op: StreamingMap<F, Input>) where
    F: Fn(Input) -> Output,
    ensures
        op.spec_function() == f,
{
    StreamingMap::new(f)
}

/// Creates a new streaming pipeline that maps its input using the given async function.
pub fn streaming_then<F, Input, Fut>(f: F) -> (op: StreamingThen<F, Input>) where
    F: Fn(Input) -> Fut,
    ensures
        op.spec_function() == f,
{
    StreamingThen::new(f)
}

/// Creates a new streaming prompt.
pub fn streaming_prompt<P, Input>(prompt: P) -> (op: StreamingPrompt<P, Input>)
    ensures
        op.spec_agent() == prompt,
{
    StreamingPrompt::new(prompt)
}

/// Creates a new streaming prompt operation that sends chunks via a generic sender and
/// returns the final response.
pub fn streaming_prompt_with_sender<P, Input, S>(model: P, sender: S) -> (op:
    StreamingPromptWithSender<P, Input, S>)
    ensures
        op.spec_agent() == model,
        op.spec_sender() == sender,
{
    agent_ops::streaming_prompt_with_sender(model, sender)
}

/// A stage of a streaming pipeline: a prompt whose answer is streamed.
pub struct StreamingPipelineStage<P, R> {
    prompt: P,
    _r: PhantomData<R>,
}

impl<P, R> StreamingPipelineStage<P, R> {
    /// What is prompted.
    pub closed spec fn spec_prompt(&self) -> P {
        self.prompt
    }

    /// The stage that streams the answers of `prompt`.
    pub fn new(prompt: P) -> (stage: Self)
        ensures
            stage.spec_prompt() == prompt,
    {
        StreamingPipelineStage { prompt, _r: PhantomData }
    }

    /// What is prompted.
    pub fn prompt(&self) -> (r: &P)
        ensures
            *r == self.spec_prompt(),
    {
        &self.prompt
    }

    /// Applies a transformation to each item in the stream.
    pub fn map<F, O>(self, f: F) -> (stage: StreamingMapStage<Self, F, R, O>) where
        F: Fn(AssistantContent) -> O,
        ensures
            stage.spec_source() == self,
            stage.spec_mapper() == f,
    {
        StreamingMapStage { source: self, mapper: f, _r: PhantomData, _o: PhantomData }
    }
}

impl<P: Clone, R> Clone for StreamingPipelineStage<P, R> {
    fn clone(&self) -> (r: Self)
        ensures
            cloned(self.spec_prompt(), r.spec_prompt()),
    {
        StreamingPipelineStage { prompt: self.prompt.clone(), _r: PhantomData }
    }
}

/// A stage of a streaming pipeline that applies `mapper` to each item that `source`
/// streams.
pub struct StreamingMapStage<S, F, R, O> {
    source: S,
    mapper: F,
    _r: PhantomData<R>,
    _o: PhantomData<O>,
}

impl<S, F, R, O> StreamingMapStage<S, F, R, O> {
    /// The stage whose items are mapped.
    pub closed spec fn spec_source(&self) -> S {
        self.source
    }

    /// The function applied to each item.
    pub closed spec fn spec_mapper(&self) -> F {
        self.mapper
    }

    /// The stage that applies `mapper` to each item of `source`.
    pub fn new(source: S, mapper: F) -> (stage: Self)
        ensures
            stage.spec_source() == source,
            stage.spec_mapper() == mapper,
    {
        StreamingMapStage { source, mapper, _r: PhantomData, _o: PhantomData }
    }

    /// The stage whose items are mapped.
    pub fn source(&self) -> (r: &S)
        ensures
            *r == self.spec_source(),
    {
        &self.source
    }

    /// The function applied to each item.
    pub fn mapper(&self) -> (r: &F)
        ensures
            *r == self.spec_mapper(),
    {
        &self.mapper
    }

    /// Applies a further transformation to each item of this stage.
    pub fn map<F2, O2>(self, f2: F2) -> (stage: StreamingMapStage<Self, F2, R, O2>) where
        F2: Fn(O) -> O2,
        ensures
            stage.spec_source() == self,
            stage.spec_mapper() == f2,
    {
        StreamingMapStage { source: self, mapper: f2, _r: PhantomData, _o: PhantomData }
    }
}

/// What a mapping stage streams for one item of the prompt's streamed answer.
pub enum MappedItem<O> {
    /// The mapped content, to be yielded.
    Item(O),
    /// The error that the answer's stream gave in place of an item: the stream stops.
    Abort(CompletionError),
}

/// The contents of the items that come before the first error of `items`.
pub open spec fn contents_before_error(items: Seq<StreamItem>) -> Seq<AssistantContent>
    decreases items.len(),
{
    if items.len() == 0 {
        Seq::empty()
    } else {
        match items[0] {
            Ok(c) => seq![c] + contents_before_error(items.drop_first()),
            Err(_) => Seq::empty(),
        }
    }
}

/// The answer stream that a mapping stage maps, from the outcome of starting it:
/// none when the answer could not start, and the stage then streams nothing.
pub fn stream_to_map<T>(response: Result<T, CompletionError>) -> (r: Option<T>)
    ensures
        match response {
            Ok(stream) => r == Some(stream),
            Err(_) => r is None,
        },
{
    match response {
        Ok(stream) => Some(stream),
        Err(_) => None,
    }
}

impl<P, F, R, O> StreamingMapStage<StreamingPipelineStage<P, R>, F, R, O> where
    F: Fn(AssistantContent) -> O,
 {
    /// The mapper can be applied to `content`.
    pub open spec fn spec_accepts(&self, content: AssistantContent) -> bool {
        call_requires(self.spec_mapper(), (content,))
    }

    /// This stage may stream `o` for the content `content`.
    pub open spec fn spec_yields(&self, content: AssistantContent, o: O) -> bool {
        call_ensures(self.spec_mapper(), (content,), o)
    }

    /// This stage may stream `out` for an answer whose stream gives `items`: one
    /// output for each content before the first error, in order (at an error the
    /// stream stops). The stream itself is built by whoever awaits the answer, by
    /// calling `map_item` on each item in turn until it says to stop; this states what
    /// such a stream yields.
    pub open spec fn spec_streams_items(&self, items: Seq<StreamItem>, out: Seq<O>) -> bool {
        let contents = contents_before_error(items);
        &&& out.len() == contents.len()
        &&& forall|i: int| 0 <= i < out.len() ==> #[trigger] self.spec_yields(contents[i], out[i])
    }

    /// This stage may stream `out` for an answer that started as `response`: nothing
    /// if the answer could not start.
    pub open spec fn spec_streams(&self, response: Result<Seq<StreamItem>, CompletionError>, out: Seq<O>) -> bool {
        match response {
            Ok(items) => self.spec_streams_items(items, out),
            Err(_) => out.len() == 0,
        }
    }

    /// What this stage streams for one piece of content of the prompt's answer.
    pub fn map_content(&self, content: AssistantContent) -> (o: O)
        requires
            self.spec_accepts(content),
        ensures
            self.spec_yields(content, o),
            call_ensures(self.spec_mapper(), (content,), o),
    {
        (self.mapper)(content)
    }

    /// What this stage streams for one item of the prompt's streamed answer: the
    /// mapped content, or, for an error, that the stream stops with it.
    pub fn map_item(&self, item: StreamItem) -> (r: MappedItem<O>)
        requires
            item matches Ok(c) ==> self.spec_accepts(c),
        ensures
            match item {
                Ok(c) => r matches MappedItem::Item(o) && self.spec_yields(c, o) && call_ensures(
                    self.spec_mapper(),
                    (c,),
                    o,
                ),
                Err(e) => r == MappedItem::<O>::Abort(e),
            },
    {
        match item {
            Ok(content) => MappedItem::Item(self.map_content(content)),
            Err(e) => MappedItem::Abort(e),
        }
    }
}

impl<P, F1, F2, R, O1, O2> StreamingMapStage<
    StreamingMapStage<StreamingPipelineStage<P, R>, F1, R, O1>,
    F2,
    R,
    O2,
> where F1: Fn(AssistantContent) -> O1, F2: Fn(O1) -> O2 {
    /// Both mappers can be applied, the outer one to whatever the inner one gives
    /// for `content`.
    pub open spec fn spec_accepts(&self, content: AssistantContent) -> bool {
        &&& self.spec_source().spec_accepts(content)
        &&& forall|m: O1|
            self.spec_source().spec_yields(content, m) ==> call_requires(
                self.spec_mapper(),
                (m,),
            )
    }

    /// This stage may stream `o` for the content `content`: the outer mapper's result
    /// on what the inner stage streams for it.
    pub open spec fn spec_yields(&self, content: AssistantContent, o: O2) -> bool {
        exists|m: O1|
            self.spec_source().spec_yields(content, m) && call_ensures(self.spec_mapper(), (m,), o)
    }

    /// This stage may stream `out` for an answer whose stream gives `items`: one
    /// output for each content before the first error, in order (at an error the
    /// stream stops). The stream itself is built by whoever awaits the answer, by
    /// calling `map_item` on each item in turn until it says to stop; this states what
    /// such a stream yields.
    pub open spec fn spec_streams_items(&self, items: Seq<StreamItem>, out: Seq<O2>) -> bool {
        let contents = contents_before_error(items);
        &&& out.len() == contents.len()
        &&& forall|i: int| 0 <= i < out.len() ==> #[trigger] self.spec_yields(contents[i], out[i])
    }

    /// This stage may stream `out` for an answer that started as `response`: nothing
    /// if the answer could not start.
    pub open spec fn spec_streams(&self, response: Result<Seq<StreamItem>, CompletionError>, out: Seq<O2>) -> bool {
        match response {
            Ok(items) => self.spec_streams_items(items, out),
            Err(_) => out.len() == 0,
        }
    }

    /// What this stage streams for one piece of content of the prompt's answer: the
    /// inner mapper's result, mapped again.
    pub fn map_content(&self, content: AssistantContent) -> (o: O2)
        requires
            self.spec_accepts(content),
        ensures
            self.spec_yields(content, o),
            exists|m: O1|
                call_ensures(self.spec_source().spec_mapper(), (content,), m) && call_ensures(
                    self.spec_mapper(),
                    (m,),
                    o,
                ),
    {
        let m = self.source.map_content(content);
        (self.mapper)(m)
    }

    /// What this stage streams for one item of the prompt's streamed answer: the
    /// content mapped by both mappers, or, for an error, that the stream stops with it.
    pub fn map_item(&self, item: StreamItem) -> (r: MappedItem<O2>)
        requires
            item matches Ok(c) ==> self.spec_accepts(c),
        ensures
            match item {
                Ok(c) => r matches MappedItem::Item(o) && self.spec_yields(c, o) && exists|m: O1|
                    call_ensures(self.spec_source().spec_mapper(), (c,), m) && call_ensures(
                        self.spec_mapper(),
                        (m,),
                        o,
                    ),
                Err(e) => r == MappedItem::<O2>::Abort(e),
            },
    {
        match item {
            Ok(content) => MappedItem::Item(self.map_content(content)),
            Err(e) => MappedItem::Abort(e),
        }
    }
}

/// A pipeline stage is determined by what it prompts: two stages with the same prompt
/// are the same stage.
pub proof fn lemma_pipeline_stage_is_its_prompt<P, R>(
    a: StreamingPipelineStage<P, R>,
    b: StreamingPipelineStage<P, R>,
)
    requires
        a.spec_prompt() == b.spec_prompt(),
    ensures
        a == b,
{
}

/// A single mapping stage hands each content of the answer to its mapper as it is:
/// it may yield `o` for `c` exactly when the mapper may give `o` for that same `c`,
/// and it accepts `c` exactly when the mapper does.
pub proof fn lemma_single_stage_yields_what_its_mapper_gives<P, F, R, O>(
    stage: StreamingMapStage<StreamingPipelineStage<P, R>, F, R, O>,
) where F: Fn(AssistantContent) -> O
    ensures
        forall|c: AssistantContent, o: O|
            #[trigger] stage.spec_yields(c, o) <==> call_ensures(stage.spec_mapper(), (c,), o),
        forall|c: AssistantContent|
            #[trigger] stage.spec_accepts(c) <==> call_requires(stage.spec_mapper(), (c,)),
{
}

/// A stage mapped twice hands each content of the answer, as it is, to the inner
/// mapper, and the inner mapper's result to the outer one: it may yield `o` for `c`
/// exactly when some `m` may come from the inner mapper on `c` and `o` from the outer
/// mapper on `m`.
pub proof fn lemma_twice_mapped_stage_yields_the_composition<P, F1, F2, R, O1, O2>(
    stage: StreamingMapStage<StreamingMapStage<StreamingPipelineStage<P, R>, F1, R, O1>, F2, R, O2>,
) where F1: Fn(AssistantContent) -> O1, F2: Fn(O1) -> O2
    ensures
        forall|c: AssistantContent, o: O2|
            #[trigger] stage.spec_yields(c, o) <==> exists|m: O1|
                call_ensures(stage.spec_source().spec_mapper(), (c,), m) && call_ensures(
                    stage.spec_mapper(),
                    (m,),
                    o,
                ),
        forall|c: AssistantContent|
            #[trigger] stage.spec_accepts(c) <==> (call_requires(
                stage.spec_source().spec_mapper(),
                (c,),
            ) && forall|m: O1|
                call_ensures(stage.spec_source().spec_mapper(), (c,), m) ==> call_requires(
                    stage.spec_mapper(),
                    (m,),
                )),
{
    assert forall|c: AssistantContent, o: O2| #[trigger] stage.spec_yields(c, o) <==> exists|m: O1|
        call_ensures(stage.spec_source().spec_mapper(), (c,), m) && call_ensures(
            stage.spec_mapper(),
            (m,),
            o,
        ) by {
        if stage.spec_yields(c, o) {
            let m = choose|m: O1|
                stage.spec_source().spec_yields(c, m) && call_ensures(stage.spec_mapper(), (m,), o);
            assert(call_ensures(stage.spec_source().spec_mapper(), (c,), m));
        }
        if exists|m: O1|
            call_ensures(stage.spec_source().spec_mapper(), (c,), m) && call_ensures(
                stage.spec_mapper(),
                (m,),
                o,
            ) {
            let m = choose|m: O1|
                call_ensures(stage.spec_source().spec_mapper(), (c,), m) && call_ensures(
                    stage.spec_mapper(),
                    (m,),
                    o,
                );
            assert(stage.spec_source().spec_yields(c, m));
        }
    }
    assert forall|c: AssistantContent| #[trigger] stage.spec_accepts(c) <==> (call_requires(
        stage.spec_source().spec_mapper(),
        (c,),
    ) && forall|m: O1|
        call_ensures(stage.spec_source().spec_mapper(), (c,), m) ==> call_requires(
            stage.spec_mapper(),
            (m,),
        )) by {
        if stage.spec_accepts(c) {
            assert forall|m: O1| call_ensures(stage.spec_source().spec_mapper(), (c,), m) implies call_requires(
                stage.spec_mapper(),
                (m,),
            ) by {
                assert(stage.spec_source().spec_yields(c, m));
            }
        }
        if call_requires(stage.spec_source().spec_mapper(), (c,)) && forall|m: O1|
            call_ensures(stage.spec_source().spec_mapper(), (c,), m) ==> call_requires(
                stage.spec_mapper(),
                (m,),
            ) {
            assert forall|m: O1| stage.spec_source().spec_yields(c, m) implies call_requires(
                stage.spec_mapper(),
                (m,),
            ) by {
                assert(call_ensures(stage.spec_source().spec_mapper(), (c,), m));
            }
        }
    }
}

/// A mapping stage is determined by what it maps and how: two stages with the same
/// source and the same mapper are the same stage, so a stage made with
/// `StreamingMapStage::new(source, f)` is the one that `source.map(f)` makes.
pub proof fn lemma_map_stage_is_its_source_and_mapper<S, F, R, O>(
    a: StreamingMapStage<S, F, R, O>,
    b: StreamingMapStage<S, F, R, O>,
)
    requires
        a.spec_source() == b.spec_source(),
        a.spec_mapper() == b.spec_mapper(),
    ensures
        a == b,
{
}

/// Mapping a stage again maps each item that it streams: for every answer, the
/// outer stage streams `out` exactly when the inner stage streams some `inner_out`
/// of the same length whose items the outer mapper takes, one by one and in order,
/// to those of `out` (nothing when the inner stage streams nothing).
pub proof fn lemma_mapping_again_maps_each_streamed_item<P, F1, F2, R, O1, O2>(
    stage: StreamingMapStage<StreamingMapStage<StreamingPipelineStage<P, R>, F1, R, O1>, F2, R, O2>,
    items: Seq<StreamItem>,
    out: Seq<O2>,
) where F1: Fn(AssistantContent) -> O1, F2: Fn(O1) -> O2
    ensures
        stage.spec_streams_items(items, out) <==> exists|inner_out: Seq<O1>|
            {
                &&& #[trigger] stage.spec_source().spec_streams_items(items, inner_out)
                &&& inner_out.len() == out.len()
                &&& forall|i: int|
                    0 <= i < out.len() ==> #[trigger] call_ensures(
                        stage.spec_mapper(),
                        (inner_out[i],),
                        out[i],
                    )
            },
{
    let contents = contents_before_error(items);
    let inner = stage.spec_source();
    if stage.spec_streams_items(items, out) {
        let inner_out = Seq::new(
            out.len(),
            |i: int|
                choose|m: O1|
                    inner.spec_yields(contents[i], m) && call_ensures(stage.spec_mapper(), (m,), out[i]),
        );
        assert forall|i: int| 0 <= i < out.len() implies #[trigger] inner.spec_yields(
            contents[i],
            inner_out[i],
        ) && call_ensures(stage.spec_mapper(), (inner_out[i],), out[i]) by {
            assert(stage.spec_yields(contents[i], out[i]));
        }
        assert(inner.spec_streams_items(items, inner_out));
        assert forall|i: int| 0 <= i < out.len() implies #[trigger] call_ensures(
            stage.spec_mapper(),
            (inner_out[i],),
            out[i],
        ) by {
            assert(stage.spec_yields(contents[i], out[i]));
        }
    }
    if exists|inner_out: Seq<O1>|
        {
            &&& #[trigger] inner.spec_streams_items(items, inner_out)
            &&& inner_out.len() == out.len()
            &&& forall|i: int|
                0 <= i < out.len() ==> #[trigger] call_ensures(
                    stage.spec_mapper(),
                    (inner_out[i],),
                    out[i],
                )
        } {
        let inner_out = choose|inner_out: Seq<O1>|
            {
                &&& #[trigger] inner.spec_streams_items(items, inner_out)
                &&& inner_out.len() == out.len()
                &&& forall|i: int|
                    0 <= i < out.len() ==> #[trigger] call_ensures(
                        stage.spec_mapper(),
                        (inner_out[i],),
                        out[i],
                    )
            };
        assert forall|i: int| 0 <= i < out.len() implies #[trigger] stage.spec_yields(
            contents[i],
            out[i],
        ) by {
            assert(inner.spec_yields(contents[i], inner_out[i]));
            assert(call_ensures(stage.spec_mapper(), (inner_out[i],), out[i]));
        }
        assert(stage.spec_streams_items(items, out));
    }
}

/// Mapping a stage with a composed mapper streams only what mapping it twice may
/// stream: when whatever `once`'s mapper gives for a content is the second mapper of
/// `twice` applied to an output of its first (as the `ensures` of a closure that
/// calls one after the other says), every stream of `once` is one that `twice` may
/// stream for the same answer of the same prompt.
pub proof fn lemma_composed_mapper_streams_what_mapping_twice_may<P, F1, F2, G, R, O1, O2>(
    twice: StreamingMapStage<StreamingMapStage<StreamingPipelineStage<P, R>, F1, R, O1>, F2, R, O2>,
    once: StreamingMapStage<StreamingPipelineStage<P, R>, G, R, O2>,
) where F1: Fn(AssistantContent) -> O1, F2: Fn(O1) -> O2, G: Fn(AssistantContent) -> O2
    requires
        twice.spec_source().spec_source() == once.spec_source(),
        forall|c: AssistantContent, o: O2|
            call_ensures(once.spec_mapper(), (c,), o) ==> exists|m: O1|
                call_ensures(twice.spec_source().spec_mapper(), (c,), m) && call_ensures(
                    twice.spec_mapper(),
                    (m,),
                    o,
                ),
    ensures
        forall|c: AssistantContent, o: O2| once.spec_yields(c, o) ==> twice.spec_yields(c, o),
        forall|response: Result<Seq<StreamItem>, CompletionError>, out: Seq<O2>|
            #[trigger] once.spec_streams(response, out) ==> twice.spec_streams(response, out),
{
    assert forall|c: AssistantContent, o: O2| once.spec_yields(c, o) implies twice.spec_yields(c, o) by {
        assert(call_ensures(once.spec_mapper(), (c,), o));
        let m = choose|m: O1|
            call_ensures(twice.spec_source().spec_mapper(), (c,), m) && call_ensures(
                twice.spec_mapper(),
                (m,),
                o,
            );
        assert(twice.spec_source().spec_yields(c, m));
    }
    assert forall|response: Result<Seq<StreamItem>, CompletionError>, out: Seq<O2>|
        #[trigger] once.spec_streams(response, out) implies twice.spec_streams(response, out) by {
        if let Ok(items) = response {
            let contents = contents_before_error(items);
            assert forall|i: int| 0 <= i < out.len() implies #[trigger] twice.spec_yields(
                contents[i],
                out[i],
            ) by {
                assert(once.spec_yields(contents[i], out[i]));
            }
        }
    }
}

/// Mapping a stage twice is mapping it once with the composition: when the outputs
/// that `once`'s mapper may give for a content are exactly those of the second
/// mapper of `twice` on an output of its first, both stages stream the same items
/// for every answer of the same prompt.
pub proof fn lemma_mapping_twice_is_mapping_the_composition<P, F1, F2, G, R, O1, O2>(
    twice: StreamingMapStage<StreamingMapStage<StreamingPipelineStage<P, R>, F1, R, O1>, F2, R, O2>,
    once: StreamingMapStage<StreamingPipelineStage<P, R>, G, R, O2>,
) where F1: Fn(AssistantContent) -> O1, F2: Fn(O1) -> O2, G: Fn(AssistantContent) -> O2
    requires
        twice.spec_source().spec_source() == once.spec_source(),
        forall|c: AssistantContent, o: O2|
            call_ensures(once.spec_mapper(), (c,), o) <==> exists|m: O1|
                call_ensures(twice.spec_source().spec_mapper(), (c,), m) && call_ensures(
                    twice.spec_mapper(),
                    (m,),
                    o,
                ),
    ensures
        forall|c: AssistantContent, o: O2| twice.spec_yields(c, o) <==> once.spec_yields(c, o),
        forall|response: Result<Seq<StreamItem>, CompletionError>, out: Seq<O2>|
            #[trigger] twice.spec_streams(response, out) <==> once.spec_streams(response, out),
{
    assert forall|c: AssistantContent, o: O2| twice.spec_yields(c, o) <==> once.spec_yields(c, o) by {
        if twice.spec_yields(c, o) {
            let m = choose|m: O1|
                twice.spec_source().spec_yields(c, m) && call_ensures(twice.spec_mapper(), (m,), o);
            assert(call_ensures(twice.spec_source().spec_mapper(), (c,), m));
        }
        if once.spec_yields(c, o) {
            assert(call_ensures(once.spec_mapper(), (c,), o));
            let m = choose|m: O1|
                call_ensures(twice.spec_source().spec_mapper(), (c,), m) && call_ensures(
                    twice.spec_mapper(),
                    (m,),
                    o,
                );
            assert(twice.spec_source().spec_yields(c, m));
        }
    }
    assert forall|response: Result<Seq<StreamItem>, CompletionError>, out: Seq<O2>|
        #[trigger] twice.spec_streams(response, out) <==> once.spec_streams(response, out) by {
        if let Ok(items) = response {
            let contents = contents_before_error(items);
            assert(twice.spec_streams_items(items, out) <==> once.spec_streams_items(items, out)) by {
                if twice.spec_streams_items(items, out) {
                    assert forall|i: int| 0 <= i < out.len() implies #[trigger] once.spec_yields(
                        contents[i],
                        out[i],
                    ) by {
                        assert(twice.spec_yields(contents[i], out[i]));
                    }
                }
                if once.spec_streams_items(items, out) {
                    assert forall|i: int| 0 <= i < out.len() implies #[trigger] twice.spec_yields(
                        contents[i],
                        out[i],
                    ) by {
                        assert(once.spec_yields(contents[i], out[i]));
                    }
                }
            }
        }
    }
}

impl<S: Clone, F: Clone, R, O> Clone for StreamingMapStage<S, F, R, O> {
    fn clone(&self) -> (r: Self)
        ensures
            cloned(self.spec_source(), r.spec_source()),
            cloned(self.spec_mapper(), r.spec_mapper()),
    {
        StreamingMapStage {
            source: self.source.clone(),
            mapper: self.mapper.clone(),
            _r: PhantomData,
            _o: PhantomData,
        }
    }
}

/// Creates a new streaming pipeline with a streaming prompt.
pub fn streaming_pipeline<P, R>(prompt: P) -> (stage: StreamingPipelineStage<P, R>)
    ensures
        stage.spec_prompt() == prompt,
{
    StreamingPipelineStage::new(prompt)
}

/// Creates a streaming adapter for a model.
pub fn model_streaming<M>(model: M) -> (adapter: StreamingModelAdapter<M>)
    ensures
        adapter.spec_model() == model,
{
    StreamingModelAdapter::new(model)
}

/// Adapter for using a streaming completion model directly with streaming pipelines.
pub struct StreamingModelAdapter<M> {
    model: M,
}

impl<M> StreamingModelAdapter<M> {
    /// The adapted model.
    pub closed spec fn spec_model(&self) -> M {
        self.model
    }

    /// The adapter of `model`.
    pub fn new(model: M) -> (adapter: Self)
        ensures
            adapter.spec_model() == model,
    {
        StreamingModelAdapter { model }
    }

    /// The adapted model.
    pub fn model(&self) -> (r: &M)
        ensures
            *r == self.spec_model(),
    {
        &self.model
    }

    /// The request with which the model is asked to stream its answer to `prompt`:
    /// the prompt is the whole conversation, with no preamble, documents or tools,
    /// and every setting is left to the model.
    pub fn completion_request(&self, prompt: Message) -> (request: CompletionRequest)
        ensures
            request.single_prompt(prompt),
            request.chat_history@ == seq![prompt],
            request.preamble is None,
            request.documents@.len() == 0,
            request.tools@.len() == 0,
            request.temperature is None,
            request.max_tokens is None,
            request.additional_params is None,
    {
        let mut chat_history: Vec<Message> = Vec::new();
        chat_history.push(prompt);
        CompletionRequest {
            chat_history,
            preamble: None,
            documents: Vec::new(),
            tools: Vec::new(),
            temperature: None,
            max_tokens: None,
            additional_params: None,
        }
    }
}

impl<M: Clone> Clone for StreamingModelAdapter<M> {
    fn clone(&self) -> (r: Self)
        ensures
            cloned(self.spec_model(), r.spec_model()),
    {
        StreamingModelAdapter { model: self.model.clone() }
    }
}

} // verus!
