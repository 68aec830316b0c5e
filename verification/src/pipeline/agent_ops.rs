//! Operations that call agents, vector stores and extractors, and the logic of
//! streaming an agent's answer through a sender while collecting it.
use vstd::prelude::*;
use vstd::string::StringExecFns;

use std::marker::PhantomData;

use crate::completion::CompletionError;
use crate::message::AssistantContent;

verus! {

/// One item of a streamed answer: a piece of content, or the error that ended the stream.
pub type StreamItem = Result<AssistantContent, CompletionError>;

/// What to do with one event of a streamed answer.
pub enum ChunkAction {
    /// Send this text chunk through the sender, then wait for the next event.
    Send(String),
    /// Ignore the event (a tool call) and wait for the next one.
    Skip,
    /// Stop: the call fails with this error, and the sender is not closed.
    Fail(CompletionError),
    /// The stream is over: close the sender and return this text.
    Finish(String),
}

/// A [`ChunkAction`] with its text taken as a sequence of characters.
pub enum ChunkActionView {
    Send(Seq<char>),
    Skip,
    Fail(CompletionError),
    Finish(Seq<char>),
}

impl View for ChunkAction {
    type V = ChunkActionView;

    open spec fn view(&self) -> ChunkActionView {
        match self {
            ChunkAction::Send(s) => ChunkActionView::Send(s@),
            ChunkAction::Skip => ChunkActionView::Skip,
            ChunkAction::Fail(e) => ChunkActionView::Fail(*e),
            ChunkAction::Finish(s) => ChunkActionView::Finish(s@),
        }
    }
}

/// The text collected so far once `item` has arrived after `text`.
pub open spec fn collected_after(text: Seq<char>, item: StreamItem) -> Seq<char> {
    match item {
        Ok(AssistantContent::Text(t)) => text + t.text@,
        _ => text,
    }
}

/// What is done on `event` (an item, or `None` at the end of the stream) when
/// `text` has been collected so far.
pub open spec fn reaction(text: Seq<char>, event: Option<StreamItem>) -> ChunkActionView {
    match event {
        None => ChunkActionView::Finish(text),
        Some(Ok(AssistantContent::Text(t))) => ChunkActionView::Send(t.text@),
        Some(Ok(AssistantContent::ToolCall(_))) => ChunkActionView::Skip,
        Some(Err(e)) => ChunkActionView::Fail(e),
    }
}

/// Every action taken on a stream that yields `items` and then ends, when `text`
/// has been collected before them. The actions stop at the first failure.
pub open spec fn reactions(text: Seq<char>, items: Seq<StreamItem>) -> Seq<ChunkActionView>
    decreases items.len(),
{
    if items.len() == 0 {
        seq![ChunkActionView::Finish(text)]
    } else {
        let a = reaction(text, Some(items[0]));
        if a is Fail {
            seq![a]
        } else {
            seq![a] + reactions(collected_after(text, items[0]), items.drop_first())
        }
    }
}

/// The text of each text item of `items`, in order.
pub open spec fn text_chunks(items: Seq<StreamItem>) -> Seq<Seq<char>>
    decreases items.len(),
{
    if items.len() == 0 {
        Seq::empty()
    } else {
        let rest = text_chunks(items.drop_first());
        match items[0] {
            Ok(AssistantContent::Text(t)) => seq![t.text@] + rest,
            _ => rest,
        }
    }
}

/// The items of `items` that come before its first error (all of them if none).
pub open spec fn before_error(items: Seq<StreamItem>) -> Seq<StreamItem>
    decreases items.len(),
{
    if items.len() == 0 {
        Seq::empty()
    } else {
        match items[0] {
            Err(_) => Seq::empty(),
            Ok(_) => seq![items[0]] + before_error(items.drop_first()),
        }
    }
}

/// The first error among `items`, if there is one.
pub open spec fn first_error(items: Seq<StreamItem>) -> Option<CompletionError>
    decreases items.len(),
{
    if items.len() == 0 {
        None
    } else {
        match items[0] {
            Err(e) => Some(e),
            Ok(_) => first_error(items.drop_first()),
        }
    }
}

/// The chunks that `actions` send, in order.
pub open spec fn sent_chunks(actions: Seq<ChunkActionView>) -> Seq<Seq<char>>
    decreases actions.len(),
{
    if actions.len() == 0 {
        Seq::empty()
    } else {
        let rest = sent_chunks(actions.drop_first());
        match actions[0] {
            ChunkActionView::Send(s) => seq![s] + rest,
            _ => rest,
        }
    }
}

/// The actions on a stream are those that [`StreamedText::react`] returns when it is
/// handed each item in turn and then the end of the stream, starting from what was
/// collected before, until it says to fail.
pub proof fn lemma_reactions_follow_react(text: Seq<char>, items: Seq<StreamItem>)
    ensures
        items.len() == 0 ==> reactions(text, items) == seq![reaction(text, None)],
        items.len() > 0 && reaction(text, Some(items[0])) is Fail ==> reactions(text, items)
            == seq![reaction(text, Some(items[0]))],
        items.len() > 0 && !(reaction(text, Some(items[0])) is Fail) ==> reactions(text, items)
            == seq![reaction(text, Some(items[0]))] + reactions(
            collected_after(text, items[0]),
            items.drop_first(),
        ),
{
}

/// The chunks that a streamed prompt sends are the text chunks of the stream that
/// arrive before its first error, in the order in which they arrive: tool calls
/// send nothing, and nothing is sent after an error.
pub proof fn lemma_sent_chunks_are_text_before_error(text: Seq<char>, items: Seq<StreamItem>)
    ensures
        sent_chunks(reactions(text, items)) == text_chunks(before_error(items)),
    decreases items.len(),
{
    if items.len() == 0 {
        assert(seq![ChunkActionView::Finish(text)].drop_first() =~= Seq::<ChunkActionView>::empty());
        assert(sent_chunks(Seq::<ChunkActionView>::empty()) == Seq::<Seq<char>>::empty());
    } else {
        let a = reaction(text, Some(items[0]));
        let rest = items.drop_first();
        if a is Fail {
            assert(seq![a].drop_first() =~= Seq::<ChunkActionView>::empty());
            assert(sent_chunks(Seq::<ChunkActionView>::empty()) == Seq::<Seq<char>>::empty());
        } else {
            let tail = reactions(collected_after(text, items[0]), rest);
            lemma_sent_chunks_are_text_before_error(collected_after(text, items[0]), rest);
            assert((seq![a] + tail).drop_first() =~= tail);
            let kept = seq![items[0]] + before_error(rest);
            assert(kept.drop_first() =~= before_error(rest));
        }
    }
}

/// A streamed prompt ends exactly once, on its last action: with the first error of
/// the stream if there is one (and then the sender is not closed), and otherwise,
/// once the stream is over, by closing the sender and returning every text chunk
/// joined in order after what was collected before.
pub proof fn lemma_stream_ends_once(text: Seq<char>, items: Seq<StreamItem>)
    ensures
        reactions(text, items).len() >= 1,
        reactions(text, items).last() == match first_error(items) {
            Some(e) => ChunkActionView::Fail(e),
            None => ChunkActionView::Finish(text + text_chunks(items).flatten()),
        },
        forall|i: int|
            0 <= i < reactions(text, items).len() - 1 ==> {
                let a = #[trigger] reactions(text, items)[i];
                a is Send || a is Skip
            },
    decreases items.len(),
{
    if items.len() > 0 {
        let a = reaction(text, Some(items[0]));
        let rest = items.drop_first();
        if !(a is Fail) {
            let next = collected_after(text, items[0]);
            lemma_stream_ends_once(next, rest);
            match items[0] {
                Ok(AssistantContent::Text(t)) => {
                    assert((seq![t.text@] + text_chunks(rest)).drop_first() =~= text_chunks(rest));
                    assert(text + text_chunks(items).flatten() =~= next + text_chunks(rest).flatten());
                },
                _ => {},
            }
        }
    }
}

/// Without an error in the stream, nothing comes before an error but the whole stream.
proof fn lemma_before_error_of_error_free(items: Seq<StreamItem>)
    requires
        first_error(items) is None,
    ensures
        before_error(items) == items,
    decreases items.len(),
{
    if items.len() > 0 {
        lemma_before_error_of_error_free(items.drop_first());
    }
}

/// What a streamed prompt returns is what it has sent: when the stream ends without
/// an error, the text returned is every sent chunk joined in order.
pub proof fn lemma_returned_text_is_sent_text(items: Seq<StreamItem>)
    requires
        first_error(items) is None,
    ensures
        reactions(Seq::empty(), items).last() == ChunkActionView::Finish(
            sent_chunks(reactions(Seq::empty(), items)).flatten(),
        ),
{
    lemma_stream_ends_once(Seq::empty(), items);
    lemma_sent_chunks_are_text_before_error(Seq::empty(), items);
    lemma_before_error_of_error_free(items);
}

/// A call that a streamed prompt makes on its sender.
pub enum SenderCall {
    /// `send_chunk` with this chunk.
    SendChunk(Seq<char>),
    /// `close`.
    Close,
}

/// Carries out `actions` as a streamed prompt does, when its sender's calls return
/// `outcomes` in turn (`true` for success): the calls made on the sender, and what
/// the prompt returns (`None` while the actions have not ended it). A send that
/// fails is passed over: the prompt goes on with the next action.
pub open spec fn carry_out(actions: Seq<ChunkActionView>, outcomes: Seq<bool>) -> (Seq<SenderCall>, Option<Result<Seq<char>, CompletionError>>)
    decreases actions.len(),
{
    if actions.len() == 0 {
        (Seq::empty(), None)
    } else {
        match actions[0] {
            ChunkActionView::Send(chunk) => {
                let (calls, result) = carry_out(actions.drop_first(), outcomes.drop_first());
                (seq![SenderCall::SendChunk(chunk)] + calls, result)
            },
            ChunkActionView::Skip => carry_out(actions.drop_first(), outcomes),
            ChunkActionView::Fail(e) => (Seq::empty(), Some(Err(e))),
            ChunkActionView::Finish(text) => (seq![SenderCall::Close], Some(Ok(text))),
        }
    }
}

/// A sender's failures change nothing: whatever its calls return, a streamed prompt
/// makes the same calls on it, with the same arguments and in the same order, and
/// returns the same result.
pub proof fn lemma_sender_failures_change_nothing(
    actions: Seq<ChunkActionView>,
    outcomes_a: Seq<bool>,
    outcomes_b: Seq<bool>,
)
    ensures
        carry_out(actions, outcomes_a) == carry_out(actions, outcomes_b),
    decreases actions.len(),
{
    if actions.len() > 0 {
        match actions[0] {
            ChunkActionView::Send(_) => lemma_sender_failures_change_nothing(
                actions.drop_first(),
                outcomes_a.drop_first(),
                outcomes_b.drop_first(),
            ),
            ChunkActionView::Skip => lemma_sender_failures_change_nothing(
                actions.drop_first(),
                outcomes_a,
                outcomes_b,
            ),
            _ => {},
        }
    }
}

/// What a streamed prompt does on a stream that gives `items` and then ends, whatever
/// its sender's calls return: it sends each text chunk before the first error, in
/// order; then, at the first error, it returns that error without closing the
/// sender, and otherwise it closes the sender and returns the chunks joined.
pub proof fn lemma_streamed_prompt_calls_and_result(items: Seq<StreamItem>, outcomes: Seq<bool>)
    ensures
        carry_out(reactions(Seq::empty(), items), outcomes) == (
            text_chunks(before_error(items)).map_values(|c: Seq<char>| SenderCall::SendChunk(c))
                + match first_error(items) {
                Some(_) => Seq::<SenderCall>::empty(),
                None => seq![SenderCall::Close],
            },
            Some(
                match first_error(items) {
                    Some(e) => Err(e),
                    None => Ok(text_chunks(items).flatten()),
                },
            ),
        ),
{
    lemma_carry_out_of_reactions(Seq::empty(), items, outcomes);
    assert(Seq::<char>::empty() + text_chunks(items).flatten() =~= text_chunks(items).flatten());
}

proof fn lemma_carry_out_of_reactions(text: Seq<char>, items: Seq<StreamItem>, outcomes: Seq<bool>)
    ensures
        carry_out(reactions(text, items), outcomes) == (
            text_chunks(before_error(items)).map_values(|c: Seq<char>| SenderCall::SendChunk(c))
                + match first_error(items) {
                Some(_) => Seq::<SenderCall>::empty(),
                None => seq![SenderCall::Close],
            },
            Some(
                match first_error(items) {
                    Some(e) => Err(e),
                    None => Ok(text + text_chunks(items).flatten()),
                },
            ),
        ),
    decreases items.len(),
{
    let sends = |c: Seq<char>| SenderCall::SendChunk(c);
    if items.len() == 0 {
        assert(reactions(text, items).drop_first() =~= Seq::<ChunkActionView>::empty());
        assert(text_chunks(before_error(items)).map_values(sends) =~= Seq::<SenderCall>::empty());
        assert(text + text_chunks(items).flatten() =~= text);
    } else {
        let rest = items.drop_first();
        match items[0] {
            Err(e) => {
                assert(text_chunks(before_error(items)).map_values(sends) =~= Seq::<SenderCall>::empty());
            },
            Ok(AssistantContent::Text(t)) => {
                let next = text + t.text@;
                lemma_carry_out_of_reactions(next, rest, outcomes.drop_first());
                let tail = reactions(next, rest);
                assert((seq![ChunkActionView::Send(t.text@)] + tail).drop_first() =~= tail);
                let kept = seq![items[0]] + before_error(rest);
                assert(kept.drop_first() =~= before_error(rest));
                assert(text_chunks(kept) == seq![t.text@] + text_chunks(before_error(rest)));
                assert((seq![t.text@] + text_chunks(before_error(rest))).map_values(sends)
                    =~= seq![SenderCall::SendChunk(t.text@)] + text_chunks(before_error(rest)).map_values(sends));
                assert((seq![t.text@] + text_chunks(rest)).drop_first() =~= text_chunks(rest));
                assert(text + text_chunks(items).flatten() =~= next + text_chunks(rest).flatten());
            },
            Ok(AssistantContent::ToolCall(_)) => {
                lemma_carry_out_of_reactions(text, rest, outcomes);
                let tail = reactions(text, rest);
                assert((seq![ChunkActionView::Skip] + tail).drop_first() =~= tail);
                let kept = seq![items[0]] + before_error(rest);
                assert(kept.drop_first() =~= before_error(rest));
                assert(text_chunks(kept) == text_chunks(before_error(rest)));
            },
        }
    }
}

/// Every action taken on an answer that started as `response`: failing with its
/// error if it could not start, and otherwise the actions on the items it streams.
pub open spec fn answer_reactions(response: Result<Seq<StreamItem>, CompletionError>) -> Seq<ChunkActionView> {
    match response {
        Ok(items) => reactions(Seq::empty(), items),
        Err(e) => seq![ChunkActionView::Fail(e)],
    }
}

/// When the answer's stream cannot start, a streamed prompt returns that error and
/// makes no call on its sender.
pub proof fn lemma_failed_start_makes_no_call(e: CompletionError, outcomes: Seq<bool>)
    ensures
        carry_out(answer_reactions(Err(e)), outcomes) == (
            Seq::<SenderCall>::empty(),
            Some(Err::<Seq<char>, CompletionError>(e)),
        ),
{
}

/// The text of a streamed answer collected so far.
pub struct StreamedText {
    text: String,
}

impl View for StreamedText {
    type V = Seq<char>;

    closed spec fn view(&self) -> Seq<char> {
        self.text@
    }
}

impl StreamedText {
    /// Nothing collected yet.
    pub fn new() -> (s: StreamedText)
        ensures
            s@ == Seq::<char>::empty(),
    {
        StreamedText { text: String::new() }
    }

    /// Takes the outcome of starting the answer's stream: when it started, nothing is
    /// collected yet and the stream is handed back; when it could not start, the
    /// prompt fails with that error at once, before any call on the sender (the
    /// first of [`answer_reactions`]).
    pub fn start<T>(response: Result<T, CompletionError>) -> (r: Result<(StreamedText, T), CompletionError>)
        ensures
            match response {
                Ok(stream) => r matches Ok((s, u)) && s@ == Seq::<char>::empty() && u == stream,
                Err(e) => r == Err::<(StreamedText, T), CompletionError>(e),
            },
    {
        match response {
            Ok(stream) => Ok((StreamedText::new(), stream)),
            Err(e) => Err(e),
        }
    }

    /// Takes the next event of the stream (`None` once it has ended), collects its
    /// text, and says what to do with it.
    pub fn react(&mut self, event: Option<StreamItem>) -> (action: ChunkAction)
        ensures
            action@ == reaction(old(self)@, event),
            final(self)@ == match event {
                Some(item) => collected_after(old(self)@, item),
                None => old(self)@,
            },
    {
        match event {
            None => ChunkAction::Finish(self.text.clone()),
            Some(Ok(AssistantContent::Text(t))) => {
                self.text.append(t.text.as_str());
                ChunkAction::Send(t.text)
            },
            Some(Ok(AssistantContent::ToolCall(_))) => ChunkAction::Skip,
            Some(Err(e)) => ChunkAction::Fail(e),
        }
    }
}

/// An operation that looks up the `n` documents of a vector store closest to its input.
pub struct Lookup<I, In, T> {
    index: I,
    n: usize,
    _in: PhantomData<In>,
    _t: PhantomData<T>,
}

impl<I, In, T> Lookup<I, In, T> {
    /// The index that is searched.
    pub closed spec fn spec_index(&self) -> I {
        self.index
    }

    /// How many documents are asked for.
    pub closed spec fn spec_n(&self) -> usize {
        self.n
    }

    /// A lookup of the top `n` documents of `index`.
    pub fn new(index: I, n: usize) -> (op: Self)
        ensures
            op.spec_index() == index,
            op.spec_n() == n,
    {
        Lookup { index, n, _in: PhantomData, _t: PhantomData }
    }

    /// The index that is searched.
    pub fn index(&self) -> (r: &I)
        ensures
            *r == self.spec_index(),
    {
        &self.index
    }

    /// How many documents are asked for.
    pub fn n(&self) -> (r: usize)
        ensures
            r == self.spec_n(),
    {
        self.n
    }
}

/// Creates a new lookup operation.
///
/// The op will perform semantic search on the provided index and return the top `n`
/// results closest to the input.
pub fn lookup<I, In, T>(index: I, n: usize) -> (op: Lookup<I, In, T>)
    ensures
        op.spec_index() == index,
        op.spec_n() == n,
{
    Lookup::new(index, n)
}

/// An operation that prompts an agent with its input and returns the answer.
pub struct Prompt<P, In> {
    prompt: P,
    _in: PhantomData<In>,
}

impl<P, In> Prompt<P, In> {
    /// The agent that is prompted.
    pub closed spec fn spec_agent(&self) -> P {
        self.prompt
    }

    /// A prompt operation on `prompt`.
    pub fn new(prompt: P) -> (op: Self)
        ensures
            op.spec_agent() == prompt,
    {
        Prompt { prompt, _in: PhantomData }
    }

    /// The agent that is prompted.
    pub fn agent(&self) -> (r: &P)
        ensures
            *r == self.spec_agent(),
    {
        &self.prompt
    }
}

/// Creates a new prompt operation.
///
/// The op will prompt the `model` with the input and return the response.
pub fn prompt<P, In>(model: P) -> (op: Prompt<P, In>)
    ensures
        op.spec_agent() == model,
{
    Prompt::new(model)
}

/// An operation that extracts structured data of type `Output` from its input with
/// an extractor.
pub struct Extract<X, Input, Output> {
    extractor: X,
    _in: PhantomData<Input>,
    _out: PhantomData<Output>,
}

impl<X, Input, Output> Extract<X, Input, Output> {
    /// The extractor that is used.
    pub closed spec fn spec_extractor(&self) -> X {
        self.extractor
    }

    /// An extract operation with `extractor`.
    pub fn new(extractor: X) -> (op: Self)
        ensures
            op.spec_extractor() == extractor,
    {
        Extract { extractor, _in: PhantomData, _out: PhantomData }
    }

    /// The extractor that is used.
    pub fn extractor(&self) -> (r: &X)
        ensures
            *r == self.spec_extractor(),
    {
        &self.extractor
    }
}

/// Creates a new extract operation.
///
/// The op will extract the structured data from the input using the provided `extractor`.
pub fn extract<X, Input, Output>(extractor: X) -> (op: Extract<X, Input, Output>)
    ensures
        op.spec_extractor() == extractor,
{
    Extract::new(extractor)
}

/// An operation that streams the answer of a prompted model.
pub struct StreamingPrompt<P, In> {
    prompt: P,
    _in: PhantomData<In>,
}

impl<P, In> StreamingPrompt<P, In> {
    /// The model that is prompted.
    pub closed spec fn spec_agent(&self) -> P {
        self.prompt
    }

    /// A streaming prompt operation on `prompt`.
    pub fn new(prompt: P) -> (op: Self)
        ensures
            op.spec_agent() == prompt,
    {
        StreamingPrompt { prompt, _in: PhantomData }
    }

    /// The model that is prompted.
    pub fn agent(&self) -> (r: &P)
        ensures
            *r == self.spec_agent(),
    {
        &self.prompt
    }
}

/// An operation that prompts an agent, sends each text chunk of the streamed answer
/// through `sender` as it arrives, and returns the whole answer.
pub struct StreamingPromptWithSender<P, In, S> {
    prompt: P,
    sender: S,
    _in: PhantomData<In>,
}

impl<P, In, S> StreamingPromptWithSender<P, In, S> {
    /// The agent that is prompted.
    pub closed spec fn spec_agent(&self) -> P {
        self.prompt
    }

    /// The sender that the chunks go through.
    pub closed spec fn spec_sender(&self) -> S {
        self.sender
    }

    /// A streaming prompt of `prompt` that sends its chunks through `sender`.
    pub fn new(prompt: P, sender: S) -> (op: Self)
        ensures
            op.spec_agent() == prompt,
            op.spec_sender() == sender,
    {
        StreamingPromptWithSender { prompt, sender, _in: PhantomData }
    }

    /// The agent that is prompted.
    pub fn agent(&self) -> (r: &P)
        ensures
            *r == self.spec_agent(),
    {
        &self.prompt
    }

    /// The sender that the chunks go through.
    pub fn sender(&self) -> (r: &S)
        ensures
            *r == self.spec_sender(),
    {
        &self.sender
    }
}

/// Creates a new streaming prompt operation that sends chunks via a generic sender and
/// returns the final response.
///
/// The op will stream the response from the `model`, send each text chunk via the
/// provided `sender`, and return the final aggregated response as a string.
pub fn streaming_prompt_with_sender<P, In, S>(model: P, sender: S) -> (op: StreamingPromptWithSender<P, In, S>)
    ensures
        op.spec_agent() == model,
        op.spec_sender() == sender,
{
    StreamingPromptWithSender::new(model, sender)
}

} // verus!
