//! The chat protocol of the host: the request of one turn, the events that the
//! chunked response decodes to, and the readiness probe that gates all chat
//! traffic.

use vstd::prelude::*;
use vstd::string::StringExecFns;
use vstd::string::StringSliceAdditionalSpecFns;
use vstd::utf8::encode_utf8;

use crate::json::{
    items, json_document, json_items, json_member, json_member_text, json_text, member,
    member_text, parse_document, text,
};
use crate::text::{decimal, decimal_string, same_text};

verus! {

/// The chat that the host opened for a turn.
#[derive(Debug)]
pub struct ChatInfo {
    pub id: String,
    pub _title: String,
}

pub struct ChatInfoView {
    pub id: Seq<char>,
    pub title: Seq<char>,
}

impl View for ChatInfo {
    type V = ChatInfoView;

    open spec fn view(&self) -> ChatInfoView {
        ChatInfoView { id: self.id@, title: self._title@ }
    }
}

/// The identifiers that the host gave to the two messages of a turn.
#[derive(Debug)]
pub struct MessageInfo {
    pub user_message_id: String,
    pub assistant_message_id: String,
}

pub struct MessageInfoView {
    pub user_message_id: Seq<char>,
    pub assistant_message_id: Seq<char>,
}

impl View for MessageInfo {
    type V = MessageInfoView;

    open spec fn view(&self) -> MessageInfoView {
        MessageInfoView {
            user_message_id: self.user_message_id@,
            assistant_message_id: self.assistant_message_id@,
        }
    }
}

/// A tool that the assistant calls, with its arguments as text.
#[derive(Debug)]
pub struct ToolCall {
    pub name: String,
    pub arguments: String,
}

pub struct ToolCallView {
    pub name: Seq<char>,
    pub arguments: Seq<char>,
}

impl View for ToolCall {
    type V = ToolCallView;

    open spec fn view(&self) -> ToolCallView {
        ToolCallView { name: self.name@, arguments: self.arguments@ }
    }
}

/// What a tool returned, as text.
#[derive(Debug)]
pub struct ToolResult {
    pub name: String,
    pub result: String,
}

pub struct ToolResultView {
    pub name: Seq<char>,
    pub result: Seq<char>,
}

impl View for ToolResult {
    type V = ToolResultView;

    open spec fn view(&self) -> ToolResultView {
        ToolResultView { name: self.name@, result: self.result@ }
    }
}

/// One event of a streamed chat response.
#[derive(Debug)]
pub enum ChatResponse {
    Text(String),
    ToolCalls(Vec<ToolCall>),
    ToolResult(Vec<ToolResult>),
    ChatInfo(ChatInfo),
    MessageInfo(MessageInfo),
}

pub enum ChatResponseView {
    Text(Seq<char>),
    ToolCalls(Seq<ToolCallView>),
    ToolResult(Seq<ToolResultView>),
    ChatInfo(ChatInfoView),
    MessageInfo(MessageInfoView),
}

impl View for ChatResponse {
    type V = ChatResponseView;

    open spec fn view(&self) -> ChatResponseView {
        match *self {
            ChatResponse::Text(text) => ChatResponseView::Text(text@),
            ChatResponse::ToolCalls(calls) => ChatResponseView::ToolCalls(
                calls@.map_values(|call: ToolCall| call@),
            ),
            ChatResponse::ToolResult(results) => ChatResponseView::ToolResult(
                results@.map_values(|result: ToolResult| result@),
            ),
            ChatResponse::ChatInfo(info) => ChatResponseView::ChatInfo(info@),
            ChatResponse::MessageInfo(info) => ChatResponseView::MessageInfo(info@),
        }
    }
}

/// Why the response of a turn could not be decoded to its end.
#[derive(Debug, Clone, Copy, PartialEq, Eq, Structural)]
pub enum DecodeError {
    /// The transport failed while the response was read.
    Transport,
    /// A chunk did not begin with the prefix, or did not hold the JSON that
    /// the protocol prescribes.
    Malformed,
}

impl DecodeError {
    /// The error in words.
    pub fn message(&self) -> (text: &'static str)
        ensures
            text@ == match *self {
                DecodeError::Transport => "transport failed while the response was read"@,
                DecodeError::Malformed => "chunk does not hold a chat event"@,
            },
    {
        match self {
            DecodeError::Transport => "transport failed while the response was read",
            DecodeError::Malformed => "chunk does not hold a chat event",
        }
    }
}

/// The tool call that an object with the string members `name` and
/// `arguments` stands for.
pub open spec fn spec_tool_call(item: serde_json::Value) -> Option<ToolCallView> {
    match (json_member_text(item, "name"@), json_member_text(item, "arguments"@)) {
        (Some(name), Some(arguments)) => Some(ToolCallView { name, arguments }),
        _ => None,
    }
}

/// The tool result that an object with the string members `name` and `result`
/// stands for.
pub open spec fn spec_tool_result(item: serde_json::Value) -> Option<ToolResultView> {
    match (json_member_text(item, "name"@), json_member_text(item, "result"@)) {
        (Some(name), Some(result)) => Some(ToolResultView { name, result }),
        _ => None,
    }
}

/// The tool calls that an array stands for: every element must be one.
pub open spec fn spec_tool_calls(content: serde_json::Value) -> Option<Seq<ToolCallView>> {
    match json_items(content) {
        Some(elements) => if forall|i: int|
            0 <= i < elements.len() ==> (#[trigger] spec_tool_call(elements[i])) is Some {
            Some(elements.map_values(|item: serde_json::Value| spec_tool_call(item)->0))
        } else {
            None
        },
        None => None,
    }
}

/// The tool results that an array stands for: every element must be one.
pub open spec fn spec_tool_results(content: serde_json::Value) -> Option<Seq<ToolResultView>> {
    match json_items(content) {
        Some(elements) => if forall|i: int|
            0 <= i < elements.len() ==> (#[trigger] spec_tool_result(elements[i])) is Some {
            Some(elements.map_values(|item: serde_json::Value| spec_tool_result(item)->0))
        } else {
            None
        },
        None => None,
    }
}

/// The chat that an object with the string members `id` and `title` stands
/// for.
pub open spec fn spec_chat_info(content: serde_json::Value) -> Option<ChatInfoView> {
    match (json_member_text(content, "id"@), json_member_text(content, "title"@)) {
        (Some(id), Some(title)) => Some(ChatInfoView { id, title }),
        _ => None,
    }
}

/// The identifiers that an object with the string members `userMessageId` and
/// `assistantMessageId` stands for.
pub open spec fn spec_message_info(content: serde_json::Value) -> Option<MessageInfoView> {
    match (
        json_member_text(content, "userMessageId"@),
        json_member_text(content, "assistantMessageId"@),
    ) {
        (Some(user_message_id), Some(assistant_message_id)) => Some(
            MessageInfoView { user_message_id, assistant_message_id },
        ),
        _ => None,
    }
}

/// The event that a JSON value stands for. It must be an object whose member
/// `type` names the variant and whose member `content` holds what the variant
/// carries; anything else is no event.
pub open spec fn spec_response(value: serde_json::Value) -> Option<ChatResponseView> {
    match (json_member_text(value, "type"@), json_member(value, "content"@)) {
        (Some(tag), Some(content)) => {
            if tag == "text"@ {
                match json_text(content) {
                    Some(text) => Some(ChatResponseView::Text(text)),
                    None => None,
                }
            } else if tag == "tool_calls"@ {
                match spec_tool_calls(content) {
                    Some(calls) => Some(ChatResponseView::ToolCalls(calls)),
                    None => None,
                }
            } else if tag == "tool_result"@ {
                match spec_tool_results(content) {
                    Some(results) => Some(ChatResponseView::ToolResult(results)),
                    None => None,
                }
            } else if tag == "chat_info"@ {
                match spec_chat_info(content) {
                    Some(info) => Some(ChatResponseView::ChatInfo(info)),
                    None => None,
                }
            } else if tag == "message_info"@ {
                match spec_message_info(content) {
                    Some(info) => Some(ChatResponseView::MessageInfo(info)),
                    None => None,
                }
            } else {
                None
            }
        },
        _ => None,
    }
}

impl ToolCall {
    /// Reads a tool call from a parsed JSON value.
    pub fn from_json(item: &serde_json::Value) -> (call: Option<Self>)
        ensures
            match call {
                Some(call) => spec_tool_call(*item) == Some(call@),
                None => spec_tool_call(*item) is None,
            },
    {
        match (member_text(item, "name"), member_text(item, "arguments")) {
            (Some(name), Some(arguments)) => Some(
                ToolCall { name: String::from_str(name), arguments: String::from_str(arguments) },
            ),
            _ => None,
        }
    }
}

impl ToolResult {
    /// Reads a tool result from a parsed JSON value.
    pub fn from_json(item: &serde_json::Value) -> (result: Option<Self>)
        ensures
            match result {
                Some(result) => spec_tool_result(*item) == Some(result@),
                None => spec_tool_result(*item) is None,
            },
    {
        match (member_text(item, "name"), member_text(item, "result")) {
            (Some(name), Some(result)) => Some(
                ToolResult { name: String::from_str(name), result: String::from_str(result) },
            ),
            _ => None,
        }
    }
}

impl ChatInfo {
    /// Reads the chat of a turn from a parsed JSON value.
    pub fn from_json(content: &serde_json::Value) -> (info: Option<Self>)
        ensures
            match info {
                Some(info) => spec_chat_info(*content) == Some(info@),
                None => spec_chat_info(*content) is None,
            },
    {
        match (member_text(content, "id"), member_text(content, "title")) {
            (Some(id), Some(title)) => Some(
                ChatInfo { id: String::from_str(id), _title: String::from_str(title) },
            ),
            _ => None,
        }
    }
}

impl MessageInfo {
    /// Reads the message identifiers of a turn from a parsed JSON value.
    pub fn from_json(content: &serde_json::Value) -> (info: Option<Self>)
        ensures
            match info {
                Some(info) => spec_message_info(*content) == Some(info@),
                None => spec_message_info(*content) is None,
            },
    {
        match (member_text(content, "userMessageId"), member_text(content, "assistantMessageId")) {
            (Some(user), Some(assistant)) => Some(
                MessageInfo {
                    user_message_id: String::from_str(user),
                    assistant_message_id: String::from_str(assistant),
                },
            ),
            _ => None,
        }
    }
}

fn tool_calls_from_json(content: &serde_json::Value) -> (calls: Option<Vec<ToolCall>>)
    ensures
        match calls {
            Some(calls) => spec_tool_calls(*content) == Some(
                calls@.map_values(|call: ToolCall| call@),
            ),
            None => spec_tool_calls(*content) is None,
        },
{
    let elements = match items(content) {
        Some(elements) => elements,
        None => {
            return None;
        },
    };
    let mut calls: Vec<ToolCall> = Vec::new();
    let mut i: usize = 0;
    while i < elements.len()
        invariant
            json_items(*content) == Some(elements@),
            i <= elements@.len(),
            calls@.len() == i,
            forall|k: int| 0 <= k < i ==> spec_tool_call(elements@[k]) == Some(#[trigger] calls@[k]@),
        decreases elements@.len() - i,
    {
        match ToolCall::from_json(&elements[i]) {
            Some(call) => {
                calls.push(call);
            },
            None => {
                return None;
            },
        }
        i += 1;
    }
    assert forall|k: int| 0 <= k < elements@.len() implies (#[trigger] spec_tool_call(
        elements@[k],
    )) is Some by {
        assert(spec_tool_call(elements@[k]) == Some(calls@[k]@));
    }
    assert(calls@.map_values(|call: ToolCall| call@) =~= elements@.map_values(
        |item: serde_json::Value| spec_tool_call(item)->0,
    ));
    Some(calls)
}

fn tool_results_from_json(content: &serde_json::Value) -> (results: Option<Vec<ToolResult>>)
    ensures
        match results {
            Some(results) => spec_tool_results(*content) == Some(
                results@.map_values(|result: ToolResult| result@),
            ),
            None => spec_tool_results(*content) is None,
        },
{
    let elements = match items(content) {
        Some(elements) => elements,
        None => {
            return None;
        },
    };
    let mut results: Vec<ToolResult> = Vec::new();
    let mut i: usize = 0;
    while i < elements.len()
        invariant
            json_items(*content) == Some(elements@),
            i <= elements@.len(),
            results@.len() == i,
            forall|k: int|
                0 <= k < i ==> spec_tool_result(elements@[k]) == Some(#[trigger] results@[k]@),
        decreases elements@.len() - i,
    {
        match ToolResult::from_json(&elements[i]) {
            Some(result) => {
                results.push(result);
            },
            None => {
                return None;
            },
        }
        i += 1;
    }
    assert forall|k: int| 0 <= k < elements@.len() implies (#[trigger] spec_tool_result(
        elements@[k],
    )) is Some by {
        assert(spec_tool_result(elements@[k]) == Some(results@[k]@));
    }
    assert(results@.map_values(|result: ToolResult| result@) =~= elements@.map_values(
        |item: serde_json::Value| spec_tool_result(item)->0,
    ));
    Some(results)
}

impl ChatResponse {
    /// Reads one event from a parsed JSON value: the variant that its `type`
    /// names, filled from its `content`.
    pub fn from_json(value: &serde_json::Value) -> (event: Option<Self>)
        ensures
            match event {
                Some(event) => spec_response(*value) == Some(event@),
                None => spec_response(*value) is None,
            },
    {
        let (tag, content) = match (member_text(value, "type"), member(value, "content")) {
            (Some(tag), Some(content)) => (tag, content),
            _ => {
                return None;
            },
        };
        if same_text(tag, "text") {
            match text(content) {
                Some(text) => Some(ChatResponse::Text(String::from_str(text))),
                None => None,
            }
        } else if same_text(tag, "tool_calls") {
            match tool_calls_from_json(content) {
                Some(calls) => Some(ChatResponse::ToolCalls(calls)),
                None => None,
            }
        } else if same_text(tag, "tool_result") {
            match tool_results_from_json(content) {
                Some(results) => Some(ChatResponse::ToolResult(results)),
                None => None,
            }
        } else if same_text(tag, "chat_info") {
            match ChatInfo::from_json(content) {
                Some(info) => Some(ChatResponse::ChatInfo(info)),
                None => None,
            }
        } else if same_text(tag, "message_info") {
            match MessageInfo::from_json(content) {
                Some(info) => Some(ChatResponse::MessageInfo(info)),
                None => None,
            }
        } else {
            None
        }
    }
}

/// The event inside the body of a chunk: the body is a JSON object whose member
/// `message` is a string, and that string is the JSON of one event.
pub open spec fn spec_event(body: Seq<u8>) -> Option<ChatResponseView> {
    match json_document(body) {
        Some(envelope) => match json_member_text(envelope, "message"@) {
            Some(message) => match json_document(encode_utf8(message)) {
                Some(inner) => spec_response(inner),
                None => None,
            },
            None => None,
        },
        None => None,
    }
}

/// What the decoder hands on, as contracts speak of it.
pub open spec fn outcome_view(outcome: Option<Result<ChatResponse, DecodeError>>) -> Option<
    Result<ChatResponseView, DecodeError>,
> {
    match outcome {
        Some(Ok(event)) => Some(Ok(event@)),
        Some(Err(error)) => Some(Err(error)),
        None => None,
    }
}

/// Decodes the body of a chunk, the part behind the prefix.
pub fn decode_event(body: &[u8]) -> (event: Result<ChatResponse, DecodeError>)
    ensures
        match event {
            Ok(event) => spec_event(body@) == Some(event@),
            Err(error) => error == DecodeError::Malformed && spec_event(body@) is None,
        },
{
    let envelope = match parse_document(body) {
        Ok(envelope) => envelope,
        Err(_) => {
            return Err(DecodeError::Malformed);
        },
    };
    let message = match member_text(&envelope, "message") {
        Some(message) => message,
        None => {
            return Err(DecodeError::Malformed);
        },
    };
    let inner = match parse_document(message.as_bytes()) {
        Ok(inner) => inner,
        Err(_) => {
            return Err(DecodeError::Malformed);
        },
    };
    match ChatResponse::from_json(&inner) {
        Some(event) => Ok(event),
        None => Err(DecodeError::Malformed),
    }
}

/// How many bytes the prefix at the head of each chunk takes.
pub const PREFIX_LEN: usize = 6;

/// The prefix that the protocol writes at the head of each chunk: the bytes of
/// `data: `.
pub open spec fn prefix() -> Seq<u8> {
    seq![0x64u8, 0x61u8, 0x74u8, 0x61u8, 0x3au8, 0x20u8]
}

/// Whether a chunk begins with the prefix, byte for byte.
pub open spec fn has_prefix(chunk: Seq<u8>) -> bool {
    chunk.len() >= PREFIX_LEN && chunk.take(PREFIX_LEN as int) == prefix()
}

/// Tells whether a chunk begins with the prefix.
pub fn starts_with_prefix(chunk: &[u8]) -> (starts: bool)
    ensures
        starts == has_prefix(chunk@),
{
    if chunk.len() < PREFIX_LEN {
        return false;
    }
    let starts = chunk[0] == 0x64 && chunk[1] == 0x61 && chunk[2] == 0x74 && chunk[3] == 0x61
        && chunk[4] == 0x3a && chunk[5] == 0x20;
    proof {
        let head = chunk@.take(PREFIX_LEN as int);
        if starts {
            assert(head =~= prefix());
        } else {
            assert(head[0] == chunk@[0] && head[1] == chunk@[1] && head[2] == chunk@[2]);
            assert(head[3] == chunk@[3] && head[4] == chunk@[4] && head[5] == chunk@[5]);
            assert(prefix()[0] == 0x64 && prefix()[1] == 0x61 && prefix()[2] == 0x74);
            assert(prefix()[3] == 0x61 && prefix()[4] == 0x3a && prefix()[5] == 0x20);
        }
    }
    starts
}

/// A byte with the upper-case ASCII letters folded to lower case.
pub open spec fn lowered(byte: u8) -> u8 {
    if 0x41 <= byte <= 0x5a {
        (byte + 0x20) as u8
    } else {
        byte
    }
}

/// The body that ends a response: `[DONE]` and two line feeds.
pub open spec fn terminator() -> Seq<u8> {
    seq![0x5bu8, 0x44u8, 0x4fu8, 0x4eu8, 0x45u8, 0x5du8, 0x0au8, 0x0au8]
}

/// Whether a body is the terminator, upper and lower case taken as equal.
pub open spec fn is_terminator(body: Seq<u8>) -> bool {
    &&& body.len() == terminator().len()
    &&& forall|i: int| 0 <= i < body.len() ==> lowered(#[trigger] body[i]) == lowered(terminator()[i])
}

fn lower(byte: u8) -> (folded: u8)
    ensures
        folded == lowered(byte),
{
    if 0x41 <= byte && byte <= 0x5a {
        byte + 0x20
    } else {
        byte
    }
}

fn terminator_byte(i: usize) -> (byte: u8)
    requires
        i < 8,
    ensures
        byte == terminator()[i as int],
{
    if i == 0 {
        0x5b
    } else if i == 1 {
        0x44
    } else if i == 2 {
        0x4f
    } else if i == 3 {
        0x4e
    } else if i == 4 {
        0x45
    } else if i == 5 {
        0x5d
    } else {
        0x0a
    }
}

/// Tells whether a body is the terminator.
pub fn ends_stream(body: &[u8]) -> (ends: bool)
    ensures
        ends == is_terminator(body@),
{
    if body.len() != 8 {
        return false;
    }
    let mut i: usize = 0;
    while i < 8
        invariant
            body@.len() == 8,
            i <= 8,
            forall|k: int| 0 <= k < i ==> lowered(#[trigger] body@[k]) == lowered(terminator()[k]),
        decreases 8 - i,
    {
        if lower(body[i]) != lower(terminator_byte(i)) {
            return false;
        }
        i += 1;
    }
    true
}

/// What one chunk of the response means. A chunk shorter than the prefix ends
/// the stream. A chunk that begins with anything but the prefix is a decode
/// error, whatever follows. Behind the prefix, the terminator ends the stream,
/// an event is handed on, and anything else is a decode error.
pub open spec fn spec_chunk(chunk: Seq<u8>) -> Option<Result<ChatResponseView, DecodeError>> {
    if chunk.len() < PREFIX_LEN {
        None
    } else if !has_prefix(chunk) {
        Some(Err(DecodeError::Malformed))
    } else if is_terminator(chunk.skip(PREFIX_LEN as int)) {
        None
    } else {
        match spec_event(chunk.skip(PREFIX_LEN as int)) {
            Some(event) => Some(Ok(event)),
            None => Some(Err(DecodeError::Malformed)),
        }
    }
}

/// Decodes one chunk. `None` ends the stream.
pub fn decode_chunk(chunk: &[u8]) -> (outcome: Option<Result<ChatResponse, DecodeError>>)
    ensures
        outcome_view(outcome) == spec_chunk(chunk@),
{
    if chunk.len() < PREFIX_LEN {
        return None;
    }
    if !starts_with_prefix(chunk) {
        return Some(Err(DecodeError::Malformed));
    }
    let body = vstd::slice::slice_subrange(chunk, PREFIX_LEN, chunk.len());
    assert(body@ =~= chunk@.skip(PREFIX_LEN as int));
    if ends_stream(body) {
        return None;
    }
    Some(decode_event(body))
}

/// What the transport hands to the decoder.
#[derive(Debug)]
pub enum Transport {
    /// The next chunk of the response.
    Chunk(Vec<u8>),
    /// The transport reported an error.
    Failed,
    /// The transport closed the response.
    Closed,
}

pub enum TransportView {
    Chunk(Seq<u8>),
    Failed,
    Closed,
}

impl View for Transport {
    type V = TransportView;

    open spec fn view(&self) -> TransportView {
        match *self {
            Transport::Chunk(bytes) => TransportView::Chunk(bytes@),
            Transport::Failed => TransportView::Failed,
            Transport::Closed => TransportView::Closed,
        }
    }
}

/// The decoder of one response. It hands on the events of the chunks in their
/// order until the stream ends or fails, and nothing after that.
#[derive(Debug)]
pub struct ChatResponseStream {
    finished: bool,
}

/// What the decoder makes of one input: whether it is finished afterwards, and
/// what it hands on.
pub open spec fn spec_next(finished: bool, input: TransportView) -> (
    bool,
    Option<Result<ChatResponseView, DecodeError>>,
) {
    if finished {
        (true, None)
    } else {
        match input {
            TransportView::Closed => (true, None),
            TransportView::Failed => (true, Some(Err(DecodeError::Transport))),
            TransportView::Chunk(chunk) => match spec_chunk(chunk) {
                Some(Ok(event)) => (false, Some(Ok(event))),
                other => (true, other),
            },
        }
    }
}

/// What the decoder hands on for each of `inputs`, from a state given by
/// `finished`.
pub open spec fn spec_outputs(finished: bool, inputs: Seq<TransportView>) -> Seq<
    Option<Result<ChatResponseView, DecodeError>>,
>
    decreases inputs.len(),
{
    if inputs.len() == 0 {
        Seq::empty()
    } else {
        let (then_finished, output) = spec_next(finished, inputs.first());
        seq![output] + spec_outputs(then_finished, inputs.drop_first())
    }
}

impl ChatResponseStream {
    /// Whether the stream has ended or failed.
    pub closed spec fn finished(&self) -> bool {
        self.finished
    }

    /// A decoder at the start of a response.
    pub fn new() -> (stream: Self)
        ensures
            !stream.finished(),
    {
        ChatResponseStream { finished: false }
    }

    /// Whether the stream has ended or failed.
    pub fn is_finished(&self) -> (finished: bool)
        ensures
            finished == self.finished(),
    {
        self.finished
    }

    /// Takes the next input of the transport. `Some(Ok(..))` is the next
    /// event; `Some(Err(..))` ends the stream with an error; `None` ends it,
    /// and is the answer to every input after the end.
    pub fn next(&mut self, input: &Transport) -> (outcome: Option<Result<ChatResponse, DecodeError>>)
        ensures
            (final(self).finished(), outcome_view(outcome)) == spec_next(
                old(self).finished(),
                input@,
            ),
    {
        if self.finished {
            return None;
        }
        match input {
            Transport::Closed => {
                self.finished = true;
                None
            },
            Transport::Failed => {
                self.finished = true;
                Some(Err(DecodeError::Transport))
            },
            Transport::Chunk(chunk) => {
                let outcome = decode_chunk(chunk.as_slice());
                match outcome {
                    Some(Ok(_)) => {},
                    _ => {
                        self.finished = true;
                    },
                }
                outcome
            },
        }
    }
}

/// The decoder answers each input once.
pub proof fn lemma_one_output_per_input(finished: bool, inputs: Seq<TransportView>)
    ensures
        spec_outputs(finished, inputs).len() == inputs.len(),
    decreases inputs.len(),
{
    if inputs.len() > 0 {
        lemma_one_output_per_input(spec_next(finished, inputs.first()).0, inputs.drop_first());
    }
}

/// A finished decoder stays silent whatever it is given.
pub proof fn lemma_silent_when_finished(inputs: Seq<TransportView>, i: int)
    requires
        0 <= i < inputs.len(),
    ensures
        spec_outputs(true, inputs)[i] is None,
    decreases inputs.len(),
{
    let rest = spec_outputs(true, inputs.drop_first());
    lemma_one_output_per_input(true, inputs.drop_first());
    assert(spec_outputs(true, inputs) == seq![None] + rest);
    if i > 0 {
        lemma_silent_when_finished(inputs.drop_first(), i - 1);
        assert(spec_outputs(true, inputs)[i] == rest[i - 1]);
    }
}

/// No event follows the end of the stream or an error: once the decoder has
/// handed on anything but an event, it hands on nothing more.
pub proof fn lemma_nothing_after_the_end(inputs: Seq<TransportView>, i: int, j: int)
    requires
        0 <= i < j < inputs.len(),
        !(spec_outputs(false, inputs)[i] matches Some(Ok(_))),
    ensures
        spec_outputs(false, inputs)[j] is None,
    decreases inputs.len(),
{
    let (then_finished, output) = spec_next(false, inputs.first());
    let rest = spec_outputs(then_finished, inputs.drop_first());
    lemma_one_output_per_input(then_finished, inputs.drop_first());
    assert(spec_outputs(false, inputs) == seq![output] + rest);
    assert(spec_outputs(false, inputs)[j] == rest[j - 1]);
    if then_finished {
        lemma_silent_when_finished(inputs.drop_first(), j - 1);
    } else {
        assert(output matches Some(Ok(_)));
        assert(spec_outputs(false, inputs)[i] == rest[i - 1]);
        lemma_nothing_after_the_end(inputs.drop_first(), i - 1, j - 1);
    }
}

/// The path that takes a chat turn.
pub const CHAT_PATH: &'static str = "api/chat";

/// The path that answers while the host is alive.
pub const PING_PATH: &'static str = "ping";

/// How long to wait after an unanswered liveness request, in milliseconds.
pub const PING_INTERVAL_MS: u64 = 50;

/// How long the host has to answer at all, in milliseconds.
pub const READY_DEADLINE_MS: u64 = 1000;

/// Where the readiness probe of a client stands.
#[derive(Debug, Clone, Copy, PartialEq, Eq, Structural)]
pub enum ProbeState {
    /// No liveness request was answered yet and the deadline has not passed.
    Waiting,
    /// A liveness request was answered in time.
    Ready,
    /// The deadline passed first. This is final.
    TimedOut,
}

/// What happened while the probe was waiting.
#[derive(Debug, Clone, Copy, PartialEq, Eq, Structural)]
pub enum ProbeEvent {
    /// A liveness request was answered.
    Answered,
    /// A liveness request failed.
    Unanswered,
    /// The deadline passed.
    DeadlineElapsed,
}

/// What the caller of the probe does next.
#[derive(Debug, Clone, Copy, PartialEq, Eq, Structural)]
pub enum ProbeAction {
    /// The host is serving: chat traffic may start.
    Proceed,
    /// Ask again after this many milliseconds.
    RetryAfter(u64),
    /// The host did not answer in time: the session must end.
    GiveUp,
}

/// The probe after one event. Only a waiting probe moves.
pub open spec fn spec_probe(state: ProbeState, event: ProbeEvent) -> ProbeState {
    match state {
        ProbeState::Waiting => match event {
            ProbeEvent::Answered => ProbeState::Ready,
            ProbeEvent::Unanswered => ProbeState::Waiting,
            ProbeEvent::DeadlineElapsed => ProbeState::TimedOut,
        },
        settled => settled,
    }
}

/// The probe after `events`, taken in order.
pub open spec fn spec_probe_all(state: ProbeState, events: Seq<ProbeEvent>) -> ProbeState
    decreases events.len(),
{
    if events.len() == 0 {
        state
    } else {
        spec_probe_all(spec_probe(state, events.first()), events.drop_first())
    }
}

/// What to do in a state of the probe.
pub open spec fn spec_probe_action(state: ProbeState) -> ProbeAction {
    match state {
        ProbeState::Waiting => ProbeAction::RetryAfter(PING_INTERVAL_MS),
        ProbeState::Ready => ProbeAction::Proceed,
        ProbeState::TimedOut => ProbeAction::GiveUp,
    }
}

/// The address of a request: scheme, host, port and path.
pub open spec fn spec_url(ip: Seq<char>, port: u16, path: Seq<char>) -> Seq<char> {
    "http://"@ + ip + ":"@ + decimal(port as nat) + "/"@ + path
}

/// The form of a chat turn: the message, then the chat it continues if there
/// is one.
pub open spec fn spec_form(message: Seq<char>, chat_id: Option<Seq<char>>) -> Seq<
    (Seq<char>, Seq<char>),
> {
    match chat_id {
        Some(id) => seq![("message"@, message), ("chatId"@, id)],
        None => seq![("message"@, message)],
    }
}

/// One chat turn as it goes to the host: a form posted to an address.
#[derive(Debug)]
pub struct ChatRequest {
    pub url: String,
    pub form: Vec<(String, String)>,
}

impl ChatRequest {
    /// The fields of the form, in order.
    pub open spec fn fields(&self) -> Seq<(Seq<char>, Seq<char>)> {
        self.form@.map_values(|field: (String, String)| (field.0@, field.1@))
    }
}

/// The client of one host. It gives out chat requests only after its
/// readiness probe has succeeded.
#[derive(Debug)]
pub struct ChatClient {
    ip: String,
    port: u16,
    probe: ProbeState,
}

impl ChatClient {
    pub closed spec fn ip(&self) -> Seq<char> {
        self.ip@
    }

    pub closed spec fn port(&self) -> u16 {
        self.port
    }

    /// Where the readiness probe stands.
    pub closed spec fn probe(&self) -> ProbeState {
        self.probe
    }

    /// A client of the host that listens at `ip` and `port`, not yet known to
    /// be serving.
    pub fn new(ip: String, port: u16) -> (client: Self)
        ensures
            client.ip() == ip@,
            client.port() == port,
            client.probe() == ProbeState::Waiting,
    {
        ChatClient { ip, port, probe: ProbeState::Waiting }
    }

    /// The address of `path` on the host.
    #[inline]
    pub fn url(&self, path: &str) -> (url: String)
        ensures
            url@ == spec_url(self.ip(), self.port(), path@),
    {
        let mut url = String::from_str("http://");
        url.append(self.ip.as_str());
        url.append(":");
        let port = decimal_string(self.port);
        url.append(port.as_str());
        url.append("/");
        url.append(path);
        url
    }

    /// Where the readiness probe stands.
    pub fn probe_state(&self) -> (state: ProbeState)
        ensures
            state == self.probe(),
    {
        self.probe
    }

    /// Takes what happened to the latest liveness request, or the passing of
    /// the deadline, and says what to do next. The first answer makes the
    /// client ready; the deadline, where it comes first, ends the probe for
    /// good.
    pub fn wait_for_server(&mut self, event: ProbeEvent) -> (action: ProbeAction)
        ensures
            final(self).probe() == spec_probe(old(self).probe(), event),
            final(self).ip() == old(self).ip(),
            final(self).port() == old(self).port(),
            action == spec_probe_action(final(self).probe()),
    {
        match self.probe {
            ProbeState::Waiting => {
                match event {
                    ProbeEvent::Answered => {
                        self.probe = ProbeState::Ready;
                    },
                    ProbeEvent::Unanswered => {},
                    ProbeEvent::DeadlineElapsed => {
                        self.probe = ProbeState::TimedOut;
                    },
                }
            },
            _ => {},
        }
        match self.probe {
            ProbeState::Waiting => ProbeAction::RetryAfter(PING_INTERVAL_MS),
            ProbeState::Ready => ProbeAction::Proceed,
            ProbeState::TimedOut => ProbeAction::GiveUp,
        }
    }

    /// Opens one chat turn: the request to post and the decoder of its
    /// response. A client that is not ready gives `None`.
    pub fn chat_stream(&self, message: &str, chat_id: Option<&str>) -> (turn: Option<
        (ChatRequest, ChatResponseStream),
    >)
        ensures
            match turn {
                Some((request, stream)) => {
                    &&& self.probe() == ProbeState::Ready
                    &&& request.url@ == spec_url(self.ip(), self.port(), CHAT_PATH@)
                    &&& request.fields() == spec_form(
                        message@,
                        match chat_id {
                            Some(id) => Some(id@),
                            None => None,
                        },
                    )
                    &&& !stream.finished()
                },
                None => self.probe() != ProbeState::Ready,
            },
    {
        match self.probe {
            ProbeState::Ready => {},
            _ => {
                return None;
            },
        }
        let mut form: Vec<(String, String)> = Vec::new();
        form.push((String::from_str("message"), String::from_str(message)));
        match chat_id {
            Some(id) => {
                form.push((String::from_str("chatId"), String::from_str(id)));
            },
            None => {},
        }
        let request = ChatRequest { url: self.url(CHAT_PATH), form };
        assert(request.fields() =~= spec_form(
            message@,
            match chat_id {
                Some(id) => Some(id@),
                None => None,
            },
        ));
        Some((request, ChatResponseStream::new()))
    }
}

/// Where no liveness request is answered before the deadline passes, the probe
/// ends timed out, whatever happens afterwards; a client in that state gives
/// out no chat request.
pub proof fn lemma_deadline_without_answer(events: Seq<ProbeEvent>, deadline: int)
    requires
        0 <= deadline < events.len(),
        events[deadline] == ProbeEvent::DeadlineElapsed,
        forall|i: int| 0 <= i < deadline ==> events[i] != ProbeEvent::Answered,
    ensures
        spec_probe_all(ProbeState::Waiting, events) == ProbeState::TimedOut,
        spec_probe_action(spec_probe_all(ProbeState::Waiting, events)) == ProbeAction::GiveUp,
    decreases events.len(),
{
    if deadline == 0 {
        lemma_settled_probe_stays(ProbeState::TimedOut, events.drop_first());
    } else {
        let rest = events.drop_first();
        assert(events[0] != ProbeEvent::Answered);
        assert(rest[deadline - 1] == events[deadline]);
        assert forall|i: int| 0 <= i < deadline - 1 implies rest[i] != ProbeEvent::Answered by {
            assert(rest[i] == events[i + 1]);
        }
        if events[0] == ProbeEvent::DeadlineElapsed {
            lemma_settled_probe_stays(ProbeState::TimedOut, rest);
        } else {
            lemma_deadline_without_answer(rest, deadline - 1);
        }
    }
}

/// A probe that is ready or timed out is moved by nothing.
pub proof fn lemma_settled_probe_stays(state: ProbeState, events: Seq<ProbeEvent>)
    requires
        state != ProbeState::Waiting,
    ensures
        spec_probe_all(state, events) == state,
    decreases events.len(),
{
    if events.len() > 0 {
        lemma_settled_probe_stays(state, events.drop_first());
    }
}

} // verus!
