//! The messages of a conversation and the frame that holds one committed
//! exchange.

use vstd::prelude::*;

verus! {

/// What every message carries, whoever wrote it.
#[derive(Debug, Clone)]
pub struct BaseMessage {
    pub id: u32,
    pub created_at: String,
    pub content: String,
    pub chat_id: String,
    pub message_id: String,
}

/// A [`BaseMessage`] as contracts speak of it.
pub struct BaseMessageView {
    pub id: u32,
    pub created_at: Seq<char>,
    pub content: Seq<char>,
    pub chat_id: Seq<char>,
    pub message_id: Seq<char>,
}

impl View for BaseMessage {
    type V = BaseMessageView;

    open spec fn view(&self) -> BaseMessageView {
        BaseMessageView {
            id: self.id,
            created_at: self.created_at@,
            content: self.content@,
            chat_id: self.chat_id@,
            message_id: self.message_id@,
        }
    }
}

impl BaseMessageView {
    /// A message that has its time of creation and nothing else yet.
    pub open spec fn is_blank(self) -> bool {
        &&& self.id == 0
        &&& self.content.len() == 0
        &&& self.chat_id.len() == 0
        &&& self.message_id.len() == 0
    }
}

/// Reads the clock with `chrono::Utc::now` and writes the instant with
/// `DateTime::to_rfc3339_opts`, to the microsecond and with `Z` for the zone.
/// Trusted, and nothing is claimed of the text: it depends on the clock.
/// `Utc::now` does not return on a machine whose clock stands before 1970.
#[verifier::external_body]
fn timestamp_now() -> String {
    chrono::Utc::now().to_rfc3339_opts(chrono::SecondsFormat::Micros, true)
}

impl Default for BaseMessage {
    /// A blank message stamped with the current time.
    fn default() -> (message: Self)
        ensures
            message@.is_blank(),
    {
        BaseMessage {
            id: 0,
            created_at: timestamp_now(),
            content: String::new(),
            chat_id: String::new(),
            message_id: String::new(),
        }
    }
}

/// A tool invocation that the assistant asked for.
#[derive(Debug)]
pub struct ToolCall {
    pub name: String,
    pub id: String,
    pub args: serde_json::Value,
}

pub struct ToolCallView {
    pub name: Seq<char>,
    pub id: Seq<char>,
    pub args: serde_json::Value,
}

impl View for ToolCall {
    type V = ToolCallView;

    open spec fn view(&self) -> ToolCallView {
        ToolCallView { name: self.name@, id: self.id@, args: self.args }
    }
}

impl Clone for ToolCall {
    fn clone(&self) -> (copy: Self)
        ensures
            copy@ == self@,
    {
        ToolCall { name: self.name.clone(), id: self.id.clone(), args: self.args.clone() }
    }
}

/// A message written by the assistant.
#[derive(Debug, Clone)]
pub struct AIMessage {
    pub body: BaseMessage,
    pub tool_calls: Vec<ToolCall>,
    pub files: Vec<String>,
}

pub struct AIMessageView {
    pub body: BaseMessageView,
    pub tool_calls: Seq<ToolCallView>,
    pub files: Seq<Seq<char>>,
}

impl View for AIMessage {
    type V = AIMessageView;

    open spec fn view(&self) -> AIMessageView {
        AIMessageView {
            body: self.body@,
            tool_calls: self.tool_calls@.map_values(|call: ToolCall| call@),
            files: self.files@.map_values(|file: String| file@),
        }
    }
}

impl AIMessageView {
    /// The assistant message that holds `body` and neither tool calls nor files.
    pub open spec fn plain(body: BaseMessageView) -> AIMessageView {
        AIMessageView { body, tool_calls: Seq::empty(), files: Seq::empty() }
    }
}

impl AIMessage {
    /// Wraps `body` as an assistant message without tool calls or files.
    pub fn from_body(body: BaseMessage) -> (message: Self)
        ensures
            message@ == AIMessageView::plain(body@),
    {
        let message = AIMessage { body, tool_calls: Vec::new(), files: Vec::new() };
        assert(message@.tool_calls =~= Seq::empty());
        assert(message@.files =~= Seq::empty());
        message
    }

    /// The assistant message inside `value`, or the reason why there is none.
    pub fn try_from(value: Message) -> (converted: Result<Self, MessageError>)
        ensures
            converted == match value {
                Message::AIMessage(message) => Ok::<AIMessage, MessageError>(message),
                _ => Err(MessageError::ExpectedAIMessage),
            },
    {
        match value {
            Message::AIMessage(message) => Ok(message),
            _ => Err(MessageError::ExpectedAIMessage),
        }
    }
}

impl Default for AIMessage {
    fn default() -> (message: Self)
        ensures
            message@.body.is_blank(),
            message@.tool_calls.len() == 0,
            message@.files.len() == 0,
    {
        AIMessage::from_body(BaseMessage::default())
    }
}

/// A message written by the user.
#[derive(Debug, Clone)]
pub struct UserMessage {
    pub body: BaseMessage,
}

pub struct UserMessageView {
    pub body: BaseMessageView,
}

impl View for UserMessage {
    type V = UserMessageView;

    open spec fn view(&self) -> UserMessageView {
        UserMessageView { body: self.body@ }
    }
}

impl UserMessage {
    /// The user message inside `value`, or the reason why there is none.
    pub fn try_from(value: Message) -> (converted: Result<Self, MessageError>)
        ensures
            converted == match value {
                Message::UserMessage(message) => Ok::<UserMessage, MessageError>(message),
                _ => Err(MessageError::ExpectedUserMessage),
            },
    {
        match value {
            Message::UserMessage(message) => Ok(message),
            _ => Err(MessageError::ExpectedUserMessage),
        }
    }
}

impl Default for UserMessage {
    fn default() -> (message: Self)
        ensures
            message@.body.is_blank(),
    {
        UserMessage { body: BaseMessage::default() }
    }
}

/// What a tool handed back.
#[derive(Debug, Clone)]
pub struct ToolCallResult {
    pub body: BaseMessage,
}

pub struct ToolCallResultView {
    pub body: BaseMessageView,
}

impl View for ToolCallResult {
    type V = ToolCallResultView;

    open spec fn view(&self) -> ToolCallResultView {
        ToolCallResultView { body: self.body@ }
    }
}

impl Default for ToolCallResult {
    fn default() -> (message: Self)
        ensures
            message@.body.is_blank(),
    {
        ToolCallResult { body: BaseMessage::default() }
    }
}

/// A message of any author, told apart by its role.
#[derive(Debug, Clone)]
pub enum Message {
    AIMessage(AIMessage),
    UserMessage(UserMessage),
    ToolCallResult(ToolCallResult),
}

/// Why a [`Message`] could not be taken as the kind that was asked for.
#[derive(Debug, Clone, Copy, PartialEq, Eq, Structural)]
pub enum MessageError {
    ExpectedAIMessage,
    ExpectedUserMessage,
}

impl MessageError {
    /// The error in words.
    pub fn message(&self) -> (text: &'static str)
        ensures
            text@ == match *self {
                MessageError::ExpectedAIMessage => "expected ai message"@,
                MessageError::ExpectedUserMessage => "expected user message"@,
            },
    {
        match self {
            MessageError::ExpectedAIMessage => "expected ai message",
            MessageError::ExpectedUserMessage => "expected user message",
        }
    }
}

/// One committed exchange: what the user asked and what the assistant answered.
#[derive(Debug, Clone)]
pub struct MessageFrame {
    pub ai: AIMessage,
    pub user: UserMessage,
}

pub struct MessageFrameView {
    pub ai: AIMessageView,
    pub user: UserMessageView,
}

impl View for MessageFrame {
    type V = MessageFrameView;

    open spec fn view(&self) -> MessageFrameView {
        MessageFrameView { ai: self.ai@, user: self.user@ }
    }
}

impl MessageFrameView {
    /// The frame that commits the two scratch messages of one turn.
    pub open spec fn of_turn(user: BaseMessageView, ai: BaseMessageView) -> MessageFrameView {
        MessageFrameView { ai: AIMessageView::plain(ai), user: UserMessageView { body: user } }
    }

    /// A frame with two blank sides, as handed out where nothing was committed.
    pub open spec fn is_blank(self) -> bool {
        &&& self.user.body.is_blank()
        &&& self.ai.body.is_blank()
        &&& self.ai.tool_calls.len() == 0
        &&& self.ai.files.len() == 0
    }
}

impl MessageFrame {
    /// Both sides of the exchange, the user's first.
    pub fn split_ref(&self) -> (sides: (&UserMessage, &AIMessage))
        ensures
            *sides.0 == self.user,
            *sides.1 == self.ai,
    {
        (&self.user, &self.ai)
    }
}

impl Default for MessageFrame {
    fn default() -> (frame: Self)
        ensures
            frame@.is_blank(),
    {
        MessageFrame { ai: AIMessage::default(), user: UserMessage::default() }
    }
}

} // verus!
