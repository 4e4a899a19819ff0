//! The course of a session: from the first status of the host to its address,
//! and from the events of one response to the turn that is committed.

use std::sync::Arc;
use vstd::prelude::*;
use vstd::string::StringExecFns;

use crate::chat::{ChatThreadInner, ChatWriter, Turn, flushed, signalled};
use crate::client::{ChatResponse, ChatResponseView, DecodeError};
use crate::host::{HostEvent, HostEventView, HostMessage};
use crate::message::{BaseMessageView, MessageFrame};
use crate::shared::{UIActionResult, share};

verus! {

/// Why a session could not start.
#[derive(Debug, Clone, Copy, PartialEq, Eq, Structural)]
pub enum StartupError {
    /// A directory or a configuration file could not be created.
    Directories,
    /// The code of the host could not be provisioned.
    Provisioning,
    /// The host could not be launched.
    Spawn,
    /// The bus file could not be read, or held no status record.
    Bus,
    /// The host reported a status without the address it listens on.
    NoEndpoint,
    /// The host did not answer before the deadline.
    ReadinessTimeout,
}

impl StartupError {
    /// The error in words.
    pub fn message(&self) -> (text: &'static str)
        ensures
            text@ == match *self {
                StartupError::Directories => "Failed to create host directories"@,
                StartupError::Provisioning => "Failed to provision host"@,
                StartupError::Spawn => "Failed to spawn host"@,
                StartupError::Bus => "Failed to read host message"@,
                StartupError::NoEndpoint => "Failed to get host listen"@,
                StartupError::ReadinessTimeout => "timeout"@,
            },
    {
        match self {
            StartupError::Directories => "Failed to create host directories",
            StartupError::Provisioning => "Failed to provision host",
            StartupError::Spawn => "Failed to spawn host",
            StartupError::Bus => "Failed to read host message",
            StartupError::NoEndpoint => "Failed to get host listen",
            StartupError::ReadinessTimeout => "timeout",
        }
    }
}

/// The address that the first event of the bus gives, or the reason why the
/// session cannot start: an error event, or a status that names no address.
pub open spec fn spec_host_endpoint(event: HostEventView) -> Result<(Seq<char>, u16), StartupError> {
    match event {
        HostEventView::BusMessage(message) => match HostMessage::spec_endpoint(message) {
            Some(endpoint) => Ok(endpoint),
            None => Err(StartupError::NoEndpoint),
        },
        HostEventView::Error(_) => Err(StartupError::Bus),
    }
}

/// Takes the address of the host from the first event of the bus.
pub fn host_endpoint(event: &HostEvent) -> (endpoint: Result<(String, u16), StartupError>)
    ensures
        match endpoint {
            Ok((ip, port)) => spec_host_endpoint(event@) == Ok::<(Seq<char>, u16), StartupError>(
                (ip@, port),
            ),
            Err(error) => spec_host_endpoint(event@) == Err::<(Seq<char>, u16), StartupError>(
                error,
            ),
        },
{
    match event {
        HostEvent::BusMessage(message) => match message.endpoint() {
            Some(endpoint) => Ok(endpoint),
            None => Err(StartupError::NoEndpoint),
        },
        HostEvent::Error(_) => Err(StartupError::Bus),
    }
}

/// A message that has all of `message` but another text.
pub open spec fn with_content(message: BaseMessageView, content: Seq<char>) -> BaseMessageView {
    BaseMessageView { content, ..message }
}

/// A message that has all of `message` but another chat.
pub open spec fn with_chat_id(message: BaseMessageView, chat_id: Seq<char>) -> BaseMessageView {
    BaseMessageView { chat_id, ..message }
}

/// A message that has all of `message` but another identifier.
pub open spec fn with_message_id(message: BaseMessageView, message_id: Seq<char>) -> BaseMessageView {
    BaseMessageView { message_id, ..message }
}

/// What stands for the chat of a turn in contracts.
pub open spec fn chat_view(chat_id: Option<Arc<String>>) -> Option<Seq<char>> {
    match chat_id {
        Some(id) => Some(id@),
        None => None,
    }
}

/// What stands for a report to the interface in contracts.
pub enum ReportView {
    End,
    Chat { id: Seq<char>, content: Seq<char> },
}

pub open spec fn report_view(report: Option<UIActionResult>) -> Option<ReportView> {
    match report {
        Some(UIActionResult::End) => Some(ReportView::End),
        Some(UIActionResult::Chat { id, content }) => Some(
            ReportView::Chat { id: id@, content: content@ },
        ),
        None => None,
    }
}

/// One side of a turn after something was written to it: `change` applied to
/// what was there, or to a blank message where the side was absent. The time
/// of creation of a message made on the way is not fixed by this.
pub open spec fn side_becomes(
    before: Option<BaseMessageView>,
    after: Option<BaseMessageView>,
    change: spec_fn(BaseMessageView) -> BaseMessageView,
) -> bool {
    match before {
        Some(message) => after == Some(change(message)),
        None => exists|blank: BaseMessageView| blank.is_blank() && after == Some(change(blank)),
    }
}

/// The start of a turn: the user's text is set as the user message of the
/// writer, whatever the writer held of it before, and the assistant's side is
/// left alone.
pub fn begin_turn(writer: &mut ChatWriter, message: String)
    ensures
        side_becomes(
            old(writer).turn().user,
            final(writer).turn().user,
            |before: BaseMessageView| with_content(before, message@),
        ),
        final(writer).turn().ai == old(writer).turn().ai,
        final(writer).thread_id == old(writer).thread_id,
{
    let ghost change = |before: BaseMessageView| with_content(before, message@);
    let user = writer.mut_user_message();
    let ghost before = user@;
    user.content = message;
    assert(user@ == change(before));
}

/// Takes one event of the response into the turn.
///
/// Text is appended to the assistant's message and reported to the interface,
/// but only once the chat of the turn is known; before that it is dropped.
/// The chat that the host opened is taken where the turn had none, and marks
/// the user's message. Message identifiers go to both messages. Tool calls and
/// tool results leave the turn as it is.
pub fn apply_response(
    writer: &mut ChatWriter,
    chat_id: &mut Option<Arc<String>>,
    response: ChatResponse,
) -> (report: Option<UIActionResult>)
    ensures
        final(writer).thread_id == old(writer).thread_id,
        match response@ {
            ChatResponseView::Text(text) => match chat_view(*old(chat_id)) {
                Some(id) => {
                    &&& final(writer).turn().user == old(writer).turn().user
                    &&& side_becomes(
                        old(writer).turn().ai,
                        final(writer).turn().ai,
                        |before: BaseMessageView| with_content(before, before.content + text),
                    )
                    &&& *final(chat_id) == *old(chat_id)
                    &&& report_view(report) == Some(ReportView::Chat { id, content: text })
                },
                None => {
                    &&& final(writer).turn() == old(writer).turn()
                    &&& *final(chat_id) == *old(chat_id)
                    &&& report is None
                },
            },
            ChatResponseView::ChatInfo(info) => match chat_view(*old(chat_id)) {
                Some(_) => {
                    &&& final(writer).turn() == old(writer).turn()
                    &&& *final(chat_id) == *old(chat_id)
                    &&& report is None
                },
                None => {
                    &&& side_becomes(
                        old(writer).turn().user,
                        final(writer).turn().user,
                        |before: BaseMessageView| with_chat_id(before, info.id),
                    )
                    &&& final(writer).turn().ai == old(writer).turn().ai
                    &&& chat_view(*final(chat_id)) == Some(info.id)
                    &&& report is None
                },
            },
            ChatResponseView::MessageInfo(info) => {
                &&& side_becomes(
                    old(writer).turn().user,
                    final(writer).turn().user,
                    |before: BaseMessageView| with_message_id(before, info.user_message_id),
                )
                &&& side_becomes(
                    old(writer).turn().ai,
                    final(writer).turn().ai,
                    |before: BaseMessageView| with_message_id(before, info.assistant_message_id),
                )
                &&& *final(chat_id) == *old(chat_id)
                &&& report is None
            },
            _ => {
                &&& final(writer).turn() == old(writer).turn()
                &&& *final(chat_id) == *old(chat_id)
                &&& report is None
            },
        },
{
    match response {
        ChatResponse::Text(text) => {
            match chat_id {
                Some(id) => {
                    let ghost change = |before: BaseMessageView|
                        with_content(before, before.content + text@);
                    let ai = writer.mut_ai_message();
                    let ghost before = ai@;
                    ai.content.append(text.as_str());
                    assert(ai@ == change(before));
                    Some(UIActionResult::Chat { id: share(id), content: text })
                },
                None => None,
            }
        },
        ChatResponse::ChatInfo(info) => {
            if chat_id.is_none() {
                let ghost change = |before: BaseMessageView| with_chat_id(before, info.id@);
                let user = writer.mut_user_message();
                let ghost before = user@;
                user.chat_id = info.id.clone();
                assert(user@ == change(before));
                *chat_id = Some(Arc::new(info.id));
            }
            None
        },
        ChatResponse::MessageInfo(info) => {
            let ghost change_user = |before: BaseMessageView|
                with_message_id(before, info.user_message_id@);
            let ghost change_ai = |before: BaseMessageView|
                with_message_id(before, info.assistant_message_id@);
            let user = writer.mut_user_message();
            let ghost before_user = user@;
            user.message_id = info.user_message_id;
            assert(user@ == change_user(before_user));
            let ai = writer.mut_ai_message();
            let ghost before_ai = ai@;
            ai.message_id = info.assistant_message_id;
            assert(ai@ == change_ai(before_ai));
            None
        },
        ChatResponse::ToolCalls(_) => None,
        ChatResponse::ToolResult(_) => None,
    }
}

/// How the response of a turn ended.
#[derive(Debug, Clone, Copy, PartialEq, Eq, Structural)]
pub enum TurnEnd {
    /// The stream ended as the protocol prescribes.
    Completed,
    /// The stream broke off with this error.
    Failed(DecodeError),
}

/// The turn that reaches the history at the end of a response: the gathered
/// one after a stream that ended well, none after one that failed.
pub open spec fn spec_turn_at_end(turn: Turn, end: TurnEnd) -> Turn {
    match end {
        TurnEnd::Completed => turn,
        TurnEnd::Failed(_) => Turn { user: None, ai: None },
    }
}

/// Ends a turn. After a response that ended well the turn is flushed; after
/// one that failed the scratch messages are dropped and the history stays
/// untouched. The writer is left empty either way. Returns the committed
/// frame, if there is one.
pub fn end_turn(
    writer: &mut ChatWriter,
    thread: &mut ChatThreadInner,
    update_flag: &mut bool,
    end: TurnEnd,
) -> (frame: Option<Arc<MessageFrame>>)
    ensures
        final(writer).user_message is None,
        final(writer).ai_message is None,
        final(writer).thread_id is None,
        final(thread).history() == flushed(
            old(thread).history(),
            spec_turn_at_end(old(writer).turn(), end),
        ),
        *final(update_flag) == signalled(
            *old(update_flag),
            spec_turn_at_end(old(writer).turn(), end),
        ),
        end matches TurnEnd::Failed(_) ==> *final(thread) == *old(thread),
        end == TurnEnd::Completed ==> final(thread).id == old(writer).thread_id,
        match frame {
            Some(frame) => {
                &&& spec_turn_at_end(old(writer).turn(), end).is_complete()
                &&& frame@ == old(writer).turn().frame()
                &&& final(thread).messages@ == old(thread).messages@.push(frame)
            },
            None => {
                &&& !spec_turn_at_end(old(writer).turn(), end).is_complete()
                &&& final(thread).messages@ == old(thread).messages@
            },
        },
{
    match end {
        TurnEnd::Completed => {
            let complete = writer.user_message.is_some() && writer.ai_message.is_some();
            let frame = writer.flush(thread, update_flag);
            if complete {
                Some(frame)
            } else {
                None
            }
        },
        TurnEnd::Failed(_) => {
            writer.discard();
            None
        },
    }
}

} // verus!
