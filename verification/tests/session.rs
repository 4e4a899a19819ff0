use std::sync::Arc;

use tive::chat::ChatThread;
use tive::client::{ChatInfo, ChatResponse, DecodeError, MessageInfo, ToolCall, ToolResult};
use tive::host::{HostEvent, HostMessage};
use tive::session::{apply_response, begin_turn, end_turn, host_endpoint, StartupError, TurnEnd};
use tive::shared::UIActionResult;

fn text(content: &str) -> ChatResponse {
    ChatResponse::Text(content.to_string())
}

fn chat_info(id: &str) -> ChatResponse {
    ChatResponse::ChatInfo(ChatInfo { id: id.to_string(), _title: "title".to_string() })
}

#[test]
fn endpoint_comes_from_the_first_status() {
    let record = "{\"timestamp\":\"t\",\"status\":{\"state\":\"UP\"},\"server\":{\"listen\":{\"ip\":\"127.0.0.1\",\"port\":4321}}}";
    let message = HostMessage::parse(record.as_bytes()).unwrap();
    let endpoint = host_endpoint(&HostEvent::BusMessage(message));
    assert_eq!(endpoint, Ok(("127.0.0.1".to_string(), 4321)));
}

#[test]
fn status_without_address_fails_the_start() {
    let record = "{\"timestamp\":\"t\",\"status\":{\"state\":\"INIT\"}}";
    let message = HostMessage::parse(record.as_bytes()).unwrap();
    assert_eq!(host_endpoint(&HostEvent::BusMessage(message)), Err(StartupError::NoEndpoint));
    assert_eq!(host_endpoint(&HostEvent::Error("broken")), Err(StartupError::Bus));
}

#[test]
fn startup_errors_have_their_words() {
    assert_eq!(StartupError::NoEndpoint.message(), "Failed to get host listen");
    assert_eq!(StartupError::ReadinessTimeout.message(), "timeout");
    assert_eq!(StartupError::Bus.message(), "Failed to read host message");
    assert_eq!(StartupError::Directories.message(), "Failed to create host directories");
    assert_eq!(StartupError::Provisioning.message(), "Failed to provision host");
    assert_eq!(StartupError::Spawn.message(), "Failed to spawn host");
}

#[test]
fn turn_starts_with_the_text_of_the_user() {
    let (mut writer, _reader, _thread) = ChatThread::default().split();
    begin_turn(&mut writer, "first".to_string());
    assert_eq!(writer.user_message.as_ref().unwrap().content, "first");
    assert!(writer.ai_message.is_none());
    writer.mut_user_message().chat_id = "c".to_string();
    begin_turn(&mut writer, "second".to_string());
    let user = writer.user_message.as_ref().unwrap();
    assert_eq!(user.content, "second");
    assert_eq!(user.chat_id, "c");
}

#[test]
fn text_before_the_chat_is_known_is_dropped() {
    let (mut writer, _reader, _thread) = ChatThread::default().split();
    let mut chat_id = None;
    assert!(apply_response(&mut writer, &mut chat_id, text("lost")).is_none());
    assert!(writer.ai_message.is_none());
    assert!(chat_id.is_none());
}

#[test]
fn text_is_appended_and_reported_once_the_chat_is_known() {
    let (mut writer, _reader, _thread) = ChatThread::default().split();
    let mut chat_id = Some(Arc::new("c-1".to_string()));
    for part in ["Hel", "lo"] {
        match apply_response(&mut writer, &mut chat_id, text(part)) {
            Some(UIActionResult::Chat { id, content }) => {
                assert_eq!(id.as_str(), "c-1");
                assert_eq!(content, part);
            }
            other => panic!("unexpected {:?}", other),
        }
    }
    assert_eq!(writer.ai_message.as_ref().unwrap().content, "Hello");
    assert!(writer.user_message.is_none());
    assert_eq!(chat_id.as_deref().map(|id| id.as_str()), Some("c-1"));
}

#[test]
fn chat_info_opens_the_chat_of_a_new_turn() {
    let (mut writer, _reader, _thread) = ChatThread::default().split();
    begin_turn(&mut writer, "q".to_string());
    let mut chat_id = None;
    assert!(apply_response(&mut writer, &mut chat_id, chat_info("c-7")).is_none());
    assert_eq!(chat_id.as_deref().map(|id| id.as_str()), Some("c-7"));
    let user = writer.user_message.as_ref().unwrap();
    assert_eq!(user.chat_id, "c-7");
    assert_eq!(user.content, "q");
    assert!(writer.ai_message.is_none());
}

#[test]
fn chat_info_does_not_replace_a_known_chat() {
    let (mut writer, _reader, _thread) = ChatThread::default().split();
    begin_turn(&mut writer, "q".to_string());
    let mut chat_id = Some(Arc::new("old".to_string()));
    assert!(apply_response(&mut writer, &mut chat_id, chat_info("new")).is_none());
    assert_eq!(chat_id.as_deref().map(|id| id.as_str()), Some("old"));
    assert_eq!(writer.user_message.as_ref().unwrap().chat_id, "");
}

#[test]
fn message_info_marks_both_messages() {
    let (mut writer, _reader, _thread) = ChatThread::default().split();
    begin_turn(&mut writer, "q".to_string());
    let mut chat_id = None;
    let info = ChatResponse::MessageInfo(MessageInfo {
        user_message_id: "u-1".to_string(),
        assistant_message_id: "a-1".to_string(),
    });
    assert!(apply_response(&mut writer, &mut chat_id, info).is_none());
    assert_eq!(writer.user_message.as_ref().unwrap().message_id, "u-1");
    assert_eq!(writer.user_message.as_ref().unwrap().content, "q");
    assert_eq!(writer.ai_message.as_ref().unwrap().message_id, "a-1");
    assert_eq!(writer.ai_message.as_ref().unwrap().content, "");
    assert!(chat_id.is_none());
}

#[test]
fn tool_events_leave_the_turn_alone() {
    let (mut writer, _reader, _thread) = ChatThread::default().split();
    let mut chat_id = Some(Arc::new("c".to_string()));
    let calls = ChatResponse::ToolCalls(vec![ToolCall {
        name: "n".to_string(),
        arguments: "{}".to_string(),
    }]);
    let results = ChatResponse::ToolResult(vec![ToolResult {
        name: "n".to_string(),
        result: "r".to_string(),
    }]);
    assert!(apply_response(&mut writer, &mut chat_id, calls).is_none());
    assert!(apply_response(&mut writer, &mut chat_id, results).is_none());
    assert!(writer.user_message.is_none());
    assert!(writer.ai_message.is_none());
}

#[test]
fn completed_turn_is_committed() {
    let (mut writer, mut reader, mut thread) = ChatThread::default().split();
    let mut flag = false;
    begin_turn(&mut writer, "q".to_string());
    let mut chat_id = None;
    apply_response(&mut writer, &mut chat_id, chat_info("c-1"));
    apply_response(&mut writer, &mut chat_id, text("an"));
    apply_response(&mut writer, &mut chat_id, text("swer"));
    writer.thread_id = Some("thread-9".to_string());
    let frame = end_turn(&mut writer, &mut thread, &mut flag, TurnEnd::Completed).unwrap();
    assert!(flag);
    assert_eq!(thread.id.as_deref(), Some("thread-9"));
    assert_eq!(frame.user.body.content, "q");
    assert_eq!(frame.user.body.chat_id, "c-1");
    assert_eq!(frame.ai.body.content, "answer");
    let snapshot = reader.read(&thread, &mut flag);
    assert_eq!(snapshot.len(), 1);
    assert!(Arc::ptr_eq(&snapshot[0], &frame));
}

#[test]
fn completed_turn_without_answer_commits_nothing() {
    let (mut writer, _reader, mut thread) = ChatThread::default().split();
    let mut flag = false;
    begin_turn(&mut writer, "q".to_string());
    thread.id = Some("before".to_string());
    writer.thread_id = Some("after".to_string());
    assert!(end_turn(&mut writer, &mut thread, &mut flag, TurnEnd::Completed).is_none());
    assert_eq!(thread.id.as_deref(), Some("after"));
    assert!(!flag);
    assert!(thread.messages.is_empty());
    assert!(writer.user_message.is_none());
}

#[test]
fn failed_turn_is_discarded_and_history_untouched() {
    let (mut writer, _reader, mut thread) = ChatThread::default().split();
    let mut flag = false;
    begin_turn(&mut writer, "q1".to_string());
    let mut chat_id = Some(Arc::new("c".to_string()));
    apply_response(&mut writer, &mut chat_id, text("a1"));
    end_turn(&mut writer, &mut thread, &mut flag, TurnEnd::Completed);
    thread.id = Some("kept".to_string());
    let mut seen = false;
    for error in [DecodeError::Malformed, DecodeError::Transport] {
        begin_turn(&mut writer, "q2".to_string());
        apply_response(&mut writer, &mut chat_id, text("partial"));
        writer.thread_id = Some("dropped".to_string());
        assert!(end_turn(&mut writer, &mut thread, &mut seen, TurnEnd::Failed(error)).is_none());
        assert!(!seen);
        assert_eq!(thread.messages.len(), 1);
        assert_eq!(thread.messages[0].ai.body.content, "a1");
        assert_eq!(thread.id.as_deref(), Some("kept"));
        assert!(writer.user_message.is_none());
        assert!(writer.ai_message.is_none());
        assert!(writer.thread_id.is_none());
    }
}
