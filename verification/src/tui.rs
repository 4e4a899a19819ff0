//! Input modes of the interface and the decisions taken on each key, each
//! report of the session and each frame.

use std::sync::Arc;
use vstd::prelude::*;
use vstd::string::StringExecFns;

use crate::host::{MCP_CONFIG_FILE, MODEL_CONFIG_FILE};
use crate::message::{AIMessage, AIMessageView, MessageFrame, UserMessage, UserMessageView};
use crate::session::chat_view;
use crate::shared::{UIActionResult, share};
use crate::text::{join_path, joined};
use crate::widget::message::{BorderColor, MessageState, Rect, spec_scroll_down};

verus! {

/// The mode that decides how the next key is read.
#[derive(Debug, Clone, Copy, PartialEq, Eq, Structural)]
pub enum InputMode {
    Normal,
    Insert,
    Leader,
    EditFile,
}

impl Default for InputMode {
    fn default() -> (mode: Self)
        ensures
            mode == InputMode::Normal,
    {
        InputMode::Normal
    }
}

/// The time between two frames of the animation, in microseconds: a sixtieth
/// of a second.
pub const FRAME_MICROS: u64 = 16666;

/// A key, as far as the interface tells keys apart.
#[derive(Debug, Clone, Copy, PartialEq, Eq, Structural)]
pub enum KeyCode {
    Char(char),
    Esc,
    Enter,
    Other,
}

/// A key press, with or without the control key held.
#[derive(Debug, Clone, Copy, PartialEq, Eq, Structural)]
pub struct KeyEvent {
    pub code: KeyCode,
    pub control: bool,
}

/// What the terminal reports.
#[derive(Debug, Clone, Copy, PartialEq, Eq, Structural)]
pub enum Event {
    Key(KeyEvent),
    Other,
}

/// What the interface asks of itself.
#[derive(Debug, Clone)]
pub enum TuiInnerAction {
    OpenEditor(String),
    ForceRender,
}

/// What is left to do after a key was taken.
#[derive(Debug)]
pub enum KeyOutcome {
    /// Nothing.
    Nothing,
    /// Hand the key to the input box.
    Edit,
    /// Send this message to the session, for the chat named if there is one,
    /// and clear the input box.
    Submit { id: Option<Arc<String>>, message: String },
    /// Open this file in the editor.
    OpenEditor(String),
}

pub enum KeyOutcomeView {
    Nothing,
    Edit,
    Submit { id: Option<Seq<char>>, message: Seq<char> },
    OpenEditor(Seq<char>),
}

impl View for KeyOutcome {
    type V = KeyOutcomeView;

    open spec fn view(&self) -> KeyOutcomeView {
        match *self {
            KeyOutcome::Nothing => KeyOutcomeView::Nothing,
            KeyOutcome::Edit => KeyOutcomeView::Edit,
            KeyOutcome::Submit { id, message } => KeyOutcomeView::Submit {
                id: chat_view(id),
                message: message@,
            },
            KeyOutcome::OpenEditor(path) => KeyOutcomeView::OpenEditor(path@),
        }
    }
}

/// The state of the interface.
#[derive(Debug)]
pub struct Tui {
    pub mode: InputMode,
    pub quit: bool,
    pub user_message: UserMessage,
    pub ai_message: AIMessage,
    pub streaming: bool,
    pub message_state: MessageState,
    pub ct_index: usize,
    pub thread_len: usize,
    pub chat_id: Option<Arc<String>>,
    pub config_dir: String,
}

pub struct TuiView {
    pub mode: InputMode,
    pub quit: bool,
    pub user_message: UserMessageView,
    pub ai_message: AIMessageView,
    pub streaming: bool,
    pub message_state: MessageState,
    pub ct_index: usize,
    pub thread_len: usize,
    pub chat_id: Option<Seq<char>>,
    pub config_dir: Seq<char>,
}

impl View for Tui {
    type V = TuiView;

    open spec fn view(&self) -> TuiView {
        TuiView {
            mode: self.mode,
            quit: self.quit,
            user_message: self.user_message@,
            ai_message: self.ai_message@,
            streaming: self.streaming,
            message_state: self.message_state,
            ct_index: self.ct_index,
            thread_len: self.thread_len,
            chat_id: chat_view(self.chat_id),
            config_dir: self.config_dir@,
        }
    }
}

/// The user message with another text.
pub open spec fn user_with_content(message: UserMessageView, content: Seq<char>) -> UserMessageView {
    UserMessageView { body: crate::session::with_content(message.body, content) }
}

/// The assistant message with another text.
pub open spec fn ai_with_content(message: AIMessageView, content: Seq<char>) -> AIMessageView {
    AIMessageView { body: crate::session::with_content(message.body, content), ..message }
}

/// The view of the exchange, back at the top.
pub open spec fn scrolled_to_top(state: MessageState) -> MessageState {
    MessageState { scroll_y: 0, ..state }
}

impl TuiView {
    /// The interface after a key in normal mode: `q` quits; `i` and `a` start
    /// typing unless a response streams in; `j` and `k` scroll; control with
    /// `n` goes to the next newer exchange and control with `p` to the next
    /// older one if there is one, both from the top; space awaits a second
    /// key. Any other key changes nothing.
    pub open spec fn normal_key(self, key: KeyEvent) -> TuiView {
        match key.code {
            KeyCode::Char(c) => if c == 'q' {
                TuiView { quit: true, ..self }
            } else if c == 'i' || c == 'a' {
                if self.streaming {
                    self
                } else {
                    TuiView { mode: InputMode::Insert, ..self }
                }
            } else if c == 'j' {
                TuiView {
                    message_state: MessageState {
                        scroll_y: spec_scroll_down(
                            self.message_state.scroll_y,
                            self.message_state.viewport.height,
                            self.message_state.content_height,
                        ),
                        ..self.message_state
                    },
                    ..self
                }
            } else if c == 'k' {
                TuiView {
                    message_state: MessageState {
                        scroll_y: if self.message_state.scroll_y == 0 {
                            0
                        } else {
                            (self.message_state.scroll_y - 1) as u16
                        },
                        ..self.message_state
                    },
                    ..self
                }
            } else if c == 'n' && key.control {
                TuiView {
                    message_state: scrolled_to_top(self.message_state),
                    ct_index: if self.ct_index == 0 {
                        0
                    } else {
                        (self.ct_index - 1) as usize
                    },
                    ..self
                }
            } else if c == 'p' && key.control {
                TuiView {
                    message_state: scrolled_to_top(self.message_state),
                    ct_index: if self.ct_index + 1 < self.thread_len {
                        (self.ct_index + 1) as usize
                    } else {
                        self.ct_index
                    },
                    ..self
                }
            } else if c == ' ' {
                TuiView { mode: InputMode::Leader, ..self }
            } else {
                self
            },
            _ => self,
        }
    }

    /// Whether the enter key sends the text of the input box: not while a
    /// response streams in, and not an empty text.
    pub open spec fn sends(self, input: Seq<char>) -> bool {
        !self.streaming && input.len() > 0
    }

    /// The interface after a key in insert mode: escape leaves the mode;
    /// enter sends the text of the input box, which starts a new exchange at
    /// the top of the view; any other key goes to the input box.
    pub open spec fn insert_key(self, key: KeyEvent, input: Seq<char>) -> TuiView {
        match key.code {
            KeyCode::Esc => TuiView { mode: InputMode::Normal, ..self },
            KeyCode::Enter => if self.sends(input) {
                TuiView {
                    mode: InputMode::Normal,
                    streaming: true,
                    message_state: scrolled_to_top(self.message_state),
                    user_message: user_with_content(self.user_message, input),
                    ai_message: ai_with_content(self.ai_message, Seq::empty()),
                    ..self
                }
            } else {
                self
            },
            _ => self,
        }
    }

    /// What is left to do after a key in insert mode.
    pub open spec fn insert_outcome(self, key: KeyEvent, input: Seq<char>) -> KeyOutcomeView {
        match key.code {
            KeyCode::Esc => KeyOutcomeView::Nothing,
            KeyCode::Enter => if self.sends(input) {
                KeyOutcomeView::Submit { id: self.chat_id, message: input }
            } else {
                KeyOutcomeView::Nothing
            },
            _ => KeyOutcomeView::Edit,
        }
    }

    /// The interface after the key that follows space: `e` awaits the choice
    /// of a file; any other key is taken as in normal mode.
    pub open spec fn leader_key(self, key: KeyEvent) -> TuiView {
        if key.code == KeyCode::Char('e') {
            TuiView { mode: InputMode::EditFile, ..self }
        } else {
            (TuiView { mode: InputMode::Normal, ..self }).normal_key(key)
        }
    }

    /// The interface after the key that chooses a file: the mode is normal
    /// again, and any key but `m` and `s` is taken as in normal mode.
    pub open spec fn edit_file_key(self, key: KeyEvent) -> TuiView {
        let back = TuiView { mode: InputMode::Normal, ..self };
        if key.code == KeyCode::Char('m') || key.code == KeyCode::Char('s') {
            back
        } else {
            back.normal_key(key)
        }
    }

    /// What is left to do after the key that chooses a file: `m` opens the
    /// model configuration and `s` the tool configuration.
    pub open spec fn edit_file_outcome(self, key: KeyEvent) -> KeyOutcomeView {
        if key.code == KeyCode::Char('m') {
            KeyOutcomeView::OpenEditor(joined(self.config_dir, MODEL_CONFIG_FILE@))
        } else if key.code == KeyCode::Char('s') {
            KeyOutcomeView::OpenEditor(joined(self.config_dir, MCP_CONFIG_FILE@))
        } else {
            KeyOutcomeView::Nothing
        }
    }

    /// The interface after an event of the terminal: a key is taken by the
    /// rule of the current mode, anything else is ignored.
    pub open spec fn input_event(self, event: Event, input: Seq<char>) -> TuiView {
        match event {
            Event::Key(key) => match self.mode {
                InputMode::Insert => self.insert_key(key, input),
                InputMode::Leader => self.leader_key(key),
                InputMode::EditFile => self.edit_file_key(key),
                InputMode::Normal => self.normal_key(key),
            },
            Event::Other => self,
        }
    }

    /// What is left to do after an event of the terminal.
    pub open spec fn input_outcome(self, event: Event, input: Seq<char>) -> KeyOutcomeView {
        match event {
            Event::Key(key) => match self.mode {
                InputMode::Insert => self.insert_outcome(key, input),
                InputMode::EditFile => self.edit_file_outcome(key),
                _ => KeyOutcomeView::Nothing,
            },
            Event::Other => KeyOutcomeView::Nothing,
        }
    }

    /// The interface after a report of the session: text is appended to the
    /// assistant's message and its chat becomes the current one; the end of a
    /// response stops the streaming, and a view that shows an older exchange
    /// moves one on so that it goes on showing the same one.
    pub open spec fn session_report(self, id: Option<Seq<char>>, content: Seq<char>) -> TuiView {
        match id {
            Some(id) => TuiView {
                ai_message: ai_with_content(self.ai_message, self.ai_message.body.content + content),
                chat_id: Some(id),
                ..self
            },
            None => TuiView {
                streaming: false,
                ct_index: if 0 < self.ct_index < usize::MAX {
                    (self.ct_index + 1) as usize
                } else {
                    self.ct_index
                },
                ..self
            },
        }
    }
}

/// The colour of the input box: light green while a response streams in or
/// text is typed, else blue.
pub open spec fn spec_input_color(streaming: bool, mode: InputMode) -> BorderColor {
    if streaming || mode == InputMode::Insert {
        BorderColor::LightGreen
    } else {
        BorderColor::Blue
    }
}

impl Tui {
    /// An interface in normal mode that shows nothing yet. `config_dir` is
    /// where the configuration files of the host lie.
    pub fn new(config_dir: String) -> (tui: Self)
        ensures
            tui@.mode == InputMode::Normal,
            !tui@.quit,
            !tui@.streaming,
            tui@.ct_index == 0,
            tui@.thread_len == 0,
            tui@.chat_id is None,
            tui@.config_dir == config_dir@,
            tui@.message_state == MessageState::empty(Rect { x: 0, y: 0, width: 0, height: 0 }),
            tui@.user_message.body.is_blank(),
            tui@.ai_message.body.is_blank(),
    {
        Tui {
            mode: InputMode::default(),
            quit: false,
            user_message: UserMessage::default(),
            ai_message: AIMessage::default(),
            streaming: false,
            message_state: MessageState::new(Rect { x: 0, y: 0, width: 0, height: 0 }),
            ct_index: 0,
            thread_len: 0,
            chat_id: None,
            config_dir,
        }
    }

    /// The colour of the input box.
    pub fn tick_input_state(&self) -> (color: BorderColor)
        ensures
            color == spec_input_color(self.streaming, self.mode),
    {
        if self.streaming {
            BorderColor::LightGreen
        } else {
            match self.mode {
                InputMode::Insert => BorderColor::LightGreen,
                _ => BorderColor::Blue,
            }
        }
    }

    /// Takes an event of the terminal. `input` is the text of the input box.
    #[inline]
    pub fn handle_input_event(&mut self, event: Event, input: &str) -> (outcome: KeyOutcome)
        ensures
            final(self)@ == old(self)@.input_event(event, input@),
            outcome@ == old(self)@.input_outcome(event, input@),
    {
        match event {
            Event::Key(key) => match self.mode {
                InputMode::Insert => self.handle_insert_key_event(key, input),
                InputMode::Leader => {
                    self.handle_leader_key_event(key);
                    KeyOutcome::Nothing
                },
                InputMode::EditFile => self.handle_edit_file_key_event(key),
                InputMode::Normal => {
                    self.handle_normal_key_event(key);
                    KeyOutcome::Nothing
                },
            },
            Event::Other => KeyOutcome::Nothing,
        }
    }

    /// Takes a key in normal mode.
    pub fn handle_normal_key_event(&mut self, event: KeyEvent)
        ensures
            final(self)@ == old(self)@.normal_key(event),
    {
        match event.code {
            KeyCode::Char(c) => {
                if c == 'q' {
                    self.quit = true;
                } else if c == 'i' || c == 'a' {
                    if !self.streaming {
                        self.mode = InputMode::Insert;
                    }
                } else if c == 'j' {
                    self.message_state.scroll_down();
                } else if c == 'k' {
                    self.message_state.scroll_up();
                } else if c == 'n' && event.control {
                    self.message_state.reset();
                    if self.ct_index > 0 {
                        self.ct_index = self.ct_index - 1;
                    }
                } else if c == 'p' && event.control {
                    self.message_state.reset();
                    if self.ct_index < usize::MAX && self.ct_index + 1 < self.thread_len {
                        self.ct_index = self.ct_index + 1;
                    }
                } else if c == ' ' {
                    self.mode = InputMode::Leader;
                }
            },
            _ => {},
        }
    }

    /// Takes a key in insert mode. `input` is the text of the input box.
    pub fn handle_insert_key_event(&mut self, event: KeyEvent, input: &str) -> (outcome: KeyOutcome)
        ensures
            final(self)@ == old(self)@.insert_key(event, input@),
            outcome@ == old(self)@.insert_outcome(event, input@),
    {
        match event.code {
            KeyCode::Esc => {
                self.mode = InputMode::Normal;
                KeyOutcome::Nothing
            },
            KeyCode::Enter => {
                if self.streaming || input.is_empty() {
                    return KeyOutcome::Nothing;
                }
                self.message_state.reset();
                self.ai_message.body.content = String::new();
                self.user_message.body.content = String::from_str(input);
                self.streaming = true;
                self.mode = InputMode::Normal;
                let id = match &self.chat_id {
                    Some(id) => Some(share(id)),
                    None => None,
                };
                KeyOutcome::Submit { id, message: String::from_str(input) }
            },
            _ => KeyOutcome::Edit,
        }
    }

    /// Takes the key that follows space.
    pub fn handle_leader_key_event(&mut self, event: KeyEvent)
        ensures
            final(self)@ == old(self)@.leader_key(event),
    {
        match event.code {
            KeyCode::Char(c) => {
                if c == 'e' {
                    self.mode = InputMode::EditFile;
                    return ;
                }
            },
            _ => {},
        }
        self.mode = InputMode::Normal;
        self.handle_normal_key_event(event);
    }

    /// Takes the key that chooses a file to edit.
    pub fn handle_edit_file_key_event(&mut self, event: KeyEvent) -> (outcome: KeyOutcome)
        ensures
            final(self)@ == old(self)@.edit_file_key(event),
            outcome@ == old(self)@.edit_file_outcome(event),
    {
        self.mode = InputMode::Normal;
        match event.code {
            KeyCode::Char(c) => {
                if c == 'm' {
                    return KeyOutcome::OpenEditor(
                        join_path(self.config_dir.as_str(), MODEL_CONFIG_FILE),
                    );
                }
                if c == 's' {
                    return KeyOutcome::OpenEditor(
                        join_path(self.config_dir.as_str(), MCP_CONFIG_FILE),
                    );
                }
            },
            _ => {},
        }
        self.handle_normal_key_event(event);
        KeyOutcome::Nothing
    }

    /// Takes a report of the session. After the end of a response the frame
    /// is to be drawn anew.
    pub fn handle_result(&mut self, report: UIActionResult) -> (action: Option<TuiInnerAction>)
        ensures
            match report {
                UIActionResult::Chat { id, content } => {
                    &&& final(self)@ == old(self)@.session_report(Some(id@), content@)
                    &&& action is None
                },
                UIActionResult::End => {
                    &&& final(self)@ == old(self)@.session_report(None, Seq::empty())
                    &&& action matches Some(TuiInnerAction::ForceRender)
                },
            },
    {
        match report {
            UIActionResult::Chat { id, content } => {
                self.ai_message.body.content.append(content.as_str());
                self.chat_id = Some(id);
                None
            },
            UIActionResult::End => {
                self.streaming = false;
                if self.ct_index > 0 && self.ct_index < usize::MAX {
                    self.ct_index = self.ct_index + 1;
                }
                Some(TuiInnerAction::ForceRender)
            },
        }
    }
}

/// Which exchange of the history the view shows: none of it while the history
/// is empty or while a response streams in and the newest is asked for, else
/// the one that lies `index` back from the newest, or the oldest where the
/// history is shorter than that.
pub open spec fn spec_shown(streaming: bool, index: usize, len: nat) -> Option<int> {
    if len == 0 || (streaming && index == 0) {
        None
    } else if index >= len {
        Some(0)
    } else {
        Some(len - index - 1)
    }
}

/// Chooses what the view shows: the exchange in progress, given as `def`, or
/// an exchange of the history.
#[inline]
pub fn get_chat_to_render<'b>(
    streaming: bool,
    index: usize,
    def: (&'b UserMessage, &'b AIMessage),
    ct: &'b [Arc<MessageFrame>],
) -> (shown: (&'b UserMessage, &'b AIMessage))
    ensures
        match spec_shown(streaming, index, ct@.len()) {
            None => shown == def,
            Some(at) => *shown.0 == ct@[at].user && *shown.1 == ct@[at].ai,
        },
{
    if ct.len() == 0 {
        return def;
    }
    if streaming && index == 0 {
        return def;
    }
    let index = if index >= ct.len() {
        ct.len() - 1
    } else {
        index
    };
    ct[ct.len() - index - 1].split_ref()
}

/// What decides when a frame is drawn: whether the last wait ended with a
/// tick of the animation, and whether the last frame was animated.
#[derive(Debug, Clone, Copy, PartialEq, Eq, Structural)]
pub struct FramePacer {
    pub tick_by_animation: bool,
    pub last_animation_frame: bool,
}

impl FramePacer {
    pub fn new() -> (pacer: Self)
        ensures
            pacer == (FramePacer { tick_by_animation: false, last_animation_frame: false }),
    {
        FramePacer { tick_by_animation: false, last_animation_frame: false }
    }

    /// The first frame after the animation has stopped, which wipes its
    /// traces.
    pub open spec fn spec_clean_frame(self, animation: bool) -> bool {
        !animation && self.last_animation_frame
    }

    /// Whether to draw: an animated frame on a tick, a still frame after
    /// anything but a tick, and the first frame after the animation in any
    /// case.
    pub open spec fn spec_should_draw(self, animation: bool) -> bool {
        (animation && self.tick_by_animation) || (!animation && !self.tick_by_animation)
            || self.spec_clean_frame(animation)
    }

    /// Whether to wait for the next tick before the next frame: while
    /// animated, after any wait that did not end with a tick, and after the
    /// first frame that follows the animation.
    pub open spec fn spec_awaits_tick(self, animation: bool, ticked: bool) -> bool {
        (animation && !ticked) || self.spec_clean_frame(animation)
    }

    /// Whether to draw the frame now. `animation` tells whether a response
    /// streams in.
    pub fn should_draw(&self, animation: bool) -> (draw: bool)
        ensures
            draw == self.spec_should_draw(animation),
    {
        let clean_frame = !animation && self.last_animation_frame;
        (animation && self.tick_by_animation) || (!animation && !self.tick_by_animation)
            || clean_frame
    }

    /// Takes the end of a wait. `ticked` tells whether a tick of the
    /// animation ended it. Says whether to wait for the next tick before the
    /// next frame.
    pub fn after_wait(&mut self, animation: bool, ticked: bool) -> (await_tick: bool)
        ensures
            await_tick == old(self).spec_awaits_tick(animation, ticked),
            final(self).tick_by_animation == (await_tick || ticked),
            final(self).last_animation_frame == animation,
    {
        let clean_frame = !animation && self.last_animation_frame;
        let await_tick = (animation && !ticked) || clean_frame;
        if await_tick {
            self.tick_by_animation = true;
        } else {
            self.tick_by_animation = ticked;
        }
        self.last_animation_frame = animation;
        await_tick
    }
}

} // verus!
