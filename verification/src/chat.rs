//! The conversation history and the two capabilities on it: one writer that
//! gathers a turn and commits it whole, and a reader that keeps a snapshot and
//! refreshes it only after something was committed.
//!
//! The history and the changed signal are handed to each operation by the
//! caller, who decides how they are shared and locked. A flush with only one
//! side present commits nothing: the scratch messages are dropped and the
//! history stays as it was.

use std::sync::Arc;
use vstd::prelude::*;

use crate::shared::share;
use crate::message::{
    AIMessage, BaseMessage, BaseMessageView, MessageFrame, MessageFrameView, UserMessage,
};

verus! {

/// The history as contracts speak of it: the committed frames, oldest first.
pub open spec fn frames_view(frames: Seq<Arc<MessageFrame>>) -> Seq<MessageFrameView> {
    frames.map_values(|frame: Arc<MessageFrame>| frame@)
}

/// The shared part of a conversation: its identifier and its history.
#[derive(Debug)]
pub struct ChatThreadInner {
    pub id: Option<String>,
    pub messages: Vec<Arc<MessageFrame>>,
}

impl ChatThreadInner {
    /// The committed frames, oldest first.
    pub open spec fn history(&self) -> Seq<MessageFrameView> {
        frames_view(self.messages@)
    }
}

impl Default for ChatThreadInner {
    fn default() -> (thread: Self)
        ensures
            thread.id is None,
            thread.messages@.len() == 0,
    {
        ChatThreadInner { id: None, messages: Vec::new() }
    }
}

/// What the writer has gathered of the turn in progress.
pub struct Turn {
    pub user: Option<BaseMessageView>,
    pub ai: Option<BaseMessageView>,
}

impl Turn {
    /// A turn is committed only when both sides are present.
    pub open spec fn is_complete(self) -> bool {
        self.user is Some && self.ai is Some
    }

    /// The frame that a complete turn commits.
    pub open spec fn frame(self) -> MessageFrameView {
        MessageFrameView::of_turn(self.user->0, self.ai->0)
    }
}

/// The history after a flush of `turn`: one frame longer for a complete turn,
/// unchanged for any other.
pub open spec fn flushed(history: Seq<MessageFrameView>, turn: Turn) -> Seq<MessageFrameView> {
    if turn.is_complete() {
        history.push(turn.frame())
    } else {
        history
    }
}

/// The changed signal after a flush of `turn`.
pub open spec fn signalled(changed: bool, turn: Turn) -> bool {
    changed || turn.is_complete()
}

/// The conversation before it is split into its two capabilities.
#[derive(Debug)]
pub struct ChatThread {
    inner: ChatThreadInner,
}

impl Default for ChatThread {
    fn default() -> (thread: Self)
        ensures
            thread.inner().id is None,
            thread.inner().messages@.len() == 0,
    {
        ChatThread { inner: ChatThreadInner::default() }
    }
}

impl ChatThread {
    /// The shared state that the conversation holds until it is split.
    pub closed spec fn inner(&self) -> ChatThreadInner {
        self.inner
    }

    /// Consumes the conversation and hands out the only writer, a reader with
    /// an empty snapshot, and the shared state that both work on. The changed
    /// signal that goes with them starts cleared.
    pub fn split(self) -> (parts: (ChatWriter, ChatReader, ChatThreadInner))
        ensures
            parts.0.user_message is None,
            parts.0.ai_message is None,
            parts.0.thread_id is None,
            parts.1.frames().len() == 0,
            parts.2 == self.inner(),
    {
        (
            ChatWriter { user_message: None, ai_message: None, thread_id: None },
            ChatReader { messages: Vec::new() },
            self.inner,
        )
    }
}

/// The capability to gather a turn and commit it. Outside this library a
/// writer comes only from [`ChatThread::split`].
#[derive(Debug)]
#[non_exhaustive]
pub struct ChatWriter {
    pub user_message: Option<BaseMessage>,
    pub ai_message: Option<BaseMessage>,
    pub thread_id: Option<String>,
}

impl ChatWriter {
    /// The turn gathered so far.
    pub open spec fn turn(&self) -> Turn {
        Turn {
            user: match self.user_message {
                Some(message) => Some(message@),
                None => None,
            },
            ai: match self.ai_message {
                Some(message) => Some(message@),
                None => None,
            },
        }
    }

    /// The user's message of the turn in progress, created blank on first use.
    #[inline]
    pub fn mut_user_message(&mut self) -> (message: &mut BaseMessage)
        ensures
            old(self).user_message is Some ==> *message == old(self).user_message->0,
            old(self).user_message is None ==> message@.is_blank(),
            final(self).user_message == Some(*final(message)),
            final(self).ai_message == old(self).ai_message,
            final(self).thread_id == old(self).thread_id,
    {
        if self.user_message.is_none() {
            self.user_message = Some(BaseMessage::default());
        }
        self.user_message.as_mut().unwrap()
    }

    /// The assistant's message of the turn in progress, created blank on first
    /// use.
    #[inline]
    pub fn mut_ai_message(&mut self) -> (message: &mut BaseMessage)
        ensures
            old(self).ai_message is Some ==> *message == old(self).ai_message->0,
            old(self).ai_message is None ==> message@.is_blank(),
            final(self).ai_message == Some(*final(message)),
            final(self).user_message == old(self).user_message,
            final(self).thread_id == old(self).thread_id,
    {
        if self.ai_message.is_none() {
            self.ai_message = Some(BaseMessage::default());
        }
        self.ai_message.as_mut().unwrap()
    }

    /// Gives up the turn in progress: both scratch messages and the
    /// identifier are dropped, and nothing reaches the history.
    pub fn discard(&mut self)
        ensures
            final(self).user_message is None,
            final(self).ai_message is None,
            final(self).thread_id is None,
    {
        self.user_message = None;
        self.ai_message = None;
        self.thread_id = None;
    }

    /// Ends the turn. The thread takes the writer's identifier; a complete
    /// turn is appended to the history as one frame and raises the changed
    /// signal; an incomplete one is dropped. The writer is left empty either
    /// way. Returns the committed frame, or a blank one where nothing was
    /// committed.
    pub fn flush(&mut self, thread: &mut ChatThreadInner, update_flag: &mut bool) -> (frame: Arc<
        MessageFrame,
    >)
        ensures
            final(self).user_message is None,
            final(self).ai_message is None,
            final(self).thread_id is None,
            final(thread).id == old(self).thread_id,
            final(thread).history() == flushed(old(thread).history(), old(self).turn()),
            *final(update_flag) == signalled(*old(update_flag), old(self).turn()),
            old(self).turn().is_complete() ==> {
                &&& final(thread).messages@ == old(thread).messages@.push(frame)
                &&& frame@ == old(self).turn().frame()
            },
            !old(self).turn().is_complete() ==> {
                &&& final(thread).messages@ == old(thread).messages@
                &&& frame@.is_blank()
            },
    {
        thread.id = self.thread_id.take();
        let user = self.user_message.take();
        let ai = self.ai_message.take();
        match (user, ai) {
            (Some(user), Some(ai)) => {
                let frame = Arc::new(
                    MessageFrame { ai: AIMessage::from_body(ai), user: UserMessage { body: user } },
                );
                let shared = share(&frame);
                thread.messages.push(shared);
                *update_flag = true;
                assert(thread.history() =~= old(thread).history().push(frame@));
                frame
            },
            _ => {
                Arc::new(MessageFrame::default())
            },
        }
    }
}

/// The snapshot that a read leaves: the history where the signal was raised,
/// the previous snapshot where it was not.
pub open spec fn refreshed(
    snapshot: Seq<MessageFrameView>,
    history: Seq<MessageFrameView>,
    changed: bool,
) -> Seq<MessageFrameView> {
    if changed {
        history
    } else {
        snapshot
    }
}

/// The capability to look at the history through a private snapshot.
#[derive(Debug)]
pub struct ChatReader {
    messages: Vec<Arc<MessageFrame>>,
}

impl ChatReader {
    /// The frames of the snapshot, oldest first.
    pub closed spec fn frames(&self) -> Seq<Arc<MessageFrame>> {
        self.messages@
    }

    /// The snapshot as contracts speak of it.
    pub open spec fn snapshot(&self) -> Seq<MessageFrameView> {
        frames_view(self.frames())
    }

    /// The snapshot as it stands, without a look at the shared history.
    pub fn messages(&self) -> (snapshot: &[Arc<MessageFrame>])
        ensures
            snapshot@ == self.frames(),
    {
        self.messages.as_slice()
    }

    /// Replaces the snapshot by a copy of the whole history.
    pub fn resync(&mut self, thread: &ChatThreadInner)
        ensures
            final(self).frames() == thread.messages@,
            final(self).snapshot() == thread.history(),
    {
        self.messages.clear();
        let mut i: usize = 0;
        while i < thread.messages.len()
            invariant
                i <= thread.messages@.len(),
                self.messages@ == thread.messages@.subrange(0, i as int),
            decreases thread.messages@.len() - i,
        {
            let shared = share(&thread.messages[i]);
            self.messages.push(shared);
            assert(self.messages@ =~= thread.messages@.subrange(0, i + 1));
            i += 1;
        }
        assert(self.messages@ =~= thread.messages@);
    }

    /// Looks at the history. Where the changed signal is raised, clears it and
    /// copies the history into the snapshot; where it is not, the shared
    /// history is not touched. Returns the snapshot.
    pub fn read(&mut self, thread: &ChatThreadInner, update_flag: &mut bool) -> (snapshot: &[Arc<
        MessageFrame,
    >])
        ensures
            !*final(update_flag),
            snapshot@ == final(self).frames(),
            final(self).frames() == if *old(update_flag) {
                thread.messages@
            } else {
                old(self).frames()
            },
            final(self).snapshot() == refreshed(
                old(self).snapshot(),
                thread.history(),
                *old(update_flag),
            ),
    {
        if *update_flag {
            *update_flag = false;
            self.resync(thread);
        }
        self.messages.as_slice()
    }
}

/// The shared history, the changed signal and the reader's snapshot at one
/// moment of a session.
pub struct Session {
    pub history: Seq<MessageFrameView>,
    pub changed: bool,
    pub snapshot: Seq<MessageFrameView>,
}

/// One operation on a session.
pub enum Step {
    /// The writer flushes this turn.
    Flush(Turn),
    /// The reader reads.
    Read,
}

impl Session {
    /// The session right after the split: nothing committed, nothing seen.
    pub open spec fn fresh() -> Session {
        Session { history: Seq::empty(), changed: false, snapshot: Seq::empty() }
    }

    /// While the signal is down the snapshot is the history.
    pub open spec fn in_sync(self) -> bool {
        !self.changed ==> self.snapshot == self.history
    }

    /// The session after one operation, as `flush` and `read` leave it.
    pub open spec fn after(self, step: Step) -> Session {
        match step {
            Step::Flush(turn) => Session {
                history: flushed(self.history, turn),
                changed: signalled(self.changed, turn),
                snapshot: self.snapshot,
            },
            Step::Read => Session {
                history: self.history,
                changed: false,
                snapshot: refreshed(self.snapshot, self.history, self.changed),
            },
        }
    }

    /// The session after `steps`, taken in order.
    pub open spec fn after_all(self, steps: Seq<Step>) -> Session
        decreases steps.len(),
    {
        if steps.len() == 0 {
            self
        } else {
            self.after_all(steps.drop_last()).after(steps.last())
        }
    }
}

/// The frames that the complete turns among `steps` commit, in the order of
/// their flushes.
pub open spec fn committed(steps: Seq<Step>) -> Seq<MessageFrameView>
    decreases steps.len(),
{
    if steps.len() == 0 {
        Seq::empty()
    } else {
        match steps.last() {
            Step::Flush(turn) => flushed(committed(steps.drop_last()), turn),
            Step::Read => committed(steps.drop_last()),
        }
    }
}

/// How many of `steps` are flushes of a turn with both sides present.
pub open spec fn complete_flushes(steps: Seq<Step>) -> nat
    decreases steps.len(),
{
    if steps.len() == 0 {
        0
    } else {
        let earlier = complete_flushes(steps.drop_last());
        match steps.last() {
            Step::Flush(turn) => if turn.is_complete() {
                earlier + 1
            } else {
                earlier
            },
            Step::Read => earlier,
        }
    }
}

/// The history only grows, and by exactly the committed frames in the order of
/// their flushes: what was there stays first, nothing is reordered or removed,
/// and reads change nothing.
pub proof fn lemma_history_in_flush_order(start: Session, steps: Seq<Step>)
    ensures
        start.after_all(steps).history == start.history + committed(steps),
    decreases steps.len(),
{
    if steps.len() == 0 {
        assert(start.history + committed(steps) =~= start.history);
    } else {
        lemma_history_in_flush_order(start, steps.drop_last());
        let earlier = start.after_all(steps.drop_last()).history;
        assert(start.after_all(steps).history =~= start.history + committed(steps));
    }
}

/// One frame is committed for each flush that found both sides present, and
/// none for any other.
pub proof fn lemma_one_frame_per_complete_flush(steps: Seq<Step>)
    ensures
        committed(steps).len() == complete_flushes(steps),
    decreases steps.len(),
{
    if steps.len() > 0 {
        lemma_one_frame_per_complete_flush(steps.drop_last());
    }
}

/// Every operation keeps the snapshot equal to the history while the signal
/// is down.
pub proof fn lemma_in_sync_is_kept(start: Session, steps: Seq<Step>)
    requires
        start.in_sync(),
    ensures
        start.after_all(steps).in_sync(),
    decreases steps.len(),
{
    if steps.len() > 0 {
        lemma_in_sync_is_kept(start, steps.drop_last());
    }
}

/// After any flushes and reads since the split, the next read shows the whole
/// history: as many frames as there were flushes with both sides present, in
/// the order of those flushes.
pub proof fn lemma_read_shows_every_commit(steps: Seq<Step>)
    ensures
        Session::fresh().after_all(steps).after(Step::Read).snapshot == committed(steps),
        Session::fresh().after_all(steps).after(Step::Read).snapshot.len() == complete_flushes(
            steps,
        ),
{
    lemma_history_in_flush_order(Session::fresh(), steps);
    lemma_one_frame_per_complete_flush(steps);
    lemma_in_sync_is_kept(Session::fresh(), steps);
    assert(Session::fresh().history + committed(steps) =~= committed(steps));
}

/// A second read with no flush in between changes nothing: it shows what the
/// first one showed.
pub proof fn lemma_read_twice(session: Session)
    ensures
        session.after(Step::Read).after(Step::Read) == session.after(Step::Read),
{
}

} // verus!
