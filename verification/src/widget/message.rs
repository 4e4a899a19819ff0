//! The view of one exchange: its text broken into lines, the part of it that
//! the viewport shows, and the mark that runs round the border while a
//! response streams in.

use vstd::prelude::*;
use vstd::string::StringExecFns;

use crate::message::{AIMessage, UserMessage};
use crate::lines::{lines_view, wrap, wrapped_text};

verus! {

pub const ANIMATION_CHAR_TOP: char = '>';

pub const ANIMATION_CHAR_BOTTOM: char = '<';

pub const ANIMATION_CHAR_LEFT: char = 'A';

pub const ANIMATION_CHAR_RIGHT: char = 'V';

/// How many cells the mark on the border covers, and how far it moves with
/// each frame.
pub const CHAR_SIZE: u16 = 2;

/// A rectangle of cells on the screen.
#[derive(Debug, Clone, Copy, PartialEq, Eq, Structural)]
pub struct Rect {
    pub x: u16,
    pub y: u16,
    pub width: u16,
    pub height: u16,
}

/// Where on the border the mark stands: the side, and how far along it.
#[derive(Debug, Clone, Copy, PartialEq, Eq, Structural)]
pub enum MessageBorderAnimationPos {
    Top(u16),
    Bottom(u16),
    Left(u16),
    Right(u16),
}

/// The mark on the border and the count of frames drawn.
#[derive(Debug, Clone, Copy, PartialEq, Eq, Structural)]
pub struct MessageAnimation {
    pub pos: MessageBorderAnimationPos,
    pub frame: u8,
}

impl Default for MessageAnimation {
    fn default() -> (animation: Self)
        ensures
            animation == (MessageAnimation { pos: MessageBorderAnimationPos::Top(0), frame: 0 }),
    {
        MessageAnimation { pos: MessageBorderAnimationPos::Top(0), frame: 0 }
    }
}

/// The two cells that the mark covers and the character drawn in them.
#[derive(Debug, Clone, Copy)]
pub struct AnimationMark {
    pub first: (u16, u16),
    pub second: (u16, u16),
    pub symbol: char,
}

/// The place of the mark one frame later: two cells on along its side, and
/// round the corner to the start of the next side once it comes within two
/// cells of the end. The sides follow one another clockwise.
pub open spec fn spec_next_pos(pos: MessageBorderAnimationPos, area: Rect) -> MessageBorderAnimationPos {
    match pos {
        MessageBorderAnimationPos::Top(n) => if n + CHAR_SIZE >= area.width - 2 {
            MessageBorderAnimationPos::Right(0)
        } else {
            MessageBorderAnimationPos::Top((n + CHAR_SIZE) as u16)
        },
        MessageBorderAnimationPos::Bottom(n) => if n + CHAR_SIZE >= area.width - 2 {
            MessageBorderAnimationPos::Left(0)
        } else {
            MessageBorderAnimationPos::Bottom((n + CHAR_SIZE) as u16)
        },
        MessageBorderAnimationPos::Left(n) => if n + CHAR_SIZE >= area.height - 2 {
            MessageBorderAnimationPos::Top(0)
        } else {
            MessageBorderAnimationPos::Left((n + CHAR_SIZE) as u16)
        },
        MessageBorderAnimationPos::Right(n) => if n + CHAR_SIZE >= area.height - 2 {
            MessageBorderAnimationPos::Bottom(0)
        } else {
            MessageBorderAnimationPos::Right((n + CHAR_SIZE) as u16)
        },
    }
}

/// The cells and the character of the mark at `pos` on the border of `area`:
/// from the left on the top side, from the right on the bottom side, upwards
/// on the left side and downwards on the right side.
pub open spec fn spec_mark(pos: MessageBorderAnimationPos, area: Rect) -> AnimationMark {
    let left = area.x as int;
    let top = area.y as int;
    let right = area.x + area.width - 1;
    let bottom = area.y + area.height - 1;
    match pos {
        MessageBorderAnimationPos::Top(n) => AnimationMark {
            first: ((left + n) as u16, top as u16),
            second: ((left + n + 1) as u16, top as u16),
            symbol: ANIMATION_CHAR_TOP,
        },
        MessageBorderAnimationPos::Bottom(n) => AnimationMark {
            first: ((right - n) as u16, bottom as u16),
            second: ((right - n + 1) as u16, bottom as u16),
            symbol: ANIMATION_CHAR_BOTTOM,
        },
        MessageBorderAnimationPos::Left(n) => AnimationMark {
            first: (left as u16, (bottom - n) as u16),
            second: (left as u16, (bottom - n + 1) as u16),
            symbol: ANIMATION_CHAR_LEFT,
        },
        MessageBorderAnimationPos::Right(n) => AnimationMark {
            first: (right as u16, (top + n) as u16),
            second: (right as u16, (top + n + 1) as u16),
            symbol: ANIMATION_CHAR_RIGHT,
        },
    }
}

/// The count of frames one frame later: it starts over after 255.
pub open spec fn spec_next_frame(frame: u8) -> u8 {
    if frame == u8::MAX {
        0
    } else {
        (frame + 1) as u8
    }
}

/// An area that has a border to run round and lies on the screen.
pub open spec fn has_border(area: Rect) -> bool {
    &&& area.width >= 2
    &&& area.height >= 2
    &&& area.x + area.width <= u16::MAX
    &&& area.y + area.height <= u16::MAX
}

impl Rect {
    /// Whether the area has a border to run round and lies on the screen.
    pub fn has_border(&self) -> (bordered: bool)
        ensures
            bordered == has_border(*self),
    {
        self.width >= 2 && self.height >= 2 && self.x as u32 + self.width as u32 <= 65535
            && self.y as u32 + self.height as u32 <= 65535
    }
}

/// How many lines the exchange takes: those of both texts, a heading for each
/// and a blank line between them.
pub open spec fn spec_total_lines(user_lines: nat, ai_lines: nat) -> nat {
    user_lines + ai_lines + 3
}

/// The area that the lines of an exchange are laid out in: the viewport where
/// they fit in less than its height, else an area of the viewport's place and
/// width and as high as there are lines, counted modulo 65536.
pub open spec fn spec_content_area(viewport: Rect, total_lines: nat) -> Rect {
    if total_lines >= viewport.height {
        Rect { height: (total_lines % 0x1_0000) as u16, ..viewport }
    } else {
        viewport
    }
}

/// The lines of an exchange: heading, the user's lines, a blank line, heading,
/// the assistant's lines.
pub open spec fn spec_transcript(user_lines: Seq<Seq<char>>, ai_lines: Seq<Seq<char>>) -> Seq<
    Seq<char>,
> {
    seq!["You >"@] + user_lines + seq![""@, "AI >"@] + ai_lines
}

/// An exchange laid out for drawing.
#[derive(Debug)]
pub struct Transcript {
    /// The area that the lines take.
    pub area: Rect,
    /// The lines, top to bottom.
    pub lines: Vec<String>,
    /// How many of the lines, from the second on, are the user's.
    pub user_lines: usize,
}

/// The scroll position after one step down over content of the given height:
/// one more, unless the viewport would then reach past the content.
pub open spec fn spec_scroll_down(scroll_y: u16, viewport_height: u16, content_height: u16) -> u16 {
    let next = if scroll_y == u16::MAX {
        u16::MAX
    } else {
        (scroll_y + 1) as u16
    };
    if next + viewport_height <= content_height {
        next
    } else {
        scroll_y
    }
}

/// What the view of an exchange remembers between frames.
#[derive(Debug, Clone, Copy, PartialEq, Eq, Structural)]
pub struct MessageState {
    pub scroll_y: u16,
    pub viewport: Rect,
    pub content_height: u16,
    pub animation: MessageAnimation,
}

impl MessageState {
    /// A view of nothing yet, with the mark at the start of its round.
    pub open spec fn empty(viewport: Rect) -> MessageState {
        MessageState {
            scroll_y: 0,
            viewport,
            content_height: 0,
            animation: MessageAnimation { pos: MessageBorderAnimationPos::Top(0), frame: 0 },
        }
    }

    /// A view at the top of nothing.
    pub fn new(viewport: Rect) -> (state: Self)
        ensures
            state == Self::empty(viewport),
    {
        MessageState {
            scroll_y: 0,
            viewport,
            content_height: 0,
            animation: MessageAnimation::default(),
        }
    }

    /// Goes back to the top.
    pub fn reset(&mut self)
        ensures
            *final(self) == (MessageState { scroll_y: 0, ..*old(self) }),
    {
        self.scroll_y = 0;
    }

    pub fn set_viewport(&mut self, viewport: Rect)
        ensures
            *final(self) == (MessageState { viewport, ..*old(self) }),
    {
        self.viewport = viewport;
    }

    /// Scrolls one line up, unless the view is at the top.
    pub fn scroll_up(&mut self)
        ensures
            *final(self) == (MessageState {
                scroll_y: if old(self).scroll_y == 0 {
                    0
                } else {
                    (old(self).scroll_y - 1) as u16
                },
                ..*old(self)
            }),
    {
        if self.scroll_y > 0 {
            self.scroll_y = self.scroll_y - 1;
        }
    }

    /// Scrolls one line down, unless the viewport would reach past the
    /// content.
    pub fn scroll_down(&mut self)
        ensures
            *final(self) == (MessageState {
                scroll_y: spec_scroll_down(
                    old(self).scroll_y,
                    old(self).viewport.height,
                    old(self).content_height,
                ),
                ..*old(self)
            }),
    {
        let next: u16 = if self.scroll_y == u16::MAX {
            u16::MAX
        } else {
            self.scroll_y + 1
        };
        if next as u32 + self.viewport.height as u32 <= self.content_height as u32 {
            self.scroll_y = next;
        }
    }

    /// Lays out an exchange for the viewport. Where both texts are empty
    /// nothing is laid out and nothing changes. Otherwise both texts are
    /// broken into lines of the viewport's width, and the view takes the
    /// height of the area that they fill.
    pub fn pre_render(&mut self, user_message: &UserMessage, ai_message: &AIMessage) -> (transcript:
        Option<Transcript>)
        ensures
            match transcript {
                None => {
                    &&& user_message@.body.content.len() == 0
                    &&& ai_message@.body.content.len() == 0
                    &&& *final(self) == *old(self)
                },
                Some(transcript) => {
                    let user_lines = wrapped_text(
                        user_message@.body.content,
                        old(self).viewport.width as usize,
                    );
                    let ai_lines = wrapped_text(
                        ai_message@.body.content,
                        old(self).viewport.width as usize,
                    );
                    &&& !(user_message@.body.content.len() == 0 && ai_message@.body.content.len()
                        == 0)
                    &&& transcript.area == spec_content_area(
                        old(self).viewport,
                        spec_total_lines(user_lines.len(), ai_lines.len()),
                    )
                    &&& lines_view(transcript.lines@) == spec_transcript(user_lines, ai_lines)
                    &&& transcript.user_lines == user_lines.len()
                    &&& *final(self) == (MessageState {
                        content_height: transcript.area.height,
                        ..*old(self)
                    })
                },
            },
    {
        let user_text = user_message.body.content.as_str();
        let ai_text = ai_message.body.content.as_str();
        if user_text.is_empty() && ai_text.is_empty() {
            return None;
        }
        let width = self.viewport.width as usize;
        let user_lines = wrap(user_text, width);
        let ai_lines = wrap(ai_text, width);
        let area = content_area(self.viewport, user_lines.len(), ai_lines.len());
        let user_count = user_lines.len();
        let lines = transcript_lines(user_lines, ai_lines);
        self.content_height = area.height;
        Some(Transcript { area, lines, user_lines: user_count })
    }

    /// Moves the mark on the border by one frame and says where to draw it.
    pub fn render_border_animation(&mut self, area: Rect) -> (mark: AnimationMark)
        requires
            has_border(area),
        ensures
            final(self).animation.pos == spec_next_pos(old(self).animation.pos, area),
            final(self).animation.frame == spec_next_frame(old(self).animation.frame),
            final(self).scroll_y == old(self).scroll_y,
            final(self).viewport == old(self).viewport,
            final(self).content_height == old(self).content_height,
            mark == spec_mark(final(self).animation.pos, area),
            spec_fits(final(self).animation.pos, area),
    {
        let pos = next_pos(self.animation.pos, area);
        let left = area.x;
        let top = area.y;
        let right = area.x + area.width - 1;
        let bottom = area.y + area.height - 1;
        let mark = match pos {
            MessageBorderAnimationPos::Top(n) => AnimationMark {
                first: (left + n, top),
                second: (left + n + 1, top),
                symbol: ANIMATION_CHAR_TOP,
            },
            MessageBorderAnimationPos::Bottom(n) => AnimationMark {
                first: (right - n, bottom),
                second: (right - n + 1, bottom),
                symbol: ANIMATION_CHAR_BOTTOM,
            },
            MessageBorderAnimationPos::Left(n) => AnimationMark {
                first: (left, bottom - n),
                second: (left, bottom - n + 1),
                symbol: ANIMATION_CHAR_LEFT,
            },
            MessageBorderAnimationPos::Right(n) => AnimationMark {
                first: (right, top + n),
                second: (right, top + n + 1),
                symbol: ANIMATION_CHAR_RIGHT,
            },
        };
        self.animation.pos = pos;
        self.animation.frame = if self.animation.frame == u8::MAX {
            0
        } else {
            self.animation.frame + 1
        };
        mark
    }
}

/// A place of the mark that lies on its side of the border of `area`.
pub open spec fn spec_fits(pos: MessageBorderAnimationPos, area: Rect) -> bool {
    match pos {
        MessageBorderAnimationPos::Top(n) => n == 0 || n < area.width - 2,
        MessageBorderAnimationPos::Bottom(n) => n == 0 || n < area.width - 2,
        MessageBorderAnimationPos::Left(n) => n == 0 || n < area.height - 2,
        MessageBorderAnimationPos::Right(n) => n == 0 || n < area.height - 2,
    }
}

fn next_pos(pos: MessageBorderAnimationPos, area: Rect) -> (next: MessageBorderAnimationPos)
    requires
        area.width >= 2,
        area.height >= 2,
    ensures
        next == spec_next_pos(pos, area),
        spec_fits(next, area),
{
    let across: u32 = (area.width - 2) as u32;
    let along: u32 = (area.height - 2) as u32;
    match pos {
        MessageBorderAnimationPos::Top(n) => {
            if n as u32 + CHAR_SIZE as u32 >= across {
                MessageBorderAnimationPos::Right(0)
            } else {
                MessageBorderAnimationPos::Top(n + CHAR_SIZE)
            }
        },
        MessageBorderAnimationPos::Bottom(n) => {
            if n as u32 + CHAR_SIZE as u32 >= across {
                MessageBorderAnimationPos::Left(0)
            } else {
                MessageBorderAnimationPos::Bottom(n + CHAR_SIZE)
            }
        },
        MessageBorderAnimationPos::Left(n) => {
            if n as u32 + CHAR_SIZE as u32 >= along {
                MessageBorderAnimationPos::Top(0)
            } else {
                MessageBorderAnimationPos::Left(n + CHAR_SIZE)
            }
        },
        MessageBorderAnimationPos::Right(n) => {
            if n as u32 + CHAR_SIZE as u32 >= along {
                MessageBorderAnimationPos::Bottom(0)
            } else {
                MessageBorderAnimationPos::Right(n + CHAR_SIZE)
            }
        },
    }
}

/// The area that an exchange of so many lines is laid out in.
pub fn content_area(viewport: Rect, user_lines: usize, ai_lines: usize) -> (area: Rect)
    ensures
        area == spec_content_area(viewport, spec_total_lines(user_lines as nat, ai_lines as nat)),
{
    let total: u128 = user_lines as u128 + ai_lines as u128 + 3;
    if total >= viewport.height as u128 {
        Rect {
            x: viewport.x,
            y: viewport.y,
            width: viewport.width,
            height: (total % 0x1_0000) as u16,
        }
    } else {
        viewport
    }
}

/// Puts the lines of an exchange together with their headings.
pub fn transcript_lines(user_lines: Vec<String>, ai_lines: Vec<String>) -> (lines: Vec<String>)
    ensures
        lines_view(lines@) == spec_transcript(lines_view(user_lines@), lines_view(ai_lines@)),
{
    let ghost user_view = lines_view(user_lines@);
    let ghost ai_view = lines_view(ai_lines@);
    let mut user_lines = user_lines;
    let mut ai_lines = ai_lines;
    let mut lines: Vec<String> = Vec::new();
    lines.push(String::from_str("You >"));
    lines.append(&mut user_lines);
    lines.push(String::from_str(""));
    lines.push(String::from_str("AI >"));
    lines.append(&mut ai_lines);
    assert(lines_view(lines@) =~= spec_transcript(user_view, ai_view));
    lines
}

/// The frame round an exchange.
pub struct Message {
    pub streaming: bool,
}

/// The colour of a border.
#[derive(Debug, Clone, Copy, PartialEq, Eq, Structural)]
pub enum BorderColor {
    Green,
    White,
    LightGreen,
    Blue,
}

impl Message {
    /// The title on the border: `Chat`, or while a response streams in
    /// `Generating` with one to three dots that change with the frame.
    pub open spec fn spec_title(streaming: bool, frame: u8) -> Seq<char> {
        if !streaming {
            "Chat"@
        } else if frame % 3 == 0 {
            "Generating."@
        } else if frame % 3 == 1 {
            "Generating.."@
        } else {
            "Generating..."@
        }
    }

    pub fn title(&self, state: &MessageState) -> (title: &'static str)
        ensures
            title@ == Self::spec_title(self.streaming, state.animation.frame),
    {
        if !self.streaming {
            "Chat"
        } else if state.animation.frame % 3 == 0 {
            "Generating."
        } else if state.animation.frame % 3 == 1 {
            "Generating.."
        } else {
            "Generating..."
        }
    }

    /// The colour of the border: green while a response streams in, else
    /// white.
    pub fn border_color(&self) -> (color: BorderColor)
        ensures
            color == if self.streaming {
                BorderColor::Green
            } else {
                BorderColor::White
            },
    {
        if self.streaming {
            BorderColor::Green
        } else {
            BorderColor::White
        }
    }
}

} // verus!
