//! The mathematical model of the transcript buffer.
//!
//! A [`BufferView`] is the buffer as plain values: the retained messages, the
//! capacity, the viewport, the scroll offset, the focus and the edit session.
//! Every operation of the buffer is a function from one `BufferView` to the
//! next, built from a few named steps, and the executable buffer is specified
//! by those functions. The laws at the end of the file are stated and proved
//! on the model alone.

use vstd::prelude::*;
use crate::text::trimmed;

verus! {

/// The part of a transcript row that keyboard interaction applies to.
#[derive(Clone, Copy, Debug, PartialEq, Eq, Structural)]
pub enum FocusSegment {
    Speaker,
    Message,
}

/// One transcript row as plain values.
pub struct MessageView {
    pub speaker: Option<Seq<char>>,
    pub speaker_id: Option<i32>,
    pub content: Seq<char>,
}

/// The focused row and segment.
pub struct FocusView {
    pub message_index: nat,
    pub segment: FocusSegment,
}

/// An edit in progress: the row and segment it will change, the text typed so
/// far, and the cursor as a count of characters in front of it.
pub struct EditView {
    pub message_index: nat,
    pub segment: FocusSegment,
    pub buffer: Seq<char>,
    pub cursor: nat,
}

/// The transcript buffer as plain values.
pub struct BufferView {
    pub messages: Seq<MessageView>,
    pub capacity: nat,
    /// Rows available for messages; 0 while the height is not known yet, in
    /// which case every row counts as visible.
    pub viewport_height: nat,
    /// Rows scrolled up from the newest message.
    pub scroll_position: nat,
    pub focus: Option<FocusView>,
    pub edit: Option<EditView>,
}

/// An operation of the buffer as a value, so that laws can speak of arbitrary
/// interleavings.
pub enum BufferOp {
    Append(MessageView),
    FocusPrev,
    FocusNext,
    FocusLeft,
    FocusRight,
    Resize(nat),
    StartEditing,
    CancelEditing,
    ApplyEdit,
    Insert(char),
    Backspace,
    CursorLeft,
    CursorRight,
}

/// The segment that focus takes on a row when `preferred` is asked for: the
/// speaker segment only where the row has a speaker label.
pub open spec fn resolve_segment(
    messages: Seq<MessageView>,
    index: nat,
    preferred: FocusSegment,
) -> FocusSegment {
    if preferred is Speaker && index < messages.len() && messages[index as int].speaker is Some {
        FocusSegment::Speaker
    } else {
        FocusSegment::Message
    }
}

/// The messages after the speaker of row `index` was renamed to `label`: every
/// row that shares the row's speaker id takes the label; a row without an id
/// is renamed alone.
pub open spec fn rename_speaker(
    messages: Seq<MessageView>,
    index: nat,
    label: Seq<char>,
) -> Seq<MessageView> {
    match messages[index as int].speaker_id {
        Some(id) => Seq::new(
            messages.len(),
            |j: int|
                if messages[j].speaker_id == Some(id) {
                    MessageView { speaker: Some(label), ..messages[j] }
                } else {
                    messages[j]
                },
        ),
        None => messages.update(
            index as int,
            MessageView { speaker: Some(label), ..messages[index as int] },
        ),
    }
}

impl BufferView {
    /// The empty buffer of the given capacity.
    pub open spec fn empty(capacity: nat) -> BufferView {
        BufferView {
            messages: Seq::empty(),
            capacity,
            viewport_height: 0,
            scroll_position: 0,
            focus: None,
            edit: None,
        }
    }

    pub open spec fn len(self) -> nat {
        self.messages.len()
    }

    /// Whether row `index` exists and has a speaker label.
    pub open spec fn has_speaker(self, index: nat) -> bool {
        index < self.len() && self.messages[index as int].speaker is Some
    }

    /// How many rows the viewport shows.
    pub open spec fn visible_rows(self) -> nat {
        if self.viewport_height == 0 || self.len() <= self.viewport_height {
            self.len()
        } else {
            self.viewport_height
        }
    }

    /// The largest scroll offset that still fills the viewport.
    pub open spec fn max_scroll(self) -> nat {
        (self.len() - self.visible_rows()) as nat
    }

    /// The scroll offset that the viewport uses.
    pub open spec fn clamped_scroll(self) -> nat {
        if self.scroll_position <= self.max_scroll() {
            self.scroll_position
        } else {
            self.max_scroll()
        }
    }

    /// One past the last visible row.
    pub open spec fn window_end(self) -> nat {
        (self.len() - self.clamped_scroll()) as nat
    }

    /// The first visible row.
    pub open spec fn window_start(self) -> nat {
        (self.window_end() - self.visible_rows()) as nat
    }

    /// Whether row `index` lies in the visible window.
    pub open spec fn shows(self, index: nat) -> bool {
        self.window_start() <= index < self.window_end()
    }

    /// The invariant of the buffer.
    pub open spec fn wf(self) -> bool {
        &&& 1 <= self.capacity
        &&& self.len() <= self.capacity
        &&& self.scroll_position <= self.max_scroll()
        &&& (self.focus is None <==> self.len() == 0)
        &&& (self.focus matches Some(f) ==> {
            &&& f.message_index < self.len()
            &&& (f.segment is Speaker ==> self.has_speaker(f.message_index))
            &&& self.shows(f.message_index)
        })
        &&& (self.edit matches Some(e) ==> {
            &&& e.message_index < self.len()
            &&& (e.segment is Speaker ==> self.has_speaker(e.message_index))
            &&& e.cursor <= e.buffer.len()
        })
    }

    /// The buffer at another scroll offset.
    pub open spec fn scrolled_to(self, scroll_position: nat) -> BufferView {
        BufferView { scroll_position, ..self }
    }

    /// The buffer with the scroll offset brought back into range.
    pub open spec fn clamped(self) -> BufferView {
        self.scrolled_to(self.clamped_scroll())
    }

    /// The buffer after its rows moved down by one index: focus and edit
    /// target follow their rows. Focus on the row that left stays on index 0,
    /// an edit of that row is dropped.
    pub open spec fn shifted(self) -> BufferView {
        let focus = match self.focus {
            Some(f) if self.len() > 0 => {
                let index = if f.message_index > 0 {
                    (f.message_index - 1) as nat
                } else {
                    0
                };
                Some(
                    FocusView {
                        message_index: index,
                        segment: resolve_segment(self.messages, index, f.segment),
                    },
                )
            },
            _ => None,
        };
        let edit = match self.edit {
            Some(e) if e.message_index > 0 => Some(
                EditView { message_index: (e.message_index - 1) as nat, ..e },
            ),
            _ => None,
        };
        BufferView { focus, edit, ..self }
    }

    /// The buffer without its oldest message.
    pub open spec fn evicted(self) -> BufferView {
        BufferView { messages: self.messages.skip(1), ..self }.shifted().clamped()
    }

    /// The buffer with `message` added as its newest row, before focus and
    /// scroll are brought up to date.
    pub open spec fn pushed(self, message: MessageView) -> BufferView {
        BufferView { messages: self.messages.push(message), ..self }
    }

    /// The buffer with a valid focus: none on an empty buffer; otherwise the
    /// present focus, or the newest row where there was none, clamped to the
    /// last row and with its segment resolved for the row.
    pub open spec fn refocused(self) -> BufferView {
        if self.len() == 0 {
            BufferView { focus: None, scroll_position: 0, ..self }
        } else {
            let f = match self.focus {
                Some(f) => f,
                None => FocusView {
                    message_index: (self.len() - 1) as nat,
                    segment: FocusSegment::Message,
                },
            };
            let index = if f.message_index >= self.len() {
                (self.len() - 1) as nat
            } else {
                f.message_index
            };
            BufferView {
                focus: Some(
                    FocusView {
                        message_index: index,
                        segment: resolve_segment(self.messages, index, f.segment),
                    },
                ),
                ..self
            }
        }
    }

    /// The scroll offset that shows row `index`, moved from the present one by
    /// as little as possible: unchanged where the row is visible, else such
    /// that the row is the first or the last visible one.
    pub open spec fn scroll_showing(self, index: nat) -> nat {
        if index < self.window_start() {
            (self.len() - (index + self.visible_rows())) as nat
        } else if index >= self.window_end() {
            (self.len() - (index + 1)) as nat
        } else {
            self.clamped_scroll()
        }
    }

    /// The buffer scrolled by as little as possible so that the focused row is
    /// visible.
    pub open spec fn revealed(self) -> BufferView {
        match self.focus {
            Some(f) => self.scrolled_to(self.scroll_showing(f.message_index)),
            None => self.clamped(),
        }
    }

    /// The buffer with focus moved to row `index`, keeping the segment where
    /// the row has it.
    pub open spec fn focused_on(self, index: nat) -> BufferView {
        match self.focus {
            Some(f) => BufferView {
                focus: Some(
                    FocusView {
                        message_index: index,
                        segment: resolve_segment(self.messages, index, f.segment),
                    },
                ),
                ..self
            }.revealed(),
            None => self,
        }
    }

    /// Appending a message: at capacity the oldest row is evicted first; then
    /// the message is added, focus is made valid and the focused row visible.
    pub open spec fn append(self, message: MessageView) -> BufferView {
        let base = if self.len() >= self.capacity {
            self.evicted()
        } else {
            self
        };
        base.pushed(message).refocused().revealed()
    }

    /// Focus moves up by one row; on the first row it stays.
    pub open spec fn focus_prev(self) -> BufferView {
        match self.focus {
            Some(f) if f.message_index > 0 => self.focused_on((f.message_index - 1) as nat),
            _ => self,
        }
    }

    /// Focus moves down by one row; on the last row it stays.
    pub open spec fn focus_next(self) -> BufferView {
        match self.focus {
            Some(f) if f.message_index + 1 < self.len() => self.focused_on(f.message_index + 1),
            _ => self,
        }
    }

    /// Focus moves to the speaker segment of its row, where the row has one.
    pub open spec fn focus_left(self) -> BufferView {
        match self.focus {
            Some(f) if self.has_speaker(f.message_index) => BufferView {
                focus: Some(FocusView { segment: FocusSegment::Speaker, ..f }),
                ..self
            },
            _ => self,
        }
    }

    /// Focus moves to the message segment of its row.
    pub open spec fn focus_right(self) -> BufferView {
        match self.focus {
            Some(f) => BufferView {
                focus: Some(FocusView { segment: FocusSegment::Message, ..f }),
                ..self
            },
            None => self,
        }
    }

    /// The viewport takes a new height, at least 1; the scroll offset is
    /// brought into range and the focused row made visible.
    pub open spec fn resized(self, height: nat) -> BufferView {
        BufferView {
            viewport_height: if height == 0 {
                1
            } else {
                height
            },
            ..self
        }.clamped().revealed()
    }

    /// An edit of the focused segment begins, with the segment's text as the
    /// buffer and the cursor at its end. Nothing changes while an edit is in
    /// progress or without focus.
    pub open spec fn start_editing(self) -> BufferView {
        match (self.edit, self.focus) {
            (None, Some(f)) if f.message_index < self.len() => {
                let message = self.messages[f.message_index as int];
                match f.segment {
                    FocusSegment::Speaker => match message.speaker {
                        Some(label) => BufferView {
                            edit: Some(
                                EditView {
                                    message_index: f.message_index,
                                    segment: FocusSegment::Speaker,
                                    buffer: label,
                                    cursor: label.len(),
                                },
                            ),
                            ..self
                        },
                        None => self,
                    },
                    FocusSegment::Message => BufferView {
                        edit: Some(
                            EditView {
                                message_index: f.message_index,
                                segment: FocusSegment::Message,
                                buffer: message.content,
                                cursor: message.content.len(),
                            },
                        ),
                        ..self
                    },
                }
            },
            _ => self,
        }
    }

    /// The edit in progress is dropped; no message changes.
    pub open spec fn cancel_editing(self) -> BufferView {
        BufferView { edit: None, ..self }
    }

    /// The speaker label that applying the edit in progress would set: the
    /// text of a speaker edit without the white space around it, if anything
    /// is left of it.
    pub open spec fn pending_label(self) -> Option<Seq<char>> {
        match self.edit {
            Some(e) if e.segment is Speaker && e.message_index < self.len() && trimmed(
                e.buffer,
            ).len() > 0 => Some(trimmed(e.buffer)),
            _ => None,
        }
    }

    /// The speaker id whose name applying the edit in progress would set.
    pub open spec fn pending_speaker_id(self) -> Option<i32> {
        match (self.edit, self.pending_label()) {
            (Some(e), Some(_)) => self.messages[e.message_index as int].speaker_id,
            _ => None,
        }
    }

    /// The edit in progress is applied and ends. A message edit replaces the
    /// content of its row. A speaker edit whose text is not blank renames the
    /// speaker of its row, with every row of the same speaker id.
    pub open spec fn apply_edit(self) -> BufferView {
        match self.edit {
            Some(e) if e.message_index < self.len() => {
                let messages = match e.segment {
                    FocusSegment::Speaker => match self.pending_label() {
                        Some(label) => rename_speaker(self.messages, e.message_index, label),
                        None => self.messages,
                    },
                    FocusSegment::Message => self.messages.update(
                        e.message_index as int,
                        MessageView { content: e.buffer, ..self.messages[e.message_index as int] },
                    ),
                };
                BufferView { messages, edit: None, ..self }
            },
            _ => BufferView { edit: None, ..self },
        }
    }

    /// `c` is typed at the cursor.
    pub open spec fn insert_char(self, c: char) -> BufferView {
        match self.edit {
            Some(e) if e.cursor <= e.buffer.len() => BufferView {
                edit: Some(
                    EditView { buffer: e.buffer.insert(e.cursor as int, c), cursor: e.cursor + 1, ..e },
                ),
                ..self
            },
            _ => self,
        }
    }

    /// The character in front of the cursor is removed.
    pub open spec fn backspace(self) -> BufferView {
        match self.edit {
            Some(e) if 0 < e.cursor <= e.buffer.len() => BufferView {
                edit: Some(
                    EditView {
                        buffer: e.buffer.remove(e.cursor - 1),
                        cursor: (e.cursor - 1) as nat,
                        ..e
                    },
                ),
                ..self
            },
            _ => self,
        }
    }

    /// The cursor moves one character towards the start.
    pub open spec fn cursor_left(self) -> BufferView {
        match self.edit {
            Some(e) if e.cursor > 0 => BufferView {
                edit: Some(EditView { cursor: (e.cursor - 1) as nat, ..e }),
                ..self
            },
            _ => self,
        }
    }

    /// The cursor moves one character towards the end.
    pub open spec fn cursor_right(self) -> BufferView {
        match self.edit {
            Some(e) if e.cursor < e.buffer.len() => BufferView {
                edit: Some(EditView { cursor: e.cursor + 1, ..e }),
                ..self
            },
            _ => self,
        }
    }

    /// The buffer after one operation.
    pub open spec fn apply(self, op: BufferOp) -> BufferView {
        match op {
            BufferOp::Append(message) => self.append(message),
            BufferOp::FocusPrev => self.focus_prev(),
            BufferOp::FocusNext => self.focus_next(),
            BufferOp::FocusLeft => self.focus_left(),
            BufferOp::FocusRight => self.focus_right(),
            BufferOp::Resize(height) => self.resized(height),
            BufferOp::StartEditing => self.start_editing(),
            BufferOp::CancelEditing => self.cancel_editing(),
            BufferOp::ApplyEdit => self.apply_edit(),
            BufferOp::Insert(c) => self.insert_char(c),
            BufferOp::Backspace => self.backspace(),
            BufferOp::CursorLeft => self.cursor_left(),
            BufferOp::CursorRight => self.cursor_right(),
        }
    }

    /// The buffer after a sequence of operations, in order.
    pub open spec fn apply_all(self, ops: Seq<BufferOp>) -> BufferView
        decreases ops.len(),
    {
        if ops.len() == 0 {
            self
        } else {
            self.apply_all(ops.drop_last()).apply(ops.last())
        }
    }

    /// The buffer after appending each of `messages`, in order.
    pub open spec fn append_all(self, messages: Seq<MessageView>) -> BufferView
        decreases messages.len(),
    {
        if messages.len() == 0 {
            self
        } else {
            self.append_all(messages.drop_last()).append(messages.last())
        }
    }
}

/// The last `capacity` elements of `arrived`, or all of them where there are
/// fewer.
pub open spec fn most_recent<T>(arrived: Seq<T>, capacity: nat) -> Seq<T> {
    if arrived.len() <= capacity {
        arrived
    } else {
        arrived.skip(arrived.len() - capacity)
    }
}

/// How far two scroll offsets are apart.
pub open spec fn scroll_distance(a: nat, b: nat) -> nat {
    if a <= b {
        (b - a) as nat
    } else {
        (a - b) as nat
    }
}

/// Scrolling to show a row does so, stays in range, and moves the offset by
/// no more than any other offset in range that shows the row.
pub proof fn lemma_scroll_showing_is_nearest(b: BufferView, index: nat, other: nat)
    requires
        index < b.len(),
    ensures
        b.scroll_showing(index) <= b.max_scroll(),
        b.scrolled_to(b.scroll_showing(index)).shows(index),
        b.shows(index) ==> b.scroll_showing(index) == b.clamped_scroll(),
        other <= b.max_scroll() && b.scrolled_to(other).shows(index) ==> scroll_distance(
            b.scroll_showing(index),
            b.clamped_scroll(),
        ) <= scroll_distance(other, b.clamped_scroll()),
{
}

/// The visible window of a viewport whose height is known: with `n` rows and
/// a viewport of `v` rows, `min(v, n)` rows are shown; the scroll offset in
/// use is the stored one, but no more than `n - min(v, n)`; and the window
/// ends that many rows above the newest row.
pub proof fn lemma_window(b: BufferView)
    requires
        b.viewport_height >= 1,
    ensures
        b.visible_rows() == if b.viewport_height <= b.len() {
            b.viewport_height
        } else {
            b.len()
        },
        b.clamped_scroll() == if b.scroll_position <= b.len() - b.visible_rows() {
            b.scroll_position as int
        } else {
            b.len() - b.visible_rows()
        },
        b.window_start() == b.len() - b.visible_rows() - b.clamped_scroll(),
        b.window_end() == b.len() - b.clamped_scroll(),
        b.window_end() - b.window_start() == b.visible_rows(),
{
}

/// Every operation keeps the invariant of the buffer.
pub proof fn lemma_apply_keeps_wf(b: BufferView, op: BufferOp)
    requires
        b.wf(),
    ensures
        b.apply(op).wf(),
        b.apply(op).capacity == b.capacity,
{
    match op {
        BufferOp::Append(message) => {
            lemma_append(b, message);
        },
        BufferOp::FocusPrev => {
            if b.focus is Some && b.focus->0.message_index > 0 {
                lemma_focused_on(b, (b.focus->0.message_index - 1) as nat);
            }
        },
        BufferOp::FocusNext => {
            if b.focus is Some && b.focus->0.message_index + 1 < b.len() {
                lemma_focused_on(b, b.focus->0.message_index + 1);
            }
        },
        BufferOp::FocusLeft => {},
        BufferOp::FocusRight => {},
        BufferOp::Resize(height) => {
            lemma_resized(b, height);
        },
        BufferOp::StartEditing => {},
        BufferOp::CancelEditing => {},
        BufferOp::ApplyEdit => {
            lemma_apply_edit(b);
        },
        BufferOp::Insert(c) => {},
        BufferOp::Backspace => {},
        BufferOp::CursorLeft => {},
        BufferOp::CursorRight => {},
    }
}

/// Moving focus to an existing row keeps the invariant.
pub proof fn lemma_focused_on(b: BufferView, index: nat)
    requires
        b.wf(),
        index < b.len(),
    ensures
        b.focused_on(index).wf(),
        b.focused_on(index).focus == Some(
            FocusView {
                message_index: index,
                segment: resolve_segment(b.messages, index, b.focus->0.segment),
            },
        ),
        b.focused_on(index).messages == b.messages,
        b.focused_on(index).capacity == b.capacity,
        b.focused_on(index).edit == b.edit,
        b.focused_on(index).viewport_height == b.viewport_height,
{
    let moved = BufferView {
        focus: Some(
            FocusView {
                message_index: index,
                segment: resolve_segment(b.messages, index, b.focus->0.segment),
            },
        ),
        ..b
    };
    lemma_scroll_showing_is_nearest(moved, index, 0);
}

/// A new viewport height keeps the invariant.
pub proof fn lemma_resized(b: BufferView, height: nat)
    requires
        b.wf(),
    ensures
        b.resized(height).wf(),
        b.resized(height).messages == b.messages,
        b.resized(height).focus == b.focus,
        b.resized(height).edit == b.edit,
        b.resized(height).capacity == b.capacity,
        b.resized(height).viewport_height == if height == 0 {
            1
        } else {
            height
        },
{
    let sized = BufferView {
        viewport_height: if height == 0 {
            1
        } else {
            height
        },
        ..b
    }.clamped();
    if sized.focus is Some {
        lemma_scroll_showing_is_nearest(sized, sized.focus->0.message_index, 0);
    }
}

/// Applying an edit keeps the invariant: it changes labels and contents only,
/// and never takes a speaker label away.
pub proof fn lemma_apply_edit(b: BufferView)
    requires
        b.wf(),
    ensures
        b.apply_edit().wf(),
        b.apply_edit().messages.len() == b.messages.len(),
        b.apply_edit().edit is None,
        b.apply_edit().focus == b.focus,
        b.apply_edit().scroll_position == b.scroll_position,
        forall|i: nat| b.has_speaker(i) ==> #[trigger] b.apply_edit().has_speaker(i),
{
    let after = b.apply_edit();
    assert(after.len() == b.len());
    assert(after.visible_rows() == b.visible_rows());
    assert forall|i: nat| b.has_speaker(i) implies #[trigger] after.has_speaker(i) by {}
}

/// What appending does to the retained messages: the new message becomes the
/// newest row, and the oldest row leaves if the buffer was full.
pub proof fn lemma_append(b: BufferView, message: MessageView)
    requires
        b.wf(),
    ensures
        b.append(message).wf(),
        b.append(message).capacity == b.capacity,
        b.append(message).viewport_height == b.viewport_height,
        b.append(message).messages == most_recent(b.messages.push(message), b.capacity),
        b.append(message).messages.last() == message,
{
    let base = if b.len() >= b.capacity {
        b.evicted()
    } else {
        b
    };
    if b.len() >= b.capacity {
        lemma_evicted(b);
        assert(b.messages.skip(1).push(message) =~= b.messages.push(message).skip(1));
    }
    let pushed = base.pushed(message);
    let focused = pushed.refocused();
    assert(forall|i: nat| base.has_speaker(i) ==> #[trigger] pushed.has_speaker(i));
    lemma_scroll_showing_is_nearest(focused, focused.focus->0.message_index, 0);
}

/// Evicting the oldest row keeps everything but the rule that a non-empty
/// buffer has a visible focus, which holds too unless the buffer is now empty.
pub proof fn lemma_evicted(b: BufferView)
    requires
        b.wf(),
        b.len() > 0,
    ensures
        b.evicted().messages == b.messages.skip(1),
        b.evicted().capacity == b.capacity,
        b.evicted().viewport_height == b.viewport_height,
        b.evicted().scroll_position <= b.evicted().max_scroll(),
        b.evicted().focus is None <==> b.evicted().len() == 0,
        b.evicted().focus matches Some(f) ==> {
            &&& f.message_index < b.evicted().len()
            &&& (f.segment is Speaker ==> b.evicted().has_speaker(f.message_index))
        },
        b.evicted().edit matches Some(e) ==> {
            &&& e.message_index < b.evicted().len()
            &&& (e.segment is Speaker ==> b.evicted().has_speaker(e.message_index))
            &&& e.cursor <= e.buffer.len()
        },
{
    let after = b.evicted();
    assert forall|i: nat| i >= 1 && b.has_speaker(i) implies #[trigger] after.has_speaker(
        (i - 1) as nat,
    ) by {
        assert(after.messages[i - 1] == b.messages[i as int]);
    }
    if let Some(e) = b.edit {
        if e.message_index > 0 && e.segment is Speaker {
            assert(b.has_speaker(e.message_index));
            assert(after.has_speaker((e.message_index - 1) as nat));
        }
    }
}

/// Whatever operations run on a buffer, in whatever order, the invariant
/// holds afterwards.
pub proof fn lemma_apply_all_keeps_wf(b: BufferView, ops: Seq<BufferOp>)
    requires
        b.wf(),
    ensures
        b.apply_all(ops).wf(),
        b.apply_all(ops).capacity == b.capacity,
    decreases ops.len(),
{
    if ops.len() > 0 {
        lemma_apply_all_keeps_wf(b, ops.drop_last());
        lemma_apply_keeps_wf(b.apply_all(ops.drop_last()), ops.last());
    }
}

/// The focus invariant: after any interleaving of operations that leaves the
/// buffer non-empty, focus is defined, names an existing row, and that row
/// lies in the visible window.
pub proof fn lemma_focus_stays_visible(b: BufferView, ops: Seq<BufferOp>)
    requires
        b.wf(),
        b.apply_all(ops).len() > 0,
    ensures
        b.apply_all(ops).focus is Some,
        b.apply_all(ops).focus->0.message_index < b.apply_all(ops).len(),
        b.apply_all(ops).shows(b.apply_all(ops).focus->0.message_index),
{
    lemma_apply_all_keeps_wf(b, ops);
}

/// Bounded retention: however many messages are appended, the buffer never
/// holds more than its capacity, and what it holds is exactly the most recent
/// messages in arrival order.
pub proof fn lemma_append_all_retains_most_recent(b: BufferView, arriving: Seq<MessageView>)
    requires
        b.wf(),
    ensures
        b.append_all(arriving).wf(),
        b.append_all(arriving).capacity == b.capacity,
        b.append_all(arriving).len() <= b.capacity,
        b.append_all(arriving).messages == most_recent(b.messages + arriving, b.capacity),
    decreases arriving.len(),
{
    if arriving.len() == 0 {
        assert(b.messages + arriving =~= b.messages);
    } else {
        let earlier = arriving.drop_last();
        let before = b.append_all(earlier);
        lemma_append_all_retains_most_recent(b, earlier);
        lemma_append(before, arriving.last());
        let all_before = b.messages + earlier;
        let all = b.messages + arriving;
        assert(all =~= all_before.push(arriving.last()));
        assert(most_recent(most_recent(all_before, b.capacity).push(arriving.last()), b.capacity)
            =~= most_recent(all, b.capacity));
    }
}

} // verus!
