//! The transcript buffer: a bounded store of speaker-attributed messages with
//! focus, scrolling and inline editing.
//!
//! What each operation does is given by the model in
//! [`crate::transcript_model`]; the functions here compute it.

use std::collections::VecDeque;
use vstd::prelude::*;
use vstd::string::*;
use vstd::slice::*;
use vstd::utf8::{encode_utf8, is_char_boundary};
use crate::speakers::SpeakerNames;
use crate::text::{insert_char_at, lemma_prefix_ends_on_char_boundary, remove_char_at, trim};
use crate::transcript_model::{
    lemma_append, lemma_apply_edit, lemma_apply_keeps_wf, lemma_resized, most_recent,
    rename_speaker, resolve_segment, BufferOp, BufferView, EditView, FocusSegment, FocusView,
    MessageView,
};

verus! {

/// How many messages a buffer made by `new` retains.
pub const MAX_TRANSCRIPTIONS: usize = 2000;

/// One transcript row.
#[derive(Debug, Clone)]
pub struct TranscriptionMessage {
    pub speaker: Option<String>,
    pub speaker_id: Option<i32>,
    pub content: String,
}

impl View for TranscriptionMessage {
    type V = MessageView;

    open spec fn view(&self) -> MessageView {
        MessageView {
            speaker: match self.speaker {
                Some(label) => Some(label@),
                None => None,
            },
            speaker_id: self.speaker_id,
            content: self.content@,
        }
    }
}

impl TranscriptionMessage {
    pub fn new(speaker: Option<String>, speaker_id: Option<i32>, content: String) -> (message: Self)
        ensures
            message.speaker == speaker,
            message.speaker_id == speaker_id,
            message.content == content,
    {
        Self { speaker, speaker_id, content }
    }

    fn duplicate(&self) -> (copy: Self)
        ensures
            copy@ == self@,
    {
        let speaker = match &self.speaker {
            Some(label) => Some(label.clone()),
            None => None,
        };
        Self { speaker, speaker_id: self.speaker_id, content: self.content.clone() }
    }
}

/// The focused row and segment.
#[derive(Debug, Clone, Copy, PartialEq, Eq, Structural)]
pub struct FocusLocation {
    pub message_index: usize,
    pub segment: FocusSegment,
}

impl View for FocusLocation {
    type V = FocusView;

    open spec fn view(&self) -> FocusView {
        FocusView { message_index: self.message_index as nat, segment: self.segment }
    }
}

/// An edit in progress. The cursor counts the characters in front of it, so
/// it always stands between two characters.
struct EditSession {
    message_index: usize,
    segment: FocusSegment,
    buffer: String,
    cursor: usize,
}

impl View for EditSession {
    type V = EditView;

    closed spec fn view(&self) -> EditView {
        EditView {
            message_index: self.message_index as nat,
            segment: self.segment,
            buffer: self.buffer@,
            cursor: self.cursor as nat,
        }
    }
}

/// The rows of a store as plain values.
pub open spec fn message_views(messages: Seq<TranscriptionMessage>) -> Seq<MessageView> {
    Seq::new(messages.len(), |i: int| messages[i]@)
}

/// State of the transcript: the retained messages with scroll offset, focus,
/// viewport height and edit session.
pub struct TranscriptionWidgetState {
    transcriptions: VecDeque<TranscriptionMessage>,
    scroll_position: usize,
    focus: Option<FocusLocation>,
    viewport_height: usize,
    edit: Option<EditSession>,
    capacity: usize,
}

impl View for TranscriptionWidgetState {
    type V = BufferView;

    closed spec fn view(&self) -> BufferView {
        BufferView {
            messages: message_views(self.transcriptions@),
            capacity: self.capacity as nat,
            viewport_height: self.viewport_height as nat,
            scroll_position: self.scroll_position as nat,
            focus: match self.focus {
                Some(f) => Some(f@),
                None => None,
            },
            edit: match self.edit {
                Some(e) => Some(e@),
                None => None,
            },
        }
    }
}

/// Gives every row of speaker `speaker_id` the label `label`.
fn relabel_speaker(
    messages: &mut VecDeque<TranscriptionMessage>,
    speaker_id: i32,
    label: &String,
    Ghost(index): Ghost<nat>,
)
    requires
        index < old(messages)@.len(),
        old(messages)@[index as int].speaker_id == Some(speaker_id),
    ensures
        message_views(final(messages)@) == rename_speaker(
            message_views(old(messages)@),
            index,
            label@,
        ),
{
    let ghost before = message_views(messages@);
    let n = messages.len();
    let mut i: usize = 0;
    while i < n
        invariant
            i <= n,
            n == messages@.len(),
            before.len() == n,
            forall|j: int| 0 <= j < i ==> (#[trigger] message_views(messages@)[j]) == rename_speaker(
                before,
                index,
                label@,
            )[j],
            forall|j: int| i <= j < n ==> (#[trigger] message_views(messages@)[j]) == before[j],
            index < n,
            before[index as int].speaker_id == Some(speaker_id),
        decreases n - i,
    {
        let ghost prior = messages@;
        let same = match messages[i].speaker_id {
            Some(id) => id == speaker_id,
            None => false,
        };
        assert(message_views(prior)[i as int] == before[i as int]);
        assert(same == (before[i as int].speaker_id == Some(speaker_id)));
        if same {
            let row = messages.remove(i).unwrap();
            let renamed = TranscriptionMessage {
                speaker: Some(label.clone()),
                speaker_id: row.speaker_id,
                content: row.content,
            };
            messages.insert(i, renamed);
            assert(messages@ =~= prior.update(i as int, renamed));
            assert(renamed@ == rename_speaker(before, index, label@)[i as int]);
        }
        assert forall|j: int| 0 <= j < i + 1 implies (#[trigger] message_views(messages@)[j])
            == rename_speaker(before, index, label@)[j] by {
            if j < i {
                assert(message_views(prior)[j] == rename_speaker(before, index, label@)[j]);
            }
        }
        assert forall|j: int| i + 1 <= j < n implies (#[trigger] message_views(messages@)[j])
            == before[j] by {
            assert(message_views(prior)[j] == before[j]);
        }
        i += 1;
    }
    assert(message_views(messages@) =~= rename_speaker(before, index, label@));
}

impl TranscriptionWidgetState {
    /// An empty buffer that retains [`MAX_TRANSCRIPTIONS`] messages.
    pub fn new() -> (state: Self)
        ensures
            state@ == BufferView::empty(MAX_TRANSCRIPTIONS as nat),
            state@.wf(),
    {
        Self::with_capacity(MAX_TRANSCRIPTIONS)
    }

    /// An empty buffer that retains `capacity` messages, and at least one.
    pub fn with_capacity(capacity: usize) -> (state: Self)
        ensures
            state@ == BufferView::empty(
                if capacity == 0 {
                    1
                } else {
                    capacity as nat
                },
            ),
            state@.wf(),
    {
        let state = Self {
            transcriptions: VecDeque::new(),
            scroll_position: 0,
            focus: None,
            viewport_height: 0,
            edit: None,
            capacity: if capacity == 0 {
                1
            } else {
                capacity
            },
        };
        assert(state@.messages =~= Seq::<MessageView>::empty());
        state
    }

    /// How many messages the buffer holds.
    pub fn len(&self) -> (n: usize)
        ensures
            n == self@.len(),
    {
        self.transcriptions.len()
    }

    /// Whether the buffer holds no message.
    pub fn is_empty(&self) -> (empty: bool)
        ensures
            empty == (self@.len() == 0),
    {
        self.transcriptions.len() == 0
    }

    /// How many messages the buffer retains.
    pub fn capacity(&self) -> (n: usize)
        ensures
            n == self@.capacity,
    {
        self.capacity
    }

    /// The message of row `index`, row 0 being the oldest.
    pub fn message(&self, index: usize) -> (message: &TranscriptionMessage)
        requires
            index < self@.len(),
        ensures
            message@ == self@.messages[index as int],
    {
        &self.transcriptions[index]
    }

    /// Rows scrolled up from the newest message.
    pub fn scroll_position(&self) -> (rows: usize)
        ensures
            rows == self@.scroll_position,
    {
        self.scroll_position
    }

    /// Rows available for messages; 0 until a height was given.
    pub fn viewport_height(&self) -> (rows: usize)
        ensures
            rows == self@.viewport_height,
    {
        self.viewport_height
    }

    /// The focused row and segment.
    pub fn focus(&self) -> (focus: Option<FocusLocation>)
        ensures
            focus is Some <==> self@.focus is Some,
            focus matches Some(f) ==> f@ == self@.focus->0,
    {
        self.focus
    }

    /// The visible window: the first visible row and one past the last.
    pub fn visible_range(&self) -> (range: (usize, usize))
        ensures
            range.0 == self@.window_start(),
            range.1 == self@.window_end(),
    {
        let total = self.transcriptions.len();
        let rows = if self.viewport_height == 0 || total <= self.viewport_height {
            total
        } else {
            self.viewport_height
        };
        let max_scroll = total - rows;
        let offset = if self.scroll_position <= max_scroll {
            self.scroll_position
        } else {
            max_scroll
        };
        let end = total - offset;
        (end - rows, end)
    }

    /// Adds a message as the newest row. At capacity the oldest row leaves
    /// first, and focus and edit target follow their rows.
    pub fn add_transcription(&mut self, message: TranscriptionMessage)
        requires
            old(self)@.wf(),
        ensures
            final(self)@ == old(self)@.append(message@),
            final(self)@.wf(),
            final(self)@.messages == most_recent(old(self)@.messages.push(message@), old(self)@.capacity),
    {
        proof {
            lemma_append(self@, message@);
        }
        let ghost base = if self@.len() >= self@.capacity {
            self@.evicted()
        } else {
            self@
        };
        if self.transcriptions.len() >= self.capacity {
            let ghost before = self.transcriptions@;
            self.transcriptions.pop_front();
            assert(message_views(self.transcriptions@) =~= message_views(before).skip(1));
            self.handle_removed_front();
            self.clamp_scroll();
        }
        assert(self@ == base);
        let ghost before = self.transcriptions@;
        self.transcriptions.push_back(message);
        assert(message_views(self.transcriptions@) =~= message_views(before).push(message@));
        assert(self@ == base.pushed(message@));
        self.ensure_focus_valid();
        self.ensure_focus_visible();
    }

    /// Moves focus to the previous row.
    pub fn scroll_up(&mut self)
        requires
            old(self)@.wf(),
        ensures
            final(self)@ == old(self)@.focus_prev(),
            final(self)@.wf(),
    {
        self.focus_prev_row();
    }

    /// Moves focus to the next row.
    pub fn scroll_down(&mut self)
        requires
            old(self)@.wf(),
        ensures
            final(self)@ == old(self)@.focus_next(),
            final(self)@.wf(),
    {
        self.focus_next_row();
    }

    /// Moves focus to the speaker segment of its row, if the row has one.
    pub fn focus_left(&mut self)
        requires
            old(self)@.wf(),
        ensures
            final(self)@ == old(self)@.focus_left(),
            final(self)@.wf(),
    {
        proof {
            lemma_apply_keeps_wf(self@, BufferOp::FocusLeft);
        }
        if let Some(focus) = self.focus {
            if self.message_has_speaker(focus.message_index) {
                self.focus = Some(
                    FocusLocation { message_index: focus.message_index, segment: FocusSegment::Speaker },
                );
            }
        }
    }

    /// Moves focus to the message segment of its row.
    pub fn focus_right(&mut self)
        requires
            old(self)@.wf(),
        ensures
            final(self)@ == old(self)@.focus_right(),
            final(self)@.wf(),
    {
        proof {
            lemma_apply_keeps_wf(self@, BufferOp::FocusRight);
        }
        if let Some(focus) = self.focus {
            self.focus = Some(
                FocusLocation { message_index: focus.message_index, segment: FocusSegment::Message },
            );
        }
    }

    /// Sets the number of rows available for messages, at least 1.
    pub fn update_viewport_height(&mut self, height: usize)
        requires
            old(self)@.wf(),
        ensures
            final(self)@ == old(self)@.resized(height as nat),
            final(self)@.wf(),
    {
        proof {
            lemma_resized(self@, height as nat);
        }
        self.viewport_height = if height == 0 {
            1
        } else {
            height
        };
        self.clamp_scroll();
        self.ensure_focus_visible();
    }

    fn focus_prev_row(&mut self)
        requires
            old(self)@.wf(),
        ensures
            final(self)@ == old(self)@.focus_prev(),
            final(self)@.wf(),
    {
        proof {
            lemma_apply_keeps_wf(self@, BufferOp::FocusPrev);
        }
        if let Some(current) = self.focus {
            if current.message_index > 0 {
                let index = current.message_index - 1;
                let segment = self.resolve_segment_for_message(index, current.segment);
                self.focus = Some(FocusLocation { message_index: index, segment });
                self.ensure_focus_visible();
            }
        }
    }

    fn focus_next_row(&mut self)
        requires
            old(self)@.wf(),
        ensures
            final(self)@ == old(self)@.focus_next(),
            final(self)@.wf(),
    {
        proof {
            lemma_apply_keeps_wf(self@, BufferOp::FocusNext);
        }
        if let Some(current) = self.focus {
            if current.message_index + 1 < self.transcriptions.len() {
                let index = current.message_index + 1;
                let segment = self.resolve_segment_for_message(index, current.segment);
                self.focus = Some(FocusLocation { message_index: index, segment });
                self.ensure_focus_visible();
            }
        }
    }

    /// Brings the scroll offset back into range.
    fn clamp_scroll(&mut self)
        ensures
            final(self)@ == old(self)@.clamped(),
    {
        let total = self.transcriptions.len();
        let rows = if self.viewport_height == 0 || total <= self.viewport_height {
            total
        } else {
            self.viewport_height
        };
        let max_scroll = total - rows;
        if self.scroll_position > max_scroll {
            self.scroll_position = max_scroll;
        }
    }

    /// Scrolls by as little as possible so that the focused row is visible.
    fn ensure_focus_visible(&mut self)
        requires
            old(self)@.focus matches Some(f) ==> f.message_index < old(self)@.len(),
        ensures
            final(self)@ == old(self)@.revealed(),
    {
        let total = self.transcriptions.len();
        let rows = if self.viewport_height == 0 || total <= self.viewport_height {
            total
        } else {
            self.viewport_height
        };
        let max_scroll = total - rows;
        let offset = if self.scroll_position <= max_scroll {
            self.scroll_position
        } else {
            max_scroll
        };
        let end = total - offset;
        let start = end - rows;
        match self.focus {
            Some(focus) => {
                if focus.message_index < start {
                    self.scroll_position = total - (focus.message_index + rows);
                } else if focus.message_index >= end {
                    self.scroll_position = total - (focus.message_index + 1);
                } else {
                    self.scroll_position = offset;
                }
            },
            None => {
                self.scroll_position = offset;
            },
        }
    }

    /// Makes focus valid for the rows that exist.
    fn ensure_focus_valid(&mut self)
        ensures
            final(self)@ == old(self)@.refocused(),
    {
        let total = self.transcriptions.len();
        if total == 0 {
            self.focus = None;
            self.scroll_position = 0;
            return ;
        }
        let (wanted, preferred) = match self.focus {
            Some(focus) => (focus.message_index, focus.segment),
            None => (total - 1, FocusSegment::Message),
        };
        let index = if wanted >= total {
            total - 1
        } else {
            wanted
        };
        let segment = self.resolve_segment_for_message(index, preferred);
        self.focus = Some(FocusLocation { message_index: index, segment });
    }

    /// Moves focus and edit target down by one after the oldest row left.
    fn handle_removed_front(&mut self)
        ensures
            final(self)@ == old(self)@.shifted(),
    {
        let total = self.transcriptions.len();
        match self.focus {
            Some(focus) => {
                if total == 0 {
                    self.focus = None;
                } else {
                    let index = if focus.message_index > 0 {
                        focus.message_index - 1
                    } else {
                        0
                    };
                    let segment = self.resolve_segment_for_message(index, focus.segment);
                    self.focus = Some(FocusLocation { message_index: index, segment });
                }
            },
            None => {},
        }
        let edit = self.edit.take();
        match edit {
            Some(session) => {
                if session.message_index > 0 {
                    self.edit = Some(
                        EditSession {
                            message_index: session.message_index - 1,
                            segment: session.segment,
                            buffer: session.buffer,
                            cursor: session.cursor,
                        },
                    );
                }
            },
            None => {},
        }
    }

    fn resolve_segment_for_message(&self, index: usize, preferred: FocusSegment) -> (segment:
        FocusSegment)
        ensures
            segment == resolve_segment(self@.messages, index as nat, preferred),
    {
        match preferred {
            FocusSegment::Speaker => {
                if self.message_has_speaker(index) {
                    FocusSegment::Speaker
                } else {
                    FocusSegment::Message
                }
            },
            FocusSegment::Message => FocusSegment::Message,
        }
    }

    fn message_has_speaker(&self, index: usize) -> (has: bool)
        ensures
            has == self@.has_speaker(index as nat),
    {
        if index < self.transcriptions.len() {
            self.transcriptions[index].speaker.is_some()
        } else {
            false
        }
    }

    /// Whether an edit is in progress.
    pub fn is_editing(&self) -> (editing: bool)
        ensures
            editing == self@.edit is Some,
    {
        self.edit.is_some()
    }

    /// Starts editing the focused segment, unless an edit is in progress.
    pub fn start_editing(&mut self)
        requires
            old(self)@.wf(),
        ensures
            final(self)@ == old(self)@.start_editing(),
            final(self)@.wf(),
    {
        proof {
            lemma_apply_keeps_wf(self@, BufferOp::StartEditing);
        }
        if self.edit.is_some() {
            return ;
        }
        let Some(focus) = self.focus else {
            return ;
        };
        let message = &self.transcriptions[focus.message_index];
        match focus.segment {
            FocusSegment::Speaker => {
                if let Some(label) = &message.speaker {
                    let buffer = label.clone();
                    let cursor = buffer.as_str().unicode_len();
                    self.edit = Some(
                        EditSession {
                            message_index: focus.message_index,
                            segment: FocusSegment::Speaker,
                            buffer,
                            cursor,
                        },
                    );
                }
            },
            FocusSegment::Message => {
                let buffer = message.content.clone();
                let cursor = buffer.as_str().unicode_len();
                self.edit = Some(
                    EditSession {
                        message_index: focus.message_index,
                        segment: FocusSegment::Message,
                        buffer,
                        cursor,
                    },
                );
            },
        }
    }

    /// Ends the edit in progress without changing any message.
    pub fn cancel_editing(&mut self)
        requires
            old(self)@.wf(),
        ensures
            final(self)@ == old(self)@.cancel_editing(),
            final(self)@.wf(),
    {
        self.edit = None;
    }

    /// Applies the edit in progress and ends it.
    ///
    /// A message edit replaces the content of its row. A speaker edit whose
    /// text is not blank renames the speaker of its row, with the white space
    /// around the text removed: where the row has a speaker id, every row of
    /// that id takes the name and `names` records it for the id; otherwise the
    /// row is renamed alone.
    pub fn apply_edit(&mut self, names: &mut SpeakerNames)
        requires
            old(self)@.wf(),
        ensures
            final(self)@ == old(self)@.apply_edit(),
            final(self)@.wf(),
            final(names)@ == match (old(self)@.pending_speaker_id(), old(self)@.pending_label()) {
                (Some(id), Some(label)) => old(names)@.insert(id, label),
                _ => old(names)@,
            },
    {
        proof {
            lemma_apply_edit(self@);
        }
        let ghost before = self.transcriptions@;
        let edit = self.edit.take();
        let Some(session) = edit else {
            return ;
        };
        let index = session.message_index;
        match session.segment {
            FocusSegment::Speaker => {
                let label = trim(session.buffer.as_str());
                if label.as_str().unicode_len() > 0 {
                    match self.transcriptions[index].speaker_id {
                        Some(speaker_id) => {
                            names.set_speaker_name(speaker_id, label.clone());
                            relabel_speaker(
                                &mut self.transcriptions,
                                speaker_id,
                                &label,
                                Ghost(index as nat),
                            );
                        },
                        None => {
                            let row = self.transcriptions.remove(index).unwrap();
                            let renamed = TranscriptionMessage {
                                speaker: Some(label),
                                speaker_id: row.speaker_id,
                                content: row.content,
                            };
                            self.transcriptions.insert(index, renamed);
                            assert(message_views(self.transcriptions@) =~= rename_speaker(
                                message_views(before),
                                index as nat,
                                label@,
                            ));
                        },
                    }
                }
            },
            FocusSegment::Message => {
                let row = self.transcriptions.remove(index).unwrap();
                let edited = TranscriptionMessage {
                    speaker: row.speaker,
                    speaker_id: row.speaker_id,
                    content: session.buffer,
                };
                self.transcriptions.insert(index, edited);
                assert(message_views(self.transcriptions@) =~= message_views(before).update(
                    index as int,
                    edited@,
                ));
            },
        }
    }

    /// Types `c` at the cursor of the edit in progress.
    pub fn handle_char_input(&mut self, c: char)
        requires
            old(self)@.wf(),
        ensures
            final(self)@ == old(self)@.insert_char(c),
            final(self)@.wf(),
    {
        proof {
            lemma_apply_keeps_wf(self@, BufferOp::Insert(c));
        }
        let edit = self.edit.take();
        if let Some(session) = edit {
            let buffer = insert_char_at(session.buffer.as_str(), session.cursor, c);
            // counting the longer text shows that the cursor can advance
            let _ = buffer.as_str().unicode_len();
            self.edit = Some(
                EditSession {
                    message_index: session.message_index,
                    segment: session.segment,
                    buffer,
                    cursor: session.cursor + 1,
                },
            );
        }
    }

    /// Removes the character in front of the cursor of the edit in progress.
    pub fn handle_backspace(&mut self)
        requires
            old(self)@.wf(),
        ensures
            final(self)@ == old(self)@.backspace(),
            final(self)@.wf(),
    {
        proof {
            lemma_apply_keeps_wf(self@, BufferOp::Backspace);
        }
        let edit = self.edit.take();
        if let Some(session) = edit {
            if session.cursor > 0 {
                let buffer = remove_char_at(session.buffer.as_str(), session.cursor - 1);
                self.edit = Some(
                    EditSession {
                        message_index: session.message_index,
                        segment: session.segment,
                        buffer,
                        cursor: session.cursor - 1,
                    },
                );
            } else {
                self.edit = Some(session);
            }
        }
    }

    /// Moves the cursor of the edit in progress one character to the left.
    pub fn move_cursor_left(&mut self)
        requires
            old(self)@.wf(),
        ensures
            final(self)@ == old(self)@.cursor_left(),
            final(self)@.wf(),
    {
        proof {
            lemma_apply_keeps_wf(self@, BufferOp::CursorLeft);
        }
        let edit = self.edit.take();
        if let Some(session) = edit {
            let cursor = if session.cursor > 0 {
                session.cursor - 1
            } else {
                session.cursor
            };
            self.edit = Some(
                EditSession {
                    message_index: session.message_index,
                    segment: session.segment,
                    buffer: session.buffer,
                    cursor,
                },
            );
        }
    }

    /// Moves the cursor of the edit in progress one character to the right.
    pub fn move_cursor_right(&mut self)
        requires
            old(self)@.wf(),
        ensures
            final(self)@ == old(self)@.cursor_right(),
            final(self)@.wf(),
    {
        proof {
            lemma_apply_keeps_wf(self@, BufferOp::CursorRight);
        }
        let edit = self.edit.take();
        if let Some(session) = edit {
            let length = session.buffer.as_str().unicode_len();
            let cursor = if session.cursor < length {
                session.cursor + 1
            } else {
                session.cursor
            };
            self.edit = Some(
                EditSession {
                    message_index: session.message_index,
                    segment: session.segment,
                    buffer: session.buffer,
                    cursor,
                },
            );
        }
    }

    /// The edit in progress as the row and segment it changes and the text in
    /// front of and after the cursor.
    pub fn edit_parts(&self) -> (parts: Option<(usize, FocusSegment, String, String)>)
        requires
            self@.wf(),
        ensures
            parts is Some <==> self@.edit is Some,
            parts matches Some(shown) ==> {
                let edit = self@.edit->0;
                &&& shown.0 == edit.message_index
                &&& shown.1 == edit.segment
                &&& shown.2@ == edit.buffer.subrange(0, edit.cursor as int)
                &&& shown.3@ == edit.buffer.subrange(edit.cursor as int, edit.buffer.len() as int)
            },
    {
        match &self.edit {
            Some(session) => {
                let text = session.buffer.as_str();
                let length = text.unicode_len();
                Some(
                    (
                        session.message_index,
                        session.segment,
                        String::from_str(text.substring_char(0, session.cursor)),
                        String::from_str(text.substring_char(session.cursor, length)),
                    ),
                )
            },
            None => None,
        }
    }

    /// The edit in progress for display: its text, the cursor as a byte
    /// offset into the text, and whether a speaker label is being edited.
    /// The offset is the length in bytes of the characters in front of the
    /// cursor: it lies on a character boundary, so the text can be split
    /// there.
    pub fn get_edit_state(&self) -> (state: Option<(&str, usize, bool)>)
        requires
            self@.wf(),
        ensures
            state is Some <==> self@.edit is Some,
            state matches Some(shown) ==> {
                let edit = self@.edit->0;
                &&& shown.0@ == edit.buffer
                &&& shown.1 == encode_utf8(edit.buffer.subrange(0, edit.cursor as int)).len()
                &&& shown.1 <= encode_utf8(edit.buffer).len()
                &&& is_char_boundary(encode_utf8(edit.buffer), shown.1 as int)
                &&& shown.2 == (edit.segment is Speaker)
            },
    {
        match &self.edit {
            Some(session) => {
                proof {
                    lemma_prefix_ends_on_char_boundary(session.buffer@, session.cursor as int);
                }
                let text = session.buffer.as_str();
                let offset = text.substring_char(0, session.cursor).as_bytes().len();
                let speaker = match session.segment {
                    FocusSegment::Speaker => true,
                    FocusSegment::Message => false,
                };
                Some((text, offset, speaker))
            },
            None => None,
        }
    }
}

} // verus!
