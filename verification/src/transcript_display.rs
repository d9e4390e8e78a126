//! What the transcript shows: the visible rows as spans of text with their
//! styles, and the titles of the frame.

use vstd::prelude::*;
use vstd::string::*;
use crate::state::RecordingState;
use crate::text::push_char;
use crate::transcript::TranscriptionWidgetState;
use crate::transcript_model::{BufferView, EditView, FocusSegment, FocusView};

verus! {

/// How a span of the transcript is drawn.
#[derive(Debug, Clone, Copy, PartialEq, Eq, Structural)]
pub enum SegmentStyle {
    /// Without any style.
    Plain,
    /// As the label of a speaker.
    Speaker,
    /// As the focused segment.
    Highlight,
    /// As text that is being edited.
    Edit,
    /// As the cursor of an edit.
    Cursor,
    /// As a hint.
    Muted,
}

/// A span of the transcript.
#[derive(Debug, Clone)]
pub struct TranscriptSpan {
    pub text: String,
    pub style: SegmentStyle,
}

/// A span as plain values.
pub struct SpanView {
    pub text: Seq<char>,
    pub style: SegmentStyle,
}

impl View for TranscriptSpan {
    type V = SpanView;

    open spec fn view(&self) -> SpanView {
        SpanView { text: self.text@, style: self.style }
    }
}

/// The spans as plain values.
pub open spec fn span_views(spans: Seq<TranscriptSpan>) -> Seq<SpanView> {
    Seq::new(spans.len(), |i: int| spans[i]@)
}

/// The lines as plain values.
pub open spec fn line_views(lines: Seq<Vec<TranscriptSpan>>) -> Seq<Seq<SpanView>> {
    Seq::new(lines.len(), |i: int| span_views(lines[i]@))
}

/// The character that stands for the cursor.
pub const CURSOR: &'static str = "█";

/// What an empty transcript shows.
pub const WAITING: &'static str = "Waiting for transcriptions...";

/// A span, unless its text is empty.
pub open spec fn optional_span(text: Seq<char>, style: SegmentStyle) -> Seq<SpanView> {
    if text.len() > 0 {
        seq![SpanView { text, style }]
    } else {
        Seq::empty()
    }
}

/// The spans of a text that is being edited: the text in front of the
/// cursor, the cursor, and the text after it.
pub open spec fn editing_spans(edit: EditView) -> Seq<SpanView> {
    optional_span(edit.buffer.subrange(0, edit.cursor as int), SegmentStyle::Edit) + seq![
        SpanView { text: CURSOR@, style: SegmentStyle::Cursor },
    ] + optional_span(
        edit.buffer.subrange(edit.cursor as int, edit.buffer.len() as int),
        SegmentStyle::Edit,
    )
}

/// Whether row `index` is being edited in the given segment.
pub open spec fn edits(b: BufferView, index: nat, segment: FocusSegment) -> bool {
    b.edit matches Some(edit) && edit.message_index == index && edit.segment == segment
}

/// Whether focus is on the given segment of row `index`.
pub open spec fn focuses(b: BufferView, index: nat, segment: FocusSegment) -> bool {
    b.focus == Some(FocusView { message_index: index, segment })
}

/// The style of a segment that is not being edited.
pub open spec fn segment_style(focused: bool, otherwise: SegmentStyle) -> SegmentStyle {
    if focused {
        SegmentStyle::Highlight
    } else {
        otherwise
    }
}

/// The spans of the speaker of a row: none without a speaker label; the
/// label in brackets otherwise, as the edit if it is being edited.
pub open spec fn speaker_spans(b: BufferView, index: nat) -> Seq<SpanView> {
    match b.messages[index as int].speaker {
        None => Seq::empty(),
        Some(label) => if edits(b, index, FocusSegment::Speaker) {
            seq![SpanView { text: "["@, style: SegmentStyle::Plain }] + editing_spans(b.edit->0)
                + seq![SpanView { text: "]: "@, style: SegmentStyle::Plain }]
        } else {
            seq![
                SpanView {
                    text: "["@ + label + "]: "@,
                    style: segment_style(
                        focuses(b, index, FocusSegment::Speaker),
                        SegmentStyle::Speaker,
                    ),
                },
            ]
        },
    }
}

/// The spans of the message of a row: its content, as the edit if it is
/// being edited.
pub open spec fn message_spans(b: BufferView, index: nat) -> Seq<SpanView> {
    if edits(b, index, FocusSegment::Message) {
        editing_spans(b.edit->0)
    } else {
        seq![
            SpanView {
                text: b.messages[index as int].content,
                style: segment_style(focuses(b, index, FocusSegment::Message), SegmentStyle::Plain),
            },
        ]
    }
}

/// The spans of a row: those of its speaker, then those of its message.
pub open spec fn row_spans(b: BufferView, index: nat) -> Seq<SpanView> {
    speaker_spans(b, index) + message_spans(b, index)
}

/// The lines of the transcript: one for each row of the visible window, or a
/// hint where the transcript is empty.
pub open spec fn transcript_lines(b: BufferView) -> Seq<Seq<SpanView>> {
    if b.len() == 0 {
        seq![seq![SpanView { text: WAITING@, style: SegmentStyle::Muted }]]
    } else {
        Seq::new(
            (b.window_end() - b.window_start()) as nat,
            |i: int| row_spans(b, (b.window_start() + i) as nat),
        )
    }
}

/// The rows for messages in an area of the given height: the height without
/// the frame, and at least one.
pub open spec fn content_rows(area_height: u16) -> u16 {
    if area_height > 3 {
        (area_height - 2) as u16
    } else {
        1
    }
}

/// The rows for messages in an area of the given height.
pub fn content_height(area_height: u16) -> (rows: u16)
    ensures
        rows == content_rows(area_height),
{
    if area_height > 3 {
        area_height - 2
    } else {
        1
    }
}

/// The title of the transcript: whether audio is being recorded, and for how
/// long it was.
pub open spec fn title(state: RecordingState, timer: Seq<char>) -> Seq<char> {
    " Transcriptions "@ + (match state {
        RecordingState::Recording => "● RECORDING"@,
        RecordingState::Paused => "⏸ PAUSED"@,
    }) + seq![' '] + timer + seq![' ']
}

/// The title of the transcript.
pub fn build_title(state: RecordingState, timer: &str) -> (text: String)
    ensures
        text@ == title(state, timer@),
{
    let mut text = String::from_str(" Transcriptions ");
    match state {
        RecordingState::Recording => text.append("● RECORDING"),
        RecordingState::Paused => text.append("⏸ PAUSED"),
    }
    push_char(&mut text, ' ');
    text.append(timer);
    push_char(&mut text, ' ');
    text
}

/// The title that names the input device.
pub fn build_device_title(device_name: &str) -> (text: String)
    ensures
        text@ == " 🎤 "@ + device_name@ + " (D: Change) "@,
{
    let mut text = String::from_str(" 🎤 ");
    text.append(device_name);
    text.append(" (D: Change) ");
    text
}

fn span(text: String, style: SegmentStyle) -> (made: TranscriptSpan)
    ensures
        made@ == (SpanView { text: text@, style }),
{
    TranscriptSpan { text, style }
}

/// Adds the spans of an edit.
fn push_editing(spans: &mut Vec<TranscriptSpan>, before: &String, after: &String, Ghost(edit): Ghost<
    EditView,
>)
    requires
        before@ == edit.buffer.subrange(0, edit.cursor as int),
        after@ == edit.buffer.subrange(edit.cursor as int, edit.buffer.len() as int),
    ensures
        span_views(final(spans)@) == span_views(old(spans)@) + editing_spans(edit),
{
    let ghost start = span_views(spans@);
    if !before.as_str().is_empty() {
        spans.push(span(before.clone(), SegmentStyle::Edit));
    }
    assert(span_views(spans@) =~= start + optional_span(before@, SegmentStyle::Edit));
    let ghost front = span_views(spans@);
    spans.push(span(String::from_str(CURSOR), SegmentStyle::Cursor));
    assert(span_views(spans@) =~= front + seq![
        SpanView { text: CURSOR@, style: SegmentStyle::Cursor },
    ]);
    let ghost middle = span_views(spans@);
    if !after.as_str().is_empty() {
        spans.push(span(after.clone(), SegmentStyle::Edit));
    }
    assert(span_views(spans@) =~= middle + optional_span(after@, SegmentStyle::Edit));
    assert(span_views(spans@) =~= start + editing_spans(edit));
}

impl TranscriptionWidgetState {
    /// The spans of a row.
    pub fn render_row(&self, index: usize) -> (spans: Vec<TranscriptSpan>)
        requires
            self@.wf(),
            index < self@.len(),
        ensures
            span_views(spans@) == row_spans(self@, index as nat),
    {
        let mut spans: Vec<TranscriptSpan> = Vec::new();
        let message = self.message(index);
        let focus = self.focus();
        let editing = self.edit_parts();
        let (on_speaker, on_message) = match focus {
            Some(focus) => match focus.segment {
                FocusSegment::Speaker => (focus.message_index == index, false),
                FocusSegment::Message => (false, focus.message_index == index),
            },
            None => (false, false),
        };
        assert(on_speaker == focuses(self@, index as nat, FocusSegment::Speaker));
        assert(on_message == focuses(self@, index as nat, FocusSegment::Message));
        let (edits_speaker, edits_message) = match &editing {
            Some((target, segment, _, _)) => match segment {
                FocusSegment::Speaker => (*target == index, false),
                FocusSegment::Message => (false, *target == index),
            },
            None => (false, false),
        };
        assert(edits_speaker == edits(self@, index as nat, FocusSegment::Speaker));
        assert(edits_message == edits(self@, index as nat, FocusSegment::Message));
        if let Some(label) = &message.speaker {
            if edits_speaker {
                spans.push(span(String::from_str("["), SegmentStyle::Plain));
                let ghost opened = span_views(spans@);
                assert(opened =~= seq![SpanView { text: "["@, style: SegmentStyle::Plain }]);
                if let Some((_, _, before, after)) = &editing {
                    push_editing(&mut spans, before, after, Ghost(self@.edit->0));
                }
                let ghost edited = span_views(spans@);
                spans.push(span(String::from_str("]: "), SegmentStyle::Plain));
                assert(span_views(spans@) =~= edited + seq![
                    SpanView { text: "]: "@, style: SegmentStyle::Plain },
                ]);
            } else {
                let mut text = String::from_str("[");
                text.append(label.as_str());
                text.append("]: ");
                let style = if on_speaker {
                    SegmentStyle::Highlight
                } else {
                    SegmentStyle::Speaker
                };
                spans.push(span(text, style));
                assert(span_views(spans@) =~= seq![SpanView { text: text@, style }]);
            }
        }
        assert(message@ == self@.messages[index as int]);
        assert(span_views(spans@) =~= speaker_spans(self@, index as nat));
        let ghost labelled = span_views(spans@);
        if edits_message {
            if let Some((_, _, before, after)) = &editing {
                push_editing(&mut spans, before, after, Ghost(self@.edit->0));
            }
        } else {
            let style = if on_message {
                SegmentStyle::Highlight
            } else {
                SegmentStyle::Plain
            };
            spans.push(span(message.content.clone(), style));
            assert(span_views(spans@) =~= labelled + seq![
                SpanView { text: message.content@, style },
            ]);
        }
        assert(span_views(spans@) =~= row_spans(self@, index as nat));
        spans
    }

    /// The lines of the transcript, top to bottom.
    pub fn render_lines(&self) -> (lines: Vec<Vec<TranscriptSpan>>)
        requires
            self@.wf(),
        ensures
            line_views(lines@) == transcript_lines(self@),
    {
        let mut lines: Vec<Vec<TranscriptSpan>> = Vec::new();
        if self.is_empty() {
            let mut hint: Vec<TranscriptSpan> = Vec::new();
            hint.push(span(String::from_str(WAITING), SegmentStyle::Muted));
            assert(span_views(hint@) =~= seq![
                SpanView { text: WAITING@, style: SegmentStyle::Muted },
            ]);
            lines.push(hint);
            assert(line_views(lines@) =~= transcript_lines(self@));
            return lines;
        }
        let (start, end) = self.visible_range();
        let mut index = start;
        while index < end
            invariant
                self@.wf(),
                start == self@.window_start(),
                end == self@.window_end(),
                start <= index <= end,
                end <= self@.len(),
                lines@.len() == index - start,
                forall|i: int|
                    0 <= i < index - start ==> span_views((#[trigger] lines@[i])@) == row_spans(
                        self@,
                        (start + i) as nat,
                    ),
            decreases end - index,
        {
            lines.push(self.render_row(index));
            index += 1;
        }
        assert(line_views(lines@) =~= transcript_lines(self@));
        lines
    }
}

} // verus!
