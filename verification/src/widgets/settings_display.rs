//! What the settings dialog shows: the text of each value, the parts of an
//! entry's value with their styles, the lines of the detail panel and the
//! size of the dialog.

use vstd::prelude::*;
use vstd::string::*;
use crate::config::manager::ConfigManager;
use crate::config::model::ConfigView;
use crate::config::schema::{
    option_index, option_views, pow10, round_to_multiple, ConfigEntry, ConfigField, EntryView,
    FieldView, OptionView, SelectOption,
};
use crate::text::{decimal_digits, digit_char, push_char, push_decimal, str_eq};
use crate::widgets::settings_dialog::{
    item_views, DialogView, DisplayItem, ItemView, SettingsDialogState, TextEditView,
};

verus! {

/// The last `width` decimal digits of `n`, with zeros in front where `n` has
/// fewer.
pub open spec fn fixed_digits(n: nat, width: nat) -> Seq<char>
    decreases width,
{
    if width == 0 {
        Seq::empty()
    } else {
        fixed_digits(n / 10, (width - 1) as nat).push(digit_char(n % 10))
    }
}

/// The digits without the zeros at their end.
pub open spec fn strip_zeros(digits: Seq<char>) -> Seq<char>
    decreases digits.len(),
{
    if digits.len() > 0 && digits.last() == '0' {
        strip_zeros(digits.drop_last())
    } else {
        digits
    }
}

/// A number, in millionths, as text: rounded to `precision` decimal places,
/// of which the zeros at the end are left out, and the point with them where
/// no place is left.
pub open spec fn number_text(value: i64, precision: nat) -> Seq<char> {
    let places = if precision > 6 {
        6
    } else {
        precision
    };
    let unit = pow10((6 - places) as nat);
    let rounded = round_to_multiple(value as int, unit);
    let magnitude = if rounded < 0 {
        -rounded
    } else {
        rounded
    };
    let sign = if rounded < 0 {
        seq!['-']
    } else {
        Seq::<char>::empty()
    };
    let fraction = strip_zeros(fixed_digits(((magnitude % 1000000) / unit) as nat, places));
    sign + decimal_digits((magnitude / 1000000) as nat) + if fraction.len() > 0 {
        seq!['.'] + fraction
    } else {
        Seq::<char>::empty()
    }
}

/// The label of the option with the value, or the value where no option has
/// it.
pub open spec fn option_label(options: Seq<OptionView>, value: Seq<char>) -> Seq<char> {
    if crate::config::schema::has_option(options, value) {
        options[option_index(options, value)].label
    } else {
        value
    }
}

/// The value of an entry as text: `On` or `Off` for a toggle, the number with
/// its unit, the label of the chosen option, or the text.
pub open spec fn value_text(entry: EntryView, config: ConfigView) -> Seq<char> {
    match entry.field {
        FieldView::Toggle { .. } => if config.bool_value(entry.key) == Ok::<
            bool,
            crate::config::schema::ErrorView,
        >(true) {
            "On"@
        } else {
            "Off"@
        },
        FieldView::Number(field) => {
            let value = match config.number_value(entry.key) {
                Ok(value) => value,
                Err(_) => field.default,
            };
            let precision = match field.precision {
                Some(places) => places as nat,
                None => 0,
            };
            match field.unit {
                Some(unit) => number_text(value, precision) + seq![' '] + unit,
                None => number_text(value, precision),
            }
        },
        FieldView::Select { default, options } => match config.select_value(entry.key) {
            Ok(current) => option_label(options, current),
            Err(_) => "—"@,
        },
        FieldView::Text(field) => match config.text_value(entry.key) {
            Ok(text) => text,
            Err(_) => field.default,
        },
    }
}

/// How a part of a value is drawn.
#[derive(Debug, Clone, Copy, PartialEq, Eq, Structural)]
pub enum SpanStyle {
    /// In the accent colour.
    Accent,
    /// In the accent colour, bold.
    AccentBold,
    /// As the cursor.
    Cursor,
    /// As a hint that no value is set.
    Placeholder,
}

/// A part of a value with its style.
#[derive(Debug, Clone)]
pub struct ValueSpan {
    pub text: String,
    pub style: SpanStyle,
}

/// A span as plain values.
pub struct SpanView {
    pub text: Seq<char>,
    pub style: SpanStyle,
}

impl View for ValueSpan {
    type V = SpanView;

    open spec fn view(&self) -> SpanView {
        SpanView { text: self.text@, style: self.style }
    }
}

/// The spans as plain values.
pub open spec fn span_views(spans: Seq<ValueSpan>) -> Seq<SpanView> {
    Seq::new(spans.len(), |i: int| spans[i]@)
}

/// The character that stands for the cursor.
pub const CURSOR: &'static str = "█";

/// `count` asterisks.
pub open spec fn mask(count: nat) -> Seq<char> {
    Seq::new(count, |i: int| '*')
}

/// How many asterisks stand for a secret of `length` characters: as many,
/// but no fewer than 4 and no more than 12.
pub open spec fn mask_length(length: nat) -> nat {
    if length < 4 {
        4
    } else if length > 12 {
        12
    } else {
        length
    }
}

/// The spans of a text that is being edited: the text in front of the
/// cursor, the cursor, and the text after it.
pub open spec fn edit_spans(edit: TextEditView) -> Seq<SpanView> {
    let style = if edit.secret {
        SpanStyle::Accent
    } else {
        SpanStyle::AccentBold
    };
    let before = edit.buffer.subrange(0, edit.cursor as int);
    let after = edit.buffer.subrange(edit.cursor as int, edit.buffer.len() as int);
    let front = if before.len() > 0 {
        seq![SpanView { text: before, style }]
    } else {
        Seq::<SpanView>::empty()
    };
    let back = if after.len() > 0 {
        seq![SpanView { text: after, style }]
    } else {
        Seq::<SpanView>::empty()
    };
    front + seq![SpanView { text: CURSOR@, style: SpanStyle::Cursor }] + back
}

/// A width, no more than the largest that can be counted.
pub open spec fn capped(width: nat) -> nat {
    if width > usize::MAX {
        usize::MAX as nat
    } else {
        width
    }
}

/// The spans of an entry's value and their width in characters. A text that
/// is being edited shows with the cursor; a text that is not set shows its
/// placeholder; a secret shows as asterisks; anything else shows as its text.
pub open spec fn value_spans(entry: EntryView, config: ConfigView, editing: Option<TextEditView>) -> (
    Seq<SpanView>,
    nat,
) {
    match (entry.field, editing) {
        (FieldView::Text(_), Some(edit)) => (edit_spans(edit), capped(edit.buffer.len() + 1)),
        (FieldView::Text(field), None) => {
            let value = value_text(entry, config);
            if value.len() == 0 {
                let hint = match field.placeholder {
                    Some(hint) => hint,
                    None => "<not set>"@,
                };
                (seq![SpanView { text: hint, style: SpanStyle::Placeholder }], hint.len())
            } else if field.secret {
                (
                    seq![
                        SpanView { text: mask(mask_length(value.len())), style: SpanStyle::AccentBold },
                    ],
                    mask_length(value.len()),
                )
            } else {
                (seq![SpanView { text: value, style: SpanStyle::AccentBold }], value.len())
            }
        },
        _ => (
            seq![SpanView { text: value_text(entry, config), style: SpanStyle::AccentBold }],
            value_text(entry, config).len(),
        ),
    }
}

fn push_fixed_digits(out: &mut String, n: u64, width: usize)
    ensures
        final(out)@ == old(out)@ + fixed_digits(n as nat, width as nat),
    decreases width,
{
    if width > 0 {
        push_fixed_digits(out, n / 10, width - 1);
        let digit = n % 10;
        let c = if digit == 0 {
            '0'
        } else if digit == 1 {
            '1'
        } else if digit == 2 {
            '2'
        } else if digit == 3 {
            '3'
        } else if digit == 4 {
            '4'
        } else if digit == 5 {
            '5'
        } else if digit == 6 {
            '6'
        } else if digit == 7 {
            '7'
        } else if digit == 8 {
            '8'
        } else {
            '9'
        };
        push_char(out, c);
    }
    assert(out@ =~= old(out)@ + fixed_digits(n as nat, width as nat));
}

/// The unit that a number is rounded to for a number of decimal places.
fn rounding_unit(places: usize) -> (unit: i128)
    requires
        places <= 6,
    ensures
        unit == pow10((6 - places) as nat),
        1 <= unit <= 1000000,
{
    reveal_with_fuel(pow10, 7);
    if places == 0 {
        1000000
    } else if places == 1 {
        100000
    } else if places == 2 {
        10000
    } else if places == 3 {
        1000
    } else if places == 4 {
        100
    } else if places == 5 {
        10
    } else {
        1
    }
}

/// The size of a number rounded to a multiple of `unit`, and whether the
/// rounded number is negative.
fn rounded_size(value: i64, unit: i128) -> (rounded: (bool, i128))
    requires
        1 <= unit <= 1000000,
    ensures
        rounded.0 == (round_to_multiple(value as int, unit as int) < 0),
        rounded.1 == if round_to_multiple(value as int, unit as int) < 0 {
            -round_to_multiple(value as int, unit as int)
        } else {
            round_to_multiple(value as int, unit as int)
        },
        0 <= rounded.1 <= 9223372036854775808 + 500000,
{
    let wide: i128 = value as i128;
    let size: i128 = if wide >= 0 {
        wide
    } else {
        -wide
    };
    let steps: i128 = (size + unit / 2) / unit;
    assert(0 <= steps * unit <= size + unit / 2) by (nonlinear_arith)
        requires
            steps == (size + unit / 2) as int / (unit as int),
            size >= 0,
            unit >= 1,
    ;
    let magnitude: i128 = steps * unit;
    (wide < 0 && magnitude > 0, magnitude)
}

/// Appends the decimal places of a number: a point and the digits, without
/// the zeros at their end; nothing where no digit is left.
fn push_fraction(out: &mut String, fraction: u64, places: usize)
    ensures
        final(out)@ == old(out)@ + if strip_zeros(fixed_digits(fraction as nat, places as nat)).len()
            > 0 {
            seq!['.'] + strip_zeros(fixed_digits(fraction as nat, places as nat))
        } else {
            Seq::<char>::empty()
        },
{
    let mut digits: u64 = fraction;
    let mut width: usize = places;
    while width > 0 && digits % 10 == 0
        invariant
            width <= places,
            strip_zeros(fixed_digits(fraction as nat, places as nat)) == strip_zeros(
                fixed_digits(digits as nat, width as nat),
            ),
        decreases width,
    {
        assert(fixed_digits(digits as nat, width as nat).last() == '0');
        assert(fixed_digits(digits as nat, width as nat).drop_last() =~= fixed_digits(
            (digits / 10) as nat,
            (width - 1) as nat,
        ));
        digits = digits / 10;
        width = width - 1;
    }
    proof {
        if width > 0 {
            assert(fixed_digits(digits as nat, width as nat).last() == digit_char(
                (digits % 10) as nat,
            ));
        }
    }
    if width > 0 {
        push_char(out, '.');
        push_fixed_digits(out, digits, width);
        assert(out@ =~= old(out)@ + (seq!['.'] + fixed_digits(digits as nat, width as nat)));
    } else {
        assert(out@ =~= old(out)@ + Seq::<char>::empty());
    }
}

/// A number, in millionths, as text.
pub fn format_number(value: i64, precision: usize) -> (text: String)
    ensures
        text@ == number_text(value, precision as nat),
{
    let places: usize = if precision > 6 {
        6
    } else {
        precision
    };
    let unit = rounding_unit(places);
    let (negative, magnitude) = rounded_size(value, unit);
    let whole: i128 = magnitude / 1000000;
    let fraction: i128 = (magnitude % 1000000) / unit;
    let mut text = String::new();
    if negative {
        push_char(&mut text, '-');
    }
    push_decimal(&mut text, whole as u64);
    push_fraction(&mut text, fraction as u64, places);
    assert(text@ =~= number_text(value, precision as nat));
    text
}

/// The value of an entry as text.
pub fn format_value(entry: &ConfigEntry, manager: &ConfigManager) -> (text: String)
    requires
        manager.wf(),
    ensures
        text@ == value_text(entry@, manager@),
{
    match &entry.field {
        ConfigField::Toggle { .. } => {
            let enabled = match manager.bool_value(entry.key.as_str()) {
                Ok(flag) => flag,
                Err(_) => false,
            };
            if enabled {
                String::from_str("On")
            } else {
                String::from_str("Off")
            }
        },
        ConfigField::Number(field) => {
            let value = match manager.number_value(entry.key.as_str()) {
                Ok(value) => value,
                Err(_) => field.default,
            };
            let precision: usize = match field.precision {
                Some(places) => places as usize,
                None => 0,
            };
            let mut text = format_number(value, precision);
            if let Some(unit) = &field.unit {
                push_char(&mut text, ' ');
                text.append(unit.as_str());
            }
            text
        },
        ConfigField::Select { options, .. } => {
            match manager.select_value(entry.key.as_str()) {
                Ok(current) => label_of(options, current),
                Err(_) => String::from_str("—"),
            }
        },
        ConfigField::Text(field) => match manager.text_value(entry.key.as_str()) {
            Ok(text) => text,
            Err(_) => field.default.clone(),
        },
    }
}

/// The label of the option with the value, or the value itself.
fn label_of(options: &Vec<SelectOption>, value: String) -> (label: String)
    ensures
        label@ == option_label(option_views(options@), value@),
{
    let n = options.len();
    let mut i: usize = 0;
    while i < n
        invariant
            i <= n,
            n == options@.len(),
            forall|j: int| 0 <= j < i ==> (#[trigger] option_views(options@)[j]).value != value@,
        decreases n - i,
    {
        if str_eq(options[i].value.as_str(), value.as_str()) {
            proof {
                crate::config::manager::lemma_option_index_at(
                    option_views(options@),
                    value@,
                    i as int,
                );
            }
            return options[i].label.clone();
        }
        i += 1;
    }
    proof {
        crate::config::manager::lemma_option_index_none(option_views(options@), value@);
    }
    value
}

/// A line of the detail panel.
#[derive(Debug, Clone)]
pub struct DetailLine {
    pub text: String,
    /// Whether the line is drawn in the accent colour.
    pub accent: bool,
}

/// A line of the detail panel as plain values.
pub struct LineView {
    pub text: Seq<char>,
    pub accent: bool,
}

impl View for DetailLine {
    type V = LineView;

    open spec fn view(&self) -> LineView {
        LineView { text: self.text@, accent: self.accent }
    }
}

/// The lines as plain values.
pub open spec fn line_views(lines: Seq<DetailLine>) -> Seq<LineView> {
    Seq::new(lines.len(), |i: int| lines[i]@)
}

/// The keys that change a field, by the kind of field.
pub open spec fn instructions(field: FieldView) -> &'static str {
    match field {
        FieldView::Toggle { .. } => "SPACE/ENTER toggle • ↑/↓ navigate • ESC close",
        FieldView::Number(_) => "←/→ adjust • +/- fine tune • Shift/Ctrl for larger steps • ESC close",
        FieldView::Select { .. } => "←/→ cycle options • SPACE/ENTER advance • ESC close",
        FieldView::Text(_) => "ENTER edit • type to change • ENTER saves • ESC cancels",
    }
}

/// What the detail panel says of an entry's value; nothing for a text field
/// that cannot be read.
pub open spec fn value_preview(entry: EntryView, config: ConfigView) -> Seq<char> {
    match entry.field {
        FieldView::Text(field) => match config.text_value(entry.key) {
            Ok(text) => if text.len() == 0 {
                "Current value: (not set)"@
            } else if field.secret {
                "Current value: (hidden)"@
            } else {
                "Current value: "@ + text
            },
            Err(_) => Seq::empty(),
        },
        _ => "Current value: "@ + value_text(entry, config),
    }
}

/// A line that is there only if it has text.
pub open spec fn optional_line(text: Option<Seq<char>>) -> Seq<LineView> {
    match text {
        Some(text) => seq![LineView { text, accent: false }],
        None => Seq::empty(),
    }
}

/// The lines of the detail panel for a row: its description, and for an
/// entry the keys that change it and its value.
pub open spec fn row_details(item: ItemView, config: ConfigView) -> Seq<LineView> {
    match item {
        ItemView::Group { description, .. } => optional_line(description),
        ItemView::Entry { entry, .. } => optional_line(entry.description) + seq![
            LineView { text: instructions(entry.field)@, accent: true },
        ] + if value_preview(entry, config).len() > 0 {
            seq![LineView { text: value_preview(entry, config), accent: false }]
        } else {
            Seq::<LineView>::empty()
        },
    }
}

/// The lines of the detail panel: those of the selected row, or a hint at
/// the keys where there are none.
pub open spec fn details(dialog: DialogView, config: ConfigView) -> Seq<LineView> {
    let lines = if dialog.selected_row < dialog.items.len() {
        row_details(dialog.items[dialog.selected_row as int], config)
    } else {
        Seq::<LineView>::empty()
    };
    if lines.len() == 0 {
        seq![LineView { text: "↑/↓ to move • SPACE toggles • ESC closes settings"@, accent: false }]
    } else {
        lines
    }
}

/// The size that one side of the dialog takes of a side of the screen: the
/// whole side up to `least`, then `least` until the side exceeds it, and no
/// more than `most`.
pub open spec fn dialog_side(available: u16, least: u16, most: u16) -> u16 {
    let wanted = if available < most {
        available
    } else {
        most
    };
    let raised = if wanted < least {
        least
    } else {
        wanted
    };
    if raised < available {
        raised
    } else {
        available
    }
}

/// The size of one side of the dialog.
pub fn dialog_extent(available: u16, least: u16, most: u16) -> (size: u16)
    ensures
        size == dialog_side(available, least, most),
{
    let wanted = if available < most {
        available
    } else {
        most
    };
    let raised = if wanted < least {
        least
    } else {
        wanted
    };
    if raised < available {
        raised
    } else {
        available
    }
}

/// How many spaces stand between the label of an entry and its value.
pub fn padding_width(available_width: usize, label_width: usize, value_width: usize) -> (padding:
    usize)
    ensures
        padding == if label_width + value_width >= available_width {
            0
        } else {
            available_width - (label_width + value_width)
        },
{
    let used = label_width.saturating_add(value_width);
    if used >= available_width {
        0
    } else {
        available_width - used
    }
}

fn plain_line(text: String) -> (line: DetailLine)
    ensures
        line@ == (LineView { text: text@, accent: false }),
{
    DetailLine { text, accent: false }
}

impl SettingsDialogState {
    /// The spans of an entry's value and their width in characters.
    pub fn value_spans_for_entry(&self, entry: &ConfigEntry, manager: &ConfigManager) -> (shown: (
        Vec<ValueSpan>,
        usize,
    ))
        requires
            manager.wf(),
            self@.wf(),
        ensures
            span_views(shown.0@) == value_spans(entry@, manager@, self@.edit_of(entry@.key)).0,
            shown.1 == value_spans(entry@, manager@, self@.edit_of(entry@.key)).1,
    {
        let mut spans: Vec<ValueSpan> = Vec::new();
        let editing = match self.edit_state() {
            Some((key, buffer, cursor, secret)) => {
                if str_eq(key, entry.key.as_str()) {
                    Some((buffer, cursor, secret))
                } else {
                    None
                }
            },
            None => None,
        };
        match &entry.field {
            ConfigField::Text(field) => {
                match editing {
                    Some((buffer, cursor, secret)) => {
                        let style = if secret {
                            SpanStyle::Accent
                        } else {
                            SpanStyle::AccentBold
                        };
                        let length = buffer.unicode_len();
                        if cursor > 0 {
                            spans.push(
                                ValueSpan {
                                    text: String::from_str(buffer.substring_char(0, cursor)),
                                    style,
                                },
                            );
                        }
                        spans.push(
                            ValueSpan { text: String::from_str(CURSOR), style: SpanStyle::Cursor },
                        );
                        if cursor < length {
                            spans.push(
                                ValueSpan {
                                    text: String::from_str(buffer.substring_char(cursor, length)),
                                    style,
                                },
                            );
                        }
                        assert(span_views(spans@) =~= edit_spans(self@.editing->0));
                        (spans, length.saturating_add(1))
                    },
                    None => {
                        let value = format_value(entry, manager);
                        let length = value.as_str().unicode_len();
                        if length == 0 {
                            let hint = match &field.placeholder {
                                Some(hint) => hint.clone(),
                                None => String::from_str("<not set>"),
                            };
                            let width = hint.as_str().unicode_len();
                            spans.push(ValueSpan { text: hint, style: SpanStyle::Placeholder });
                            assert(span_views(spans@) =~= value_spans(entry@, manager@, None).0);
                            (spans, width)
                        } else if field.secret {
                            let count: usize = if length < 4 {
                                4
                            } else if length > 12 {
                                12
                            } else {
                                length
                            };
                            let mut masked = String::new();
                            let mut i: usize = 0;
                            while i < count
                                invariant
                                    i <= count,
                                    masked@ == mask(i as nat),
                                decreases count - i,
                            {
                                push_char(&mut masked, '*');
                                i += 1;
                                assert(masked@ =~= mask(i as nat));
                            }
                            spans.push(ValueSpan { text: masked, style: SpanStyle::AccentBold });
                            assert(span_views(spans@) =~= value_spans(entry@, manager@, None).0);
                            (spans, count)
                        } else {
                            spans.push(ValueSpan { text: value, style: SpanStyle::AccentBold });
                            assert(span_views(spans@) =~= value_spans(entry@, manager@, None).0);
                            (spans, length)
                        }
                    },
                }
            },
            _ => {
                let value = format_value(entry, manager);
                let width = value.as_str().unicode_len();
                spans.push(ValueSpan { text: value, style: SpanStyle::AccentBold });
                assert(span_views(spans@) =~= value_spans(
                    entry@,
                    manager@,
                    self@.edit_of(entry@.key),
                ).0);
                (spans, width)
            },
        }
    }

    /// The lines of the detail panel.
    pub fn detail_lines(&self, manager: &ConfigManager) -> (lines: Vec<DetailLine>)
        requires
            manager.wf(),
        ensures
            line_views(lines@) == details(self@, manager@),
    {
        let mut lines: Vec<DetailLine> = Vec::new();
        let items = self.items();
        let row = self.selected_row();
        if row < items.len() {
            assert(item_views(items@)[row as int] == items@[row as int]@);
            match &items[row] {
                DisplayItem::Group { description, .. } => {
                    if let Some(text) = description {
                        lines.push(plain_line(text.clone()));
                    }
                },
                DisplayItem::Entry { entry, .. } => {
                    if let Some(text) = &entry.description {
                        lines.push(plain_line(text.clone()));
                    }
                    let keys = match &entry.field {
                        ConfigField::Toggle { .. } => "SPACE/ENTER toggle • ↑/↓ navigate • ESC close",
                        ConfigField::Number(_) => "←/→ adjust • +/- fine tune • Shift/Ctrl for larger steps • ESC close",
                        ConfigField::Select { .. } => "←/→ cycle options • SPACE/ENTER advance • ESC close",
                        ConfigField::Text(_) => "ENTER edit • type to change • ENTER saves • ESC cancels",
                    };
                    lines.push(DetailLine { text: String::from_str(keys), accent: true });
                    let preview = match &entry.field {
                        ConfigField::Text(field) => match manager.text_value(entry.key.as_str()) {
                            Ok(text) => {
                                if text.as_str().is_empty() {
                                    String::from_str("Current value: (not set)")
                                } else if field.secret {
                                    String::from_str("Current value: (hidden)")
                                } else {
                                    let mut line = String::from_str("Current value: ");
                                    line.append(text.as_str());
                                    line
                                }
                            },
                            Err(_) => String::new(),
                        },
                        _ => {
                            let mut line = String::from_str("Current value: ");
                            line.append(format_value(entry, manager).as_str());
                            line
                        },
                    };
                    proof {
                        reveal_strlit("Current value: (not set)");
                        reveal_strlit("Current value: (hidden)");
                        reveal_strlit("Current value: ");
                    }
                    if !preview.as_str().is_empty() {
                        lines.push(plain_line(preview));
                    }
                },
            }
            assert(line_views(lines@) =~= row_details(item_views(items@)[row as int], manager@));
        }
        if lines.len() == 0 {
            lines.push(
                plain_line(String::from_str("↑/↓ to move • SPACE toggles • ESC closes settings")),
            );
            assert(line_views(lines@) =~= details(self@, manager@));
        }
        lines
    }
}

impl DialogView {
    /// The edit in progress, if it is one of the field of the key.
    pub open spec fn edit_of(self, key: Seq<char>) -> Option<TextEditView> {
        match self.editing {
            Some(edit) if edit.key == key => Some(edit),
            _ => None,
        }
    }
}

} // verus!
