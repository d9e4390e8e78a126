//! The settings as plain values, and what every operation of the manager
//! does to them.

use vstd::prelude::*;
use crate::config::schema::{
    clamped, find_entry, has_option, option_index, saturated, settled, EntryView, ErrorView,
    FieldView, GroupView, NodeView, NumberView, OptionView, NUMBER_SCALE,
};
use crate::config::store::ValueView;
use crate::text::decimal_digits;

verus! {

/// The settings as plain values: the schema, the values that were set, and
/// whether a value changed since the settings were last written out.
pub struct ConfigView {
    pub root: GroupView,
    pub values: Map<Seq<char>, ValueView>,
    pub unsaved: bool,
}

/// What looking for the select entry of a key came to.
pub enum Replaced {
    /// No entry has the key.
    Missing,
    /// The first entry of the key took the new options.
    Done,
    /// The first entry of the key is no select field.
    Mismatch,
}

/// The error for a key whose field is of another kind than `expected`.
pub open spec fn mismatch(key: Seq<char>, expected: &str) -> ErrorView {
    ErrorView::TypeMismatch { key, expected: expected@ }
}

/// The error for a value that is none of the options of its field.
pub open spec fn not_an_option(key: Seq<char>, value: Seq<char>) -> ErrorView {
    ErrorView::ValidationFailed { key, message: "'"@ + value + "' is not a valid option"@ }
}

/// The error for a text that is longer than its field allows.
pub open spec fn too_long(key: Seq<char>, max: usize) -> ErrorView {
    ErrorView::ValidationFailed {
        key,
        message: "value exceeds maximum length of "@ + decimal_digits(max as nat)
            + " characters"@,
    }
}

/// The default of a select field after its options were replaced: the one
/// that was given; else the present one if it is among the new options; else
/// the first of the new options; the present one where there is no option.
pub open spec fn new_default(
    present: Seq<char>,
    options: Seq<OptionView>,
    given: Option<Seq<char>>,
) -> Seq<char> {
    match given {
        Some(default) => default,
        None => if !has_option(options, present) && options.len() > 0 {
            options[0].value
        } else {
            present
        },
    }
}

/// The first entry of the key among the nodes and below them takes the new
/// options, if it is a select field.
pub open spec fn replace_in_nodes(
    nodes: Seq<NodeView>,
    key: Seq<char>,
    options: Seq<OptionView>,
    default: Option<Seq<char>>,
) -> (Seq<NodeView>, Replaced)
    decreases nodes,
{
    if nodes.len() == 0 {
        (nodes, Replaced::Missing)
    } else {
        let (first, outcome) = replace_in_node(nodes[0], key, options, default);
        if outcome is Missing {
            let (rest, later) = replace_in_nodes(nodes.skip(1), key, options, default);
            (seq![nodes[0]] + rest, later)
        } else {
            (seq![first] + nodes.skip(1), outcome)
        }
    }
}

/// The first entry of the key in the node or below it takes the new options,
/// if it is a select field.
pub open spec fn replace_in_node(
    node: NodeView,
    key: Seq<char>,
    options: Seq<OptionView>,
    default: Option<Seq<char>>,
) -> (NodeView, Replaced)
    decreases node,
{
    match node {
        NodeView::Group(group) => {
            let (replaced, outcome) = replace_in_group(group, key, options, default);
            (NodeView::Group(replaced), outcome)
        },
        NodeView::Entry(entry) => if entry.key != key {
            (node, Replaced::Missing)
        } else {
            match entry.field {
                FieldView::Select { default: present, options: _ } => (
                    NodeView::Entry(
                        EntryView {
                            field: FieldView::Select {
                                default: new_default(present, options, default),
                                options,
                            },
                            ..entry
                        },
                    ),
                    Replaced::Done,
                ),
                _ => (node, Replaced::Mismatch),
            }
        },
    }
}

/// The first entry of the key in the group takes the new options, if it is a
/// select field.
pub open spec fn replace_in_group(
    group: GroupView,
    key: Seq<char>,
    options: Seq<OptionView>,
    default: Option<Seq<char>>,
) -> (GroupView, Replaced)
    decreases group,
{
    let (children, outcome) = replace_in_nodes(group.children, key, options, default);
    (GroupView { children, ..group }, outcome)
}

/// The index that lies `direction` steps after `index` in a cycle of `len`.
pub open spec fn cycled(index: int, direction: int, len: int) -> int {
    (index + direction) % len
}

impl ConfigView {
    /// The entry that the key names.
    pub open spec fn entry(self, key: Seq<char>) -> Option<EntryView> {
        find_entry(self.root.entries(), key)
    }

    /// The flag that was set for the key, if a flag was.
    pub open spec fn stored_bool(self, key: Seq<char>) -> Option<bool> {
        if self.values.contains_key(key) {
            match self.values[key] {
                ValueView::Bool(flag) => Some(flag),
                _ => None,
            }
        } else {
            None
        }
    }

    /// The number that was set for the key, if a number was.
    pub open spec fn stored_number(self, key: Seq<char>) -> Option<i64> {
        if self.values.contains_key(key) {
            match self.values[key] {
                ValueView::Number(number) => Some(number),
                _ => None,
            }
        } else {
            None
        }
    }

    /// The text that was set for the key, if a text was.
    pub open spec fn stored_text(self, key: Seq<char>) -> Option<Seq<char>> {
        if self.values.contains_key(key) {
            match self.values[key] {
                ValueView::Text(text) => Some(text),
                _ => None,
            }
        } else {
            None
        }
    }

    /// The settings with a value set for the key.
    pub open spec fn with_value(self, key: Seq<char>, value: ValueView) -> ConfigView {
        ConfigView { values: self.values.insert(key, value), ..self }
    }

    /// The settings with no value set for the key.
    pub open spec fn without_value(self, key: Seq<char>) -> ConfigView {
        ConfigView { values: self.values.remove(key), ..self }
    }

    /// The settings after the key took another value: none is kept for the
    /// default, and the settings are to be written out.
    pub open spec fn keeping(self, key: Seq<char>, value: ValueView, is_default: bool) -> ConfigView {
        let kept = if is_default {
            self.without_value(key)
        } else {
            self.with_value(key, value)
        };
        ConfigView { unsaved: true, ..kept }
    }

    /// The settings after they were written out.
    pub open spec fn saved(self) -> ConfigView {
        ConfigView { unsaved: false, ..self }
    }

    /// The flag of a toggle field: the one that was set, else the default.
    pub open spec fn bool_value(self, key: Seq<char>) -> Result<bool, ErrorView> {
        match self.entry(key) {
            None => Err(ErrorView::UnknownKey(key)),
            Some(entry) => match entry.field {
                FieldView::Toggle { default } => Ok(
                    match self.stored_bool(key) {
                        Some(flag) => flag,
                        None => default,
                    },
                ),
                _ => Err(mismatch(key, "boolean")),
            },
        }
    }

    /// Setting the flag of a toggle field: the settings afterwards, and
    /// whether the flag changed.
    pub open spec fn set_bool(self, key: Seq<char>, value: bool) -> (
        ConfigView,
        Result<bool, ErrorView>,
    ) {
        match self.bool_value(key) {
            Err(error) => (self, Err(error)),
            Ok(current) => if current == value {
                (self, Ok(false))
            } else {
                (
                    self.keeping(
                        key,
                        ValueView::Bool(value),
                        self.entry(key)->0.field == (FieldView::Toggle { default: value }),
                    ),
                    Ok(true),
                )
            },
        }
    }

    /// Inverting the flag of a toggle field.
    pub open spec fn toggle_bool(self, key: Seq<char>) -> (ConfigView, Result<bool, ErrorView>) {
        match self.bool_value(key) {
            Err(error) => (self, Err(error)),
            Ok(current) => self.set_bool(key, !current),
        }
    }

    /// The number field of the key.
    pub open spec fn number_field(self, key: Seq<char>) -> Result<NumberView, ErrorView> {
        match self.entry(key) {
            None => Err(ErrorView::UnknownKey(key)),
            Some(entry) => match entry.field {
                FieldView::Number(field) => Ok(field),
                _ => Err(mismatch(key, "number")),
            },
        }
    }

    /// The number that a field holds before its bounds apply: the one that
    /// was set, else the default.
    pub open spec fn raw_number(self, key: Seq<char>, field: NumberView) -> i64 {
        match self.stored_number(key) {
            Some(number) => number,
            None => field.default,
        }
    }

    /// The value of a number field, within the bounds of the field.
    pub open spec fn number_value(self, key: Seq<char>) -> Result<i64, ErrorView> {
        match self.number_field(key) {
            Err(error) => Err(error),
            Ok(field) => Ok(clamped(field, self.raw_number(key, field))),
        }
    }

    /// Setting a number field to `value`, brought within its bounds and
    /// rounded to its precision: the settings afterwards, and whether the
    /// number changed.
    pub open spec fn set_number(self, key: Seq<char>, value: i64) -> (
        ConfigView,
        Result<bool, ErrorView>,
    ) {
        match self.number_field(key) {
            Err(error) => (self, Err(error)),
            Ok(field) => {
                let number = settled(field, value);
                if self.raw_number(key, field) == number {
                    (self, Ok(false))
                } else {
                    (
                        self.keeping(key, ValueView::Number(number), number == field.default),
                        Ok(true),
                    )
                }
            },
        }
    }

    /// The value that a number field takes when it is moved by `steps` steps.
    pub open spec fn adjusted(self, key: Seq<char>, field: NumberView, steps: i64) -> i64 {
        let step = match field.step {
            Some(step) => step,
            None => NUMBER_SCALE,
        };
        settled(field, saturated(clamped(field, self.raw_number(key, field)) + step * steps))
    }

    /// Moving a number field by a number of steps.
    pub open spec fn adjust_number(self, key: Seq<char>, steps: i64) -> (
        ConfigView,
        Result<bool, ErrorView>,
    ) {
        match self.number_field(key) {
            Err(error) => (self, Err(error)),
            Ok(field) => if self.adjusted(key, field, steps) == clamped(
                field,
                self.raw_number(key, field),
            ) {
                (self, Ok(false))
            } else {
                self.set_number(key, self.adjusted(key, field, steps))
            },
        }
    }

    /// The default and the options of the select field of the key.
    pub open spec fn select_field(self, key: Seq<char>) -> Result<
        (Seq<char>, Seq<OptionView>),
        ErrorView,
    > {
        match self.entry(key) {
            None => Err(ErrorView::UnknownKey(key)),
            Some(entry) => match entry.field {
                FieldView::Select { default, options } => Ok((default, options)),
                _ => Err(mismatch(key, "select")),
            },
        }
    }

    /// The text that a field holds: the one that was set, else the default.
    pub open spec fn raw_text(self, key: Seq<char>, default: Seq<char>) -> Seq<char> {
        match self.stored_text(key) {
            Some(text) => text,
            None => default,
        }
    }

    /// The value of a select field: the one that was set if it is among the
    /// options, else the default.
    pub open spec fn select_value(self, key: Seq<char>) -> Result<Seq<char>, ErrorView> {
        match self.select_field(key) {
            Err(error) => Err(error),
            Ok((default, options)) => if has_option(options, self.raw_text(key, default)) {
                Ok(self.raw_text(key, default))
            } else {
                Ok(default)
            },
        }
    }

    /// Setting a select field to one of its options: the settings afterwards,
    /// and whether the value changed.
    pub open spec fn set_select(self, key: Seq<char>, value: Seq<char>) -> (
        ConfigView,
        Result<bool, ErrorView>,
    ) {
        match self.select_field(key) {
            Err(error) => (self, Err(error)),
            Ok((default, options)) => if !has_option(options, value) {
                (self, Err(not_an_option(key, value)))
            } else if self.raw_text(key, default) == value {
                (self, Ok(false))
            } else {
                (self.keeping(key, ValueView::Text(value), value == default), Ok(true))
            },
        }
    }

    /// The value that lies `direction` options after the present one.
    pub open spec fn cycle_target(
        self,
        key: Seq<char>,
        options: Seq<OptionView>,
        direction: int,
    ) -> Seq<char> {
        options[cycled(
            option_index(options, self.select_value(key)->Ok_0),
            direction,
            options.len() as int,
        )].value
    }

    /// Moving a select field by `direction` options, around the ends.
    pub open spec fn cycle_select(self, key: Seq<char>, direction: int) -> (
        ConfigView,
        Result<bool, ErrorView>,
    ) {
        match self.select_field(key) {
            Err(error) => (self, Err(error)),
            Ok((default, options)) => if options.len() == 0 {
                (self, Ok(false))
            } else {
                self.set_select(key, self.cycle_target(key, options, direction))
            },
        }
    }

    /// The value of a text field: the one that was set, else the default.
    pub open spec fn text_value(self, key: Seq<char>) -> Result<Seq<char>, ErrorView> {
        match self.entry(key) {
            None => Err(ErrorView::UnknownKey(key)),
            Some(entry) => match entry.field {
                FieldView::Text(field) => Ok(self.raw_text(key, field.default)),
                _ => Err(mismatch(key, "text")),
            },
        }
    }

    /// Setting a text field: the settings afterwards, and whether the text
    /// changed.
    pub open spec fn set_text(self, key: Seq<char>, value: Seq<char>) -> (
        ConfigView,
        Result<bool, ErrorView>,
    ) {
        match self.entry(key) {
            None => (self, Err(ErrorView::UnknownKey(key))),
            Some(entry) => match entry.field {
                FieldView::Text(field) => if field.max_length is Some && value.len()
                    > field.max_length->0 {
                    (self, Err(too_long(key, field.max_length->0)))
                } else if self.raw_text(key, field.default) == value {
                    (self, Ok(false))
                } else {
                    (self.keeping(key, ValueView::Text(value), value == field.default), Ok(true))
                },
                _ => (self, Err(mismatch(key, "text"))),
            },
        }
    }

    /// The value that a select field keeps when its options are replaced: the
    /// one that was set if it is among the new options, else the default that
    /// was given, else the first option.
    pub open spec fn effective_option(
        self,
        key: Seq<char>,
        options: Seq<OptionView>,
        default: Option<Seq<char>>,
    ) -> Seq<char> {
        match self.stored_text(key) {
            Some(text) if has_option(options, text) => text,
            _ => match default {
                Some(default) => default,
                None => options[0].value,
            },
        }
    }

    /// Replacing the options of a select field: the settings afterwards, and
    /// whether it could be done. Without options the field keeps no value;
    /// otherwise it is set to the value it keeps, which may be rejected.
    pub open spec fn update_select_options(
        self,
        key: Seq<char>,
        options: Seq<OptionView>,
        default: Option<Seq<char>>,
    ) -> (ConfigView, Result<(), ErrorView>) {
        let (root, outcome) = replace_in_group(self.root, key, options, default);
        match outcome {
            Replaced::Missing => (self, Err(ErrorView::UnknownKey(key))),
            Replaced::Mismatch => (self, Err(mismatch(key, "select"))),
            Replaced::Done => {
                let replaced = ConfigView { root, ..self };
                if options.len() == 0 {
                    (replaced.without_value(key), Ok(()))
                } else {
                    let (after, set) = replaced.set_select(
                        key,
                        replaced.effective_option(key, options, default),
                    );
                    match set {
                        Ok(_) => (after, Ok(())),
                        Err(error) => (after, Err(error)),
                    }
                }
            },
        }
    }

    /// The value that is kept when `value` is loaded for an entry, if the
    /// entry takes it: a flag for a toggle field; a number, within bounds and
    /// rounded, for a number field; one of the options for a select field; a
    /// text of no more than the greatest length for a text field.
    pub open spec fn validated(entry: EntryView, value: ValueView) -> Option<ValueView> {
        match (entry.field, value) {
            (FieldView::Toggle { .. }, ValueView::Bool(flag)) => Some(ValueView::Bool(flag)),
            (FieldView::Number(field), ValueView::Number(number)) => Some(
                ValueView::Number(settled(field, number)),
            ),
            (FieldView::Select { default, options }, ValueView::Text(text)) => if has_option(
                options,
                text,
            ) {
                Some(ValueView::Text(text))
            } else {
                None
            },
            (FieldView::Text(field), ValueView::Text(text)) => if field.max_length is Some
                && text.len() > field.max_length->0 {
                None
            } else {
                Some(ValueView::Text(text))
            },
            _ => None,
        }
    }

    /// The settings after one key and value were loaded: the value is kept if
    /// the key names an entry that takes it.
    pub open spec fn load_value(self, key: Seq<char>, value: ValueView) -> ConfigView {
        match self.entry(key) {
            Some(entry) => match Self::validated(entry, value) {
                Some(kept) => self.with_value(key, kept),
                None => self,
            },
            None => self,
        }
    }

    /// The settings after the keys and values were loaded, in order.
    pub open spec fn load_values(self, pairs: Seq<(Seq<char>, ValueView)>) -> ConfigView
        decreases pairs.len(),
    {
        if pairs.len() == 0 {
            self
        } else {
            self.load_values(pairs.drop_last()).load_value(pairs.last().0, pairs.last().1)
        }
    }
}

} // verus!
