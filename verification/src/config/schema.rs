//! The schema of the settings: fields, entries and groups, with their views.

use vstd::prelude::*;
use vstd::string::*;

verus! {

/// Numbers are held in millionths: a field value of 1.5 is the integer
/// 1500000. All arithmetic on them is exact.
pub const NUMBER_SCALE: i64 = 1000000;

/// A selectable option of a select field.
#[derive(Debug, Clone)]
pub struct SelectOption {
    pub value: String,
    pub label: String,
}

/// A select option as plain values.
pub struct OptionView {
    pub value: Seq<char>,
    pub label: Seq<char>,
}

impl View for SelectOption {
    type V = OptionView;

    open spec fn view(&self) -> OptionView {
        OptionView { value: self.value@, label: self.label@ }
    }
}

impl SelectOption {
    pub fn new(value: &str, label: &str) -> (option: Self)
        ensures
            option@ == (OptionView { value: value@, label: label@ }),
    {
        Self { value: String::from_str(value), label: String::from_str(label) }
    }

    pub fn duplicate(&self) -> (copy: Self)
        ensures
            copy@ == self@,
    {
        Self { value: self.value.clone(), label: self.label.clone() }
    }
}

/// The options as plain values.
pub open spec fn option_views(options: Seq<SelectOption>) -> Seq<OptionView> {
    Seq::new(options.len(), |i: int| options[i]@)
}

/// Copies a list of options.
pub fn duplicate_options(options: &Vec<SelectOption>) -> (copy: Vec<SelectOption>)
    ensures
        option_views(copy@) == option_views(options@),
{
    let mut copy: Vec<SelectOption> = Vec::new();
    let n = options.len();
    let mut i: usize = 0;
    while i < n
        invariant
            i <= n,
            n == options@.len(),
            copy@.len() == i,
            forall|j: int| 0 <= j < i ==> copy@[j]@ == options@[j]@,
        decreases n - i,
    {
        copy.push(options[i].duplicate());
        i += 1;
    }
    assert(option_views(copy@) =~= option_views(options@));
    copy
}

/// Copies an optional string.
pub fn duplicate_text(text: &Option<String>) -> (copy: Option<String>)
    ensures
        optional_text(copy) == optional_text(*text),
{
    match text {
        Some(text) => Some(text.clone()),
        None => None,
    }
}

/// An optional string as plain values.
pub open spec fn optional_text(text: Option<String>) -> Option<Seq<char>> {
    match text {
        Some(text) => Some(text@),
        None => None,
    }
}

/// Metadata of a numeric field. Values, bounds and step are in millionths;
/// `precision` is the number of decimal places that a value is rounded to.
#[derive(Debug, Clone)]
pub struct NumberField {
    pub default: i64,
    pub min: Option<i64>,
    pub max: Option<i64>,
    pub step: Option<i64>,
    pub precision: Option<u8>,
    pub unit: Option<String>,
}

/// A numeric field as plain values.
pub struct NumberView {
    pub default: i64,
    pub min: Option<i64>,
    pub max: Option<i64>,
    pub step: Option<i64>,
    pub precision: Option<u8>,
    pub unit: Option<Seq<char>>,
}

impl View for NumberField {
    type V = NumberView;

    open spec fn view(&self) -> NumberView {
        NumberView {
            default: self.default,
            min: self.min,
            max: self.max,
            step: self.step,
            precision: self.precision,
            unit: optional_text(self.unit),
        }
    }
}

impl NumberField {
    pub fn new(default: i64) -> (field: Self)
        ensures
            field@ == (NumberView {
                default,
                min: None,
                max: None,
                step: None,
                precision: None,
                unit: None,
            }),
    {
        Self { default, min: None, max: None, step: None, precision: None, unit: None }
    }

    pub fn with_bounds(self, min: i64, max: i64) -> (field: Self)
        ensures
            field@ == (NumberView { min: Some(min), max: Some(max), ..self@ }),
    {
        let mut field = self;
        field.min = Some(min);
        field.max = Some(max);
        field
    }

    pub fn with_step(self, step: i64) -> (field: Self)
        ensures
            field@ == (NumberView { step: Some(step), ..self@ }),
    {
        let mut field = self;
        field.step = Some(step);
        field
    }

    pub fn with_precision(self, precision: u8) -> (field: Self)
        ensures
            field@ == (NumberView { precision: Some(precision), ..self@ }),
    {
        let mut field = self;
        field.precision = Some(precision);
        field
    }

    pub fn with_unit(self, unit: &str) -> (field: Self)
        ensures
            field@ == (NumberView { unit: Some(unit@), ..self@ }),
    {
        let mut field = self;
        field.unit = Some(String::from_str(unit));
        field
    }

    pub fn duplicate(&self) -> (copy: Self)
        ensures
            copy@ == self@,
    {
        Self {
            default: self.default,
            min: self.min,
            max: self.max,
            step: self.step,
            precision: self.precision,
            unit: duplicate_text(&self.unit),
        }
    }
}

/// Metadata of a free-form text field.
#[derive(Debug, Clone)]
pub struct TextField {
    pub default: String,
    pub placeholder: Option<String>,
    pub secret: bool,
    pub max_length: Option<usize>,
}

/// A text field as plain values.
pub struct TextView {
    pub default: Seq<char>,
    pub placeholder: Option<Seq<char>>,
    pub secret: bool,
    pub max_length: Option<usize>,
}

impl View for TextField {
    type V = TextView;

    open spec fn view(&self) -> TextView {
        TextView {
            default: self.default@,
            placeholder: optional_text(self.placeholder),
            secret: self.secret,
            max_length: self.max_length,
        }
    }
}

impl TextField {
    pub fn new(default: &str) -> (field: Self)
        ensures
            field@ == (TextView {
                default: default@,
                placeholder: None,
                secret: false,
                max_length: None,
            }),
    {
        Self { default: String::from_str(default), placeholder: None, secret: false, max_length: None }
    }

    pub fn with_placeholder(self, placeholder: &str) -> (field: Self)
        ensures
            field@ == (TextView { placeholder: Some(placeholder@), ..self@ }),
    {
        let mut field = self;
        field.placeholder = Some(String::from_str(placeholder));
        field
    }

    pub fn secret(self, secret: bool) -> (field: Self)
        ensures
            field@ == (TextView { secret, ..self@ }),
    {
        let mut field = self;
        field.secret = secret;
        field
    }

    pub fn with_max_length(self, max_length: usize) -> (field: Self)
        ensures
            field@ == (TextView { max_length: Some(max_length), ..self@ }),
    {
        let mut field = self;
        field.max_length = Some(max_length);
        field
    }

    pub fn duplicate(&self) -> (copy: Self)
        ensures
            copy@ == self@,
    {
        Self {
            default: self.default.clone(),
            placeholder: duplicate_text(&self.placeholder),
            secret: self.secret,
            max_length: self.max_length,
        }
    }
}

/// The kinds of field.
#[derive(Debug, Clone)]
#[allow(inconsistent_fields)]
pub enum ConfigField {
    Toggle { default: bool },
    Number(NumberField),
    Select { default: String, options: Vec<SelectOption> },
    Text(TextField),
}

/// A field as plain values.
#[allow(inconsistent_fields)]
pub enum FieldView {
    Toggle { default: bool },
    Number(NumberView),
    Select { default: Seq<char>, options: Seq<OptionView> },
    Text(TextView),
}

impl View for ConfigField {
    type V = FieldView;

    open spec fn view(&self) -> FieldView {
        match self {
            ConfigField::Toggle { default } => FieldView::Toggle { default: *default },
            ConfigField::Number(field) => FieldView::Number(field@),
            ConfigField::Select { default, options } => FieldView::Select {
                default: default@,
                options: option_views(options@),
            },
            ConfigField::Text(field) => FieldView::Text(field@),
        }
    }
}

impl ConfigField {
    pub fn duplicate(&self) -> (copy: Self)
        ensures
            copy@ == self@,
    {
        match self {
            ConfigField::Toggle { default } => ConfigField::Toggle { default: *default },
            ConfigField::Number(field) => ConfigField::Number(field.duplicate()),
            ConfigField::Select { default, options } => ConfigField::Select {
                default: default.clone(),
                options: duplicate_options(options),
            },
            ConfigField::Text(field) => ConfigField::Text(field.duplicate()),
        }
    }
}

/// A single configuration entry.
#[derive(Debug, Clone)]
pub struct ConfigEntry {
    pub key: String,
    pub label: String,
    pub description: Option<String>,
    pub field: ConfigField,
}

/// An entry as plain values.
pub struct EntryView {
    pub key: Seq<char>,
    pub label: Seq<char>,
    pub description: Option<Seq<char>>,
    pub field: FieldView,
}

impl View for ConfigEntry {
    type V = EntryView;

    open spec fn view(&self) -> EntryView {
        EntryView {
            key: self.key@,
            label: self.label@,
            description: optional_text(self.description),
            field: self.field@,
        }
    }
}

impl ConfigEntry {
    pub fn new(key: &str, label: &str, field: ConfigField) -> (entry: Self)
        ensures
            entry@ == (EntryView { key: key@, label: label@, description: None, field: field@ }),
    {
        Self {
            key: String::from_str(key),
            label: String::from_str(label),
            description: None,
            field,
        }
    }

    pub fn with_description(self, description: &str) -> (entry: Self)
        ensures
            entry@ == (EntryView { description: Some(description@), ..self@ }),
    {
        let mut entry = self;
        entry.description = Some(String::from_str(description));
        entry
    }

    pub fn duplicate(&self) -> (copy: Self)
        ensures
            copy@ == self@,
    {
        Self {
            key: self.key.clone(),
            label: self.label.clone(),
            description: duplicate_text(&self.description),
            field: self.field.duplicate(),
        }
    }
}

/// The entries as plain values.
pub open spec fn entry_views(entries: Seq<ConfigEntry>) -> Seq<EntryView> {
    Seq::new(entries.len(), |i: int| entries[i]@)
}

/// Either a nested group or a single entry.
#[derive(Debug)]
pub enum ConfigNode {
    Group(ConfigGroup),
    Entry(ConfigEntry),
}

/// A group of configuration entries.
#[derive(Debug)]
pub struct ConfigGroup {
    pub key: String,
    pub label: String,
    pub description: Option<String>,
    pub children: Vec<ConfigNode>,
}

/// A node as plain values.
pub enum NodeView {
    Group(GroupView),
    Entry(EntryView),
}

/// A group as plain values.
pub struct GroupView {
    pub key: Seq<char>,
    pub label: Seq<char>,
    pub description: Option<Seq<char>>,
    pub children: Seq<NodeView>,
}

/// A group as plain values.
pub open spec fn group_view(group: ConfigGroup) -> GroupView
    decreases group,
{
    GroupView {
        key: group.key@,
        label: group.label@,
        description: optional_text(group.description),
        children: node_views(group.children@),
    }
}

/// The nodes as plain values.
pub open spec fn node_views(nodes: Seq<ConfigNode>) -> Seq<NodeView>
    decreases nodes,
{
    if nodes.len() == 0 {
        Seq::empty()
    } else {
        node_views(nodes.drop_last()).push(node_view(nodes.last()))
    }
}

/// A node as plain values.
pub open spec fn node_view(node: ConfigNode) -> NodeView
    decreases node,
{
    match node {
        ConfigNode::Group(group) => NodeView::Group(group_view(group)),
        ConfigNode::Entry(entry) => NodeView::Entry(entry@),
    }
}

impl View for ConfigGroup {
    type V = GroupView;

    open spec fn view(&self) -> GroupView {
        group_view(*self)
    }
}

impl View for ConfigNode {
    type V = NodeView;

    open spec fn view(&self) -> NodeView {
        node_view(*self)
    }
}

/// The views of the nodes, index by index.
pub proof fn lemma_node_views(nodes: Seq<ConfigNode>)
    ensures
        node_views(nodes).len() == nodes.len(),
        forall|i: int| 0 <= i < nodes.len() ==> (#[trigger] node_views(nodes)[i]) == node_view(nodes[i]),
    decreases nodes.len(),
{
    if nodes.len() > 0 {
        lemma_node_views(nodes.drop_last());
        assert forall|i: int| 0 <= i < nodes.len() implies (#[trigger] node_views(nodes)[i])
            == node_view(nodes[i]) by {
            if i < nodes.len() - 1 {
                assert(nodes.drop_last()[i] == nodes[i]);
            }
        }
    }
}

impl GroupView {
    /// The entries of the group and of the groups below it, in the order in
    /// which a walk from top to bottom meets them.
    pub open spec fn entries(self) -> Seq<EntryView>
        decreases self,
    {
        entries_of(self.children)
    }
}

/// The entries among the nodes and below them, in order.
pub open spec fn entries_of(nodes: Seq<NodeView>) -> Seq<EntryView>
    decreases nodes,
{
    if nodes.len() == 0 {
        Seq::empty()
    } else {
        entries_of(nodes.drop_last()) + match nodes.last() {
            NodeView::Group(group) => group.entries(),
            NodeView::Entry(entry) => seq![entry],
        }
    }
}

/// The entry that a key names: the last one of that key.
pub open spec fn find_entry(entries: Seq<EntryView>, key: Seq<char>) -> Option<EntryView>
    decreases entries.len(),
{
    if entries.len() == 0 {
        None
    } else if entries.last().key == key {
        Some(entries.last())
    } else {
        find_entry(entries.drop_last(), key)
    }
}

/// Whether one of the options has the value.
pub open spec fn has_option(options: Seq<OptionView>, value: Seq<char>) -> bool {
    exists|i: int| 0 <= i < options.len() && (#[trigger] options[i]).value == value
}

/// The index of the first option with the value, or 0 where there is none.
pub open spec fn option_index(options: Seq<OptionView>, value: Seq<char>) -> int
    decreases options.len(),
{
    if options.len() == 0 {
        0
    } else if has_option(options.drop_last(), value) {
        option_index(options.drop_last(), value)
    } else if options.last().value == value {
        options.len() - 1
    } else {
        0
    }
}

impl ConfigGroup {
    pub fn new(key: &str, label: &str) -> (group: Self)
        ensures
            group@ == (GroupView {
                key: key@,
                label: label@,
                description: None,
                children: Seq::empty(),
            }),
    {
        Self {
            key: String::from_str(key),
            label: String::from_str(label),
            description: None,
            children: Vec::new(),
        }
    }

    pub fn with_description(self, description: &str) -> (group: Self)
        ensures
            group@ == (GroupView { description: Some(description@), ..self@ }),
    {
        let mut group = self;
        group.description = Some(String::from_str(description));
        group
    }

    pub fn with_children(self, children: Vec<ConfigNode>) -> (group: Self)
        ensures
            group@ == (GroupView { children: node_views(children@), ..self@ }),
    {
        let mut group = self;
        group.children = children;
        group
    }
}

/// The powers of ten.
pub open spec fn pow10(exponent: nat) -> int
    decreases exponent,
{
    if exponent == 0 {
        1
    } else {
        10 * pow10((exponent - 1) as nat)
    }
}

/// The value that is nearest to `value` among the multiples of `unit`; of two
/// that are equally near, the one further from zero.
pub open spec fn round_to_multiple(value: int, unit: int) -> int {
    if value >= 0 {
        (value + unit / 2) / unit * unit
    } else {
        -((-value + unit / 2) / unit * unit)
    }
}

/// `value` within the range of `i64`.
pub open spec fn saturated(value: int) -> i64 {
    if value < i64::MIN {
        i64::MIN
    } else if value > i64::MAX {
        i64::MAX
    } else {
        value as i64
    }
}

/// `value` brought within the bounds of the field: not below the minimum,
/// then not above the maximum.
pub open spec fn clamped(field: NumberView, value: i64) -> i64 {
    let raised = match field.min {
        Some(min) if value < min => min,
        _ => value,
    };
    match field.max {
        Some(max) if raised > max => max,
        _ => raised,
    }
}

/// `value`, in millionths, rounded to `precision` decimal places. The result
/// stays within the range of `i64`.
pub open spec fn rounded(value: i64, precision: Option<u8>) -> i64 {
    match precision {
        Some(places) if places < 6 => saturated(
            round_to_multiple(value as int, pow10((6 - places) as nat)),
        ),
        _ => value,
    }
}

/// The value that a number field takes when `value` is asked for.
pub open spec fn settled(field: NumberView, value: i64) -> i64 {
    rounded(clamped(field, value), field.precision)
}

/// Brings a value within the bounds of its field.
pub fn clamp_number(field: &NumberField, value: i64) -> (result: i64)
    ensures
        result == clamped(field@, value),
{
    let mut result = value;
    if let Some(min) = field.min {
        if result < min {
            result = min;
        }
    }
    if let Some(max) = field.max {
        if result > max {
            result = max;
        }
    }
    result
}

fn unit_of(places: u8) -> (unit: i128)
    requires
        places < 6,
    ensures
        unit == pow10((6 - places) as nat),
        1 < unit <= 1000000,
{
    reveal_with_fuel(pow10, 7);
    if places == 0 {
        1000000
    } else if places == 1 {
        100000
    } else if places == 2 {
        10000
    } else if places == 3 {
        1000
    } else if places == 4 {
        100
    } else {
        10
    }
}

/// Rounds a value, in millionths, to a number of decimal places.
pub fn round_to_precision(value: i64, precision: Option<u8>) -> (result: i64)
    ensures
        result == rounded(value, precision),
{
    match precision {
        Some(places) => {
            if places < 6 {
                let unit = unit_of(places);
                let wide: i128 = value as i128;
                let magnitude: i128 = if wide >= 0 {
                    wide
                } else {
                    -wide
                };
                let steps: i128 = (magnitude + unit / 2) / unit;
                assert(0 <= steps * unit <= magnitude + unit / 2) by (nonlinear_arith)
                    requires
                        steps == (magnitude + unit / 2) as int / (unit as int),
                        magnitude >= 0,
                        unit > 1,
                ;
                let multiple: i128 = steps * unit;
                let signed: i128 = if wide >= 0 {
                    multiple
                } else {
                    -multiple
                };
                if signed < -9223372036854775808 {
                    i64::MIN
                } else if signed > 9223372036854775807 {
                    i64::MAX
                } else {
                    signed as i64
                }
            } else {
                value
            }
        },
        None => value,
    }
}

/// Errors of the configuration manager.
#[derive(Debug, Clone)]
pub enum ConfigError {
    UnknownKey(String),
    TypeMismatch { key: String, expected: &'static str },
    ValidationFailed { key: String, message: String },
    Persistence(String),
    Serialization(String),
}

/// An error as plain values.
pub enum ErrorView {
    UnknownKey(Seq<char>),
    TypeMismatch { key: Seq<char>, expected: Seq<char> },
    ValidationFailed { key: Seq<char>, message: Seq<char> },
    Persistence(Seq<char>),
    Serialization(Seq<char>),
}

impl View for ConfigError {
    type V = ErrorView;

    open spec fn view(&self) -> ErrorView {
        match self {
            ConfigError::UnknownKey(key) => ErrorView::UnknownKey(key@),
            ConfigError::TypeMismatch { key, expected } => ErrorView::TypeMismatch {
                key: key@,
                expected: expected@,
            },
            ConfigError::ValidationFailed { key, message } => ErrorView::ValidationFailed {
                key: key@,
                message: message@,
            },
            ConfigError::Persistence(cause) => ErrorView::Persistence(cause@),
            ConfigError::Serialization(cause) => ErrorView::Serialization(cause@),
        }
    }
}

impl ErrorView {
    /// The message of the error.
    pub open spec fn message(self) -> Seq<char> {
        match self {
            ErrorView::UnknownKey(key) => "unknown configuration key '"@ + key + "'"@,
            ErrorView::TypeMismatch { key, expected } => "configuration '"@ + key
                + "' expects type "@ + expected,
            ErrorView::ValidationFailed { key, message } => "configuration '"@ + key
                + "' failed validation: "@ + message,
            ErrorView::Persistence(cause) => "failed to persist configuration: "@ + cause,
            ErrorView::Serialization(cause) => "failed to serialize configuration: "@ + cause,
        }
    }
}

impl ConfigError {
    /// The message of the error.
    pub fn message(&self) -> (text: String)
        ensures
            text@ == self@.message(),
    {
        match self {
            ConfigError::UnknownKey(key) => {
                let mut text = String::from_str("unknown configuration key '");
                text.append(key.as_str());
                text.append("'");
                text
            },
            ConfigError::TypeMismatch { key, expected } => {
                let mut text = String::from_str("configuration '");
                text.append(key.as_str());
                text.append("' expects type ");
                text.append(expected);
                text
            },
            ConfigError::ValidationFailed { key, message } => {
                let mut text = String::from_str("configuration '");
                text.append(key.as_str());
                text.append("' failed validation: ");
                text.append(message.as_str());
                text
            },
            ConfigError::Persistence(cause) => {
                let mut text = String::from_str("failed to persist configuration: ");
                text.append(cause.as_str());
                text
            },
            ConfigError::Serialization(cause) => {
                let mut text = String::from_str("failed to serialize configuration: ");
                text.append(cause.as_str());
                text
            },
        }
    }
}

/// The outcome of an operation as plain values.
pub open spec fn outcome_view<T>(outcome: Result<T, ConfigError>) -> Result<T, ErrorView> {
    match outcome {
        Ok(value) => Ok(value),
        Err(error) => Err(error@),
    }
}

/// The outcome of an operation that gives a string, as plain values.
pub open spec fn text_outcome_view(outcome: Result<String, ConfigError>) -> Result<
    Seq<char>,
    ErrorView,
> {
    match outcome {
        Ok(value) => Ok(value@),
        Err(error) => Err(error@),
    }
}

} // verus!
