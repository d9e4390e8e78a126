//! The configuration manager: the schema with the values that were set.

use vstd::prelude::*;
use vstd::string::*;
use vstd::arithmetic::div_mod::{lemma_fundamental_div_mod, lemma_fundamental_div_mod_converse};
use crate::config::model::{
    cycled, mismatch, new_default, replace_in_group, replace_in_node, replace_in_nodes, ConfigView,
    Replaced,
};
use crate::config::schema::{
    clamp_number, duplicate_options, entries_of, entry_views, find_entry, group_view, has_option,
    lemma_node_views, node_view, node_views, option_index, option_views, outcome_view,
    round_to_precision, text_outcome_view, ConfigEntry, ConfigError, ConfigField, ConfigGroup,
    ConfigNode, EntryView, ErrorView, NodeView, NumberField, NumberView, OptionView, SelectOption,
    NUMBER_SCALE,
};
use crate::config::store::{StoredValue, ValueStore, ValueView};
use crate::text::{push_decimal, str_eq};

verus! {

/// The entry that a key names is the last one of that key.
pub proof fn lemma_find_entry_at(entries: Seq<EntryView>, key: Seq<char>, index: int)
    requires
        0 <= index < entries.len(),
        entries[index].key == key,
        forall|j: int| index < j < entries.len() ==> (#[trigger] entries[j]).key != key,
    ensures
        find_entry(entries, key) == Some(entries[index]),
    decreases entries.len(),
{
    if index < entries.len() - 1 {
        assert(entries[entries.len() - 1].key != key);
        let earlier = entries.drop_last();
        assert(earlier[index] == entries[index]);
        assert forall|j: int| index < j < earlier.len() implies (#[trigger] earlier[j]).key
            != key by {
            assert(earlier[j] == entries[j]);
        }
        lemma_find_entry_at(earlier, key, index);
    }
}

/// A key that no entry has names none.
pub proof fn lemma_find_entry_none(entries: Seq<EntryView>, key: Seq<char>)
    requires
        forall|j: int| 0 <= j < entries.len() ==> (#[trigger] entries[j]).key != key,
    ensures
        find_entry(entries, key) is None,
    decreases entries.len(),
{
    if entries.len() > 0 {
        assert(entries[entries.len() - 1].key != key);
        let earlier = entries.drop_last();
        assert forall|j: int| 0 <= j < earlier.len() implies (#[trigger] earlier[j]).key
            != key by {
            assert(earlier[j] == entries[j]);
        }
        lemma_find_entry_none(earlier, key);
    }
}

/// An entry that was found has the key it was found by.
pub proof fn lemma_find_entry_key(entries: Seq<EntryView>, key: Seq<char>)
    ensures
        find_entry(entries, key) matches Some(entry) ==> entry.key == key,
    decreases entries.len(),
{
    if entries.len() > 0 && entries.last().key != key {
        lemma_find_entry_key(entries.drop_last(), key);
    }
}

/// The index of a value among the options is that of the first option with
/// the value.
pub proof fn lemma_option_index_at(options: Seq<OptionView>, value: Seq<char>, index: int)
    requires
        0 <= index < options.len(),
        options[index].value == value,
        forall|j: int| 0 <= j < index ==> (#[trigger] options[j]).value != value,
    ensures
        option_index(options, value) == index,
        has_option(options, value),
    decreases options.len(),
{
    let earlier = options.drop_last();
    if index < options.len() - 1 {
        assert(earlier[index].value == value);
        assert forall|j: int| 0 <= j < index implies (#[trigger] earlier[j]).value != value by {
            assert(earlier[j] == options[j]);
        }
        lemma_option_index_at(earlier, value, index);
    } else {
        if has_option(earlier, value) {
            let j = choose|j: int| 0 <= j < earlier.len() && (#[trigger] earlier[j]).value == value;
            assert(earlier[j] == options[j]);
        }
    }
}

/// A value that is none of the options has index 0.
pub proof fn lemma_option_index_none(options: Seq<OptionView>, value: Seq<char>)
    requires
        forall|j: int| 0 <= j < options.len() ==> (#[trigger] options[j]).value != value,
    ensures
        option_index(options, value) == 0,
        !has_option(options, value),
    decreases options.len(),
{
    if options.len() > 0 {
        let earlier = options.drop_last();
        assert forall|j: int| 0 <= j < earlier.len() implies (#[trigger] earlier[j]).value
            != value by {
            assert(earlier[j] == options[j]);
        }
        lemma_option_index_none(earlier, value);
        assert(options[options.len() - 1].value != value);
    }
}

/// Where the first option with a value stands, if there is one.
fn find_option(options: &Vec<SelectOption>, value: &str) -> (found: Option<usize>)
    ensures
        found is Some <==> has_option(option_views(options@), value@),
        found matches Some(index) ==> index < options@.len() && index == option_index(
            option_views(options@),
            value@,
        ) && options@[index as int].value@ == value@,
        found is None ==> option_index(option_views(options@), value@) == 0,
{
    let n = options.len();
    let mut i: usize = 0;
    while i < n
        invariant
            i <= n,
            n == options@.len(),
            forall|j: int| 0 <= j < i ==> (#[trigger] option_views(options@)[j]).value != value@,
        decreases n - i,
    {
        if str_eq(options[i].value.as_str(), value) {
            proof {
                lemma_option_index_at(option_views(options@), value@, i as int);
            }
            return Some(i);
        }
        i += 1;
    }
    proof {
        lemma_option_index_none(option_views(options@), value@);
    }
    None
}

/// The index of the option that lies `direction` options after `index`.
fn cycle_index(index: usize, direction: isize, len: usize) -> (next: usize)
    requires
        index < len,
    ensures
        next == cycled(index as int, direction as int, len as int),
        next < len,
{
    let sum: i128 = index as i128 + direction as i128;
    let size: i128 = len as i128;
    if sum >= 0 {
        (sum % size) as usize
    } else {
        let below: i128 = -sum;
        let quotient: i128 = below / size;
        let rest: i128 = below % size;
        proof {
            lemma_fundamental_div_mod(below as int, size as int);
            assert(size * quotient == quotient * size) by (nonlinear_arith);
        }
        if rest == 0 {
            proof {
                assert(sum == (-quotient) * size + 0) by (nonlinear_arith)
                    requires
                        below == quotient * size + rest,
                        rest == 0,
                        sum == -below,
                ;
                lemma_fundamental_div_mod_converse(sum as int, size as int, -quotient as int, 0);
            }
            0
        } else {
            proof {
                assert(sum == (-quotient - 1) * size + (size - rest)) by (nonlinear_arith)
                    requires
                        below == quotient * size + rest,
                        sum == -below,
                ;
                lemma_fundamental_div_mod_converse(
                    sum as int,
                    size as int,
                    (-quotient - 1) as int,
                    (size - rest) as int,
                );
            }
            (size - rest) as usize
        }
    }
}

/// Adds the entries of the group and of the groups below it to `lookup`.
fn walk(lookup: &mut Vec<ConfigEntry>, group: &ConfigGroup)
    ensures
        entry_views(final(lookup)@) == entry_views(old(lookup)@) + group_view(*group).entries(),
    decreases group,
{
    let n = group.children.len();
    let mut i: usize = 0;
    let ghost start = entry_views(lookup@);
    let ghost kids = group.children@;
    assert(kids.take(0) =~= Seq::<ConfigNode>::empty());
    while i < n
        invariant
            i <= n,
            n == kids.len(),
            kids == group.children@,
            entry_views(lookup@) == start + entries_of(node_views(kids.take(i as int))),
        decreases n - i,
    {
        let ghost done = node_views(kids.take(i as int));
        assert(kids.take(i + 1).drop_last() =~= kids.take(i as int));
        assert(kids.take(i + 1).last() == kids[i as int]);
        assert(node_views(kids.take(i + 1)) == done.push(node_view(kids[i as int])));
        assert(done.push(node_view(kids[i as int])).drop_last() =~= done);
        let ghost before = entry_views(lookup@);
        match &group.children[i] {
            ConfigNode::Group(child) => {
                walk(lookup, child);
            },
            ConfigNode::Entry(entry) => {
                lookup.push(entry.duplicate());
                assert(entry_views(lookup@) =~= before + seq![entry@]);
            },
        }
        i += 1;
    }
    assert(kids.take(n as int) =~= kids);
}

/// What is kept of a loaded value for an entry, if the entry takes it.
pub fn validate_value(entry: &ConfigEntry, value: &StoredValue) -> (kept: Option<StoredValue>)
    ensures
        kept is Some <==> ConfigView::validated(entry@, value@) is Some,
        kept matches Some(kept) ==> Some(kept@) == ConfigView::validated(entry@, value@),
{
    match &entry.field {
        ConfigField::Toggle { .. } => match value {
            StoredValue::Bool(flag) => Some(StoredValue::Bool(*flag)),
            _ => None,
        },
        ConfigField::Number(field) => match value {
            StoredValue::Number(number) => {
                let clamped = clamp_number(field, *number);
                Some(StoredValue::Number(round_to_precision(clamped, field.precision)))
            },
            _ => None,
        },
        ConfigField::Select { options, .. } => match value {
            StoredValue::Text(text) => {
                if find_option(options, text.as_str()).is_some() {
                    Some(StoredValue::Text(text.clone()))
                } else {
                    None
                }
            },
            _ => None,
        },
        ConfigField::Text(field) => match value {
            StoredValue::Text(text) => {
                if let Some(max) = field.max_length {
                    if text.as_str().unicode_len() > max {
                        return None;
                    }
                }
                Some(StoredValue::Text(text.clone()))
            },
            _ => None,
        },
    }
}

/// A node is changed only where the entry of the key took the options.
pub proof fn lemma_replace_missing(
    node: NodeView,
    key: Seq<char>,
    options: Seq<OptionView>,
    default: Option<Seq<char>>,
)
    ensures
        !(replace_in_node(node, key, options, default).1 is Done) ==> replace_in_node(
            node,
            key,
            options,
            default,
        ).0 == node,
    decreases node,
{
    match node {
        NodeView::Group(group) => {
            lemma_replace_missing_nodes(group.children, key, options, default);
        },
        NodeView::Entry(_) => {},
    }
}

/// Nodes are changed only where the entry of the key took the options.
pub proof fn lemma_replace_missing_nodes(
    nodes: Seq<NodeView>,
    key: Seq<char>,
    options: Seq<OptionView>,
    default: Option<Seq<char>>,
)
    ensures
        !(replace_in_nodes(nodes, key, options, default).1 is Done) ==> replace_in_nodes(
            nodes,
            key,
            options,
            default,
        ).0 == nodes,
    decreases nodes,
{
    if nodes.len() > 0 {
        lemma_replace_missing(nodes[0], key, options, default);
        lemma_replace_missing_nodes(nodes.skip(1), key, options, default);
        assert(seq![nodes[0]] + nodes.skip(1) =~= nodes);
    }
}

/// Gives the first entry of the key in the group, or below it, the new
/// options, if it is a select field.
pub fn update_select_options_in_group(
    group: &mut ConfigGroup,
    key: &str,
    options: &Vec<SelectOption>,
    default: Option<&String>,
) -> (outcome: Result<bool, ConfigError>)
    ensures
        group_view(*final(group)) == replace_in_group(
            group_view(*old(group)),
            key@,
            option_views(options@),
            default_view(default),
        ).0,
        match replace_in_group(
            group_view(*old(group)),
            key@,
            option_views(options@),
            default_view(default),
        ).1 {
            Replaced::Missing => outcome is Ok && outcome->Ok_0 == false,
            Replaced::Done => outcome is Ok && outcome->Ok_0 == true,
            Replaced::Mismatch => outcome is Err && outcome->Err_0@ == mismatch(key@, "select"),
        },
    decreases *old(group),
{
    let ghost before = group_view(*group);
    let ghost kids = group.children@;
    let ghost wanted = option_views(options@);
    let ghost given = default_view(default);
    let n = group.children.len();
    let mut i: usize = 0;
    proof {
        assert(before.children.skip(0) =~= before.children);
        assert(before.children.take(0) + replace_in_nodes(before.children, key@, wanted, given).0
            =~= replace_in_nodes(before.children, key@, wanted, given).0);
    }
    while i < n
        invariant
            i <= n,
            n == kids.len(),
            before == group_view(*old(group)),
            kids == old(group).children@,
            wanted == option_views(options@),
            given == default_view(default),
            group.key == old(group).key,
            group.label == old(group).label,
            group.description == old(group).description,
            group.children@.len() == n,
            forall|j: int| i <= j < n ==> group.children@[j] == kids[j],
            node_views(group.children@) == before.children,
            replace_in_nodes(before.children, key@, wanted, given).0 == before.children.take(
                i as int,
            ) + replace_in_nodes(before.children.skip(i as int), key@, wanted, given).0,
            replace_in_nodes(before.children, key@, wanted, given).1 == replace_in_nodes(
                before.children.skip(i as int),
                key@,
                wanted,
                given,
            ).1,
        decreases n - i,
    {
        let ghost rest = before.children.skip(i as int);
        let ghost current = group.children@;
        proof {
            lemma_node_views(current);
            assert(rest[0] == node_view(current[i as int]));
            assert(rest.skip(1) =~= before.children.skip(i + 1));
            assert(before.children.take(i + 1) =~= before.children.take(i as int) + seq![rest[0]]);
        }
        let ghost step = replace_in_node(rest[0], key@, wanted, given);
        proof {
            lemma_replace_missing(rest[0], key@, wanted, given);
            assert(decreases_to!(old(group).children => old(group).children@));
            assert(decreases_to!(kids => kids[i as int]));
        }
        let mut finished: Option<Result<bool, ConfigError>> = None;
        match &mut group.children[i] {
            ConfigNode::Group(child) => {
                match update_select_options_in_group(child, key, options, default) {
                    Ok(found) => {
                        if found {
                            finished = Some(Ok(true));
                        }
                    },
                    Err(error) => {
                        finished = Some(Err(error));
                    },
                }
            },
            ConfigNode::Entry(entry) => {
                if str_eq(entry.key.as_str(), key) {
                    match &mut entry.field {
                        ConfigField::Select { default: entry_default, options: entry_options } => {
                            let ghost present = entry_default@;
                            *entry_options = duplicate_options(options);
                            match default {
                                Some(default_value) => {
                                    *entry_default = default_value.clone();
                                },
                                None => {
                                    if find_option(options, entry_default.as_str()).is_none()
                                        && options.len() > 0 {
                                        *entry_default = options[0].value.clone();
                                    }
                                },
                            }
                            assert(entry_default@ == new_default(present, wanted, given));
                            finished = Some(Ok(true));
                        },
                        _ => {
                            finished = Some(
                                Err(
                                    ConfigError::TypeMismatch {
                                        key: String::from_str(key),
                                        expected: "select",
                                    },
                                ),
                            );
                        },
                    }
                }
            },
        }
        let ghost after = group.children@;
        assert(after =~= current.update(i as int, after[i as int]));
        assert(node_view(after[i as int]) == step.0);
        assert(finished is None <==> step.1 is Missing);
        proof {
            lemma_node_views(after);
            assert(node_views(after) =~= before.children.update(i as int, step.0)) by {
                assert forall|j: int| 0 <= j < n implies (#[trigger] node_views(after)[j])
                    == before.children.update(i as int, step.0)[j] by {
                    if j != i {
                        assert(after[j] == current[j]);
                        assert(node_views(current)[j] == node_view(current[j]));
                    }
                }
            }
            assert(before.children.update(i as int, step.0) =~= before.children.take(i as int) + (
            seq![step.0] + rest.skip(1)));
        }
        match finished {
            Some(outcome) => {
                return outcome;
            },
            None => {
                assert(step.0 == rest[0]);
                assert(before.children.update(i as int, step.0) =~= before.children);
            },
        }
        i += 1;
    }
    proof {
        lemma_node_views(group.children@);
        assert(before.children.skip(n as int) =~= Seq::<NodeView>::empty());
        assert(before.children.take(n as int) =~= before.children);
        assert(before.children + Seq::<NodeView>::empty() =~= before.children);
    }
    Ok(false)
}

/// An optional default as plain values.
pub open spec fn default_view(default: Option<&String>) -> Option<Seq<char>> {
    match default {
        Some(default) => Some(default@),
        None => None,
    }
}

/// Central configuration manager: the schema and the values that were set.
#[derive(Debug)]
pub struct ConfigManager {
    root: ConfigGroup,
    lookup: Vec<ConfigEntry>,
    values: ValueStore,
    unsaved: bool,
}

impl View for ConfigManager {
    type V = ConfigView;

    closed spec fn view(&self) -> ConfigView {
        ConfigView { root: group_view(self.root), values: self.values@, unsaved: self.unsaved }
    }
}

fn type_mismatch(key: &str, expected: &'static str) -> (error: ConfigError)
    ensures
        error@ == mismatch(key@, expected),
{
    ConfigError::TypeMismatch { key: String::from_str(key), expected }
}

impl ConfigManager {
    /// The invariant of the manager: the index holds the entries of the
    /// schema, and no key has two values.
    pub closed spec fn wf(&self) -> bool {
        &&& self.values.wf()
        &&& entry_views(self.lookup@) == group_view(self.root).entries()
    }

    /// A manager for the schema, with no value set.
    pub fn new(root: ConfigGroup) -> (manager: Self)
        ensures
            manager.wf(),
            manager@ == (ConfigView { root: root@, values: Map::empty(), unsaved: false }),
    {
        let mut manager = ConfigManager {
            root,
            lookup: Vec::new(),
            values: ValueStore::new(),
            unsaved: false,
        };
        manager.index_schema();
        manager
    }

    /// The root group of the schema.
    pub fn schema(&self) -> (root: &ConfigGroup)
        ensures
            root@ == self@.root,
    {
        &self.root
    }

    /// The entry that a key names.
    pub fn entry(&self, key: &str) -> (found: Result<&ConfigEntry, ConfigError>)
        requires
            self.wf(),
        ensures
            match found {
                Ok(entry) => self@.entry(key@) == Some(entry@) && entry@.key == key@,
                Err(error) => self@.entry(key@) is None && error@ == ErrorView::UnknownKey(key@),
            },
    {
        let n = self.lookup.len();
        let mut i: usize = n;
        while i > 0
            invariant
                i <= n,
                n == self.lookup@.len(),
                self.wf(),
                forall|j: int| i <= j < n ==> (#[trigger] entry_views(self.lookup@)[j]).key != key@,
            decreases i,
        {
            i -= 1;
            if str_eq(self.lookup[i].key.as_str(), key) {
                proof {
                    lemma_find_entry_at(entry_views(self.lookup@), key@, i as int);
                }
                return Ok(&self.lookup[i]);
            }
        }
        proof {
            lemma_find_entry_none(entry_views(self.lookup@), key@);
        }
        Err(ConfigError::UnknownKey(String::from_str(key)))
    }

    fn stored_bool(&self, key: &str) -> (stored: Option<bool>)
        requires
            self.wf(),
        ensures
            stored == self@.stored_bool(key@),
    {
        match self.values.get(key) {
            Some(StoredValue::Bool(flag)) => Some(*flag),
            _ => None,
        }
    }

    fn stored_number(&self, key: &str) -> (stored: Option<i64>)
        requires
            self.wf(),
        ensures
            stored == self@.stored_number(key@),
    {
        match self.values.get(key) {
            Some(StoredValue::Number(number)) => Some(*number),
            _ => None,
        }
    }

    fn raw_text(&self, key: &str, default: &String) -> (text: String)
        requires
            self.wf(),
        ensures
            text@ == self@.raw_text(key@, default@),
    {
        match self.values.get(key) {
            Some(StoredValue::Text(text)) => text.clone(),
            _ => default.clone(),
        }
    }

    /// Keeps `value` for the key, or nothing where it is the default.
    fn keep(&mut self, key: &str, value: StoredValue, is_default: bool)
        requires
            old(self).wf(),
        ensures
            final(self).wf(),
            final(self)@ == old(self)@.keeping(key@, value@, is_default),
    {
        if is_default {
            self.values.remove(key);
        } else {
            self.values.insert(String::from_str(key), value);
        }
        self.unsaved = true;
    }

    /// Whether a value changed since the settings were last written out.
    pub fn has_unsaved_changes(&self) -> (unsaved: bool)
        ensures
            unsaved == self@.unsaved,
    {
        self.unsaved
    }

    /// Records that the settings were written out.
    pub fn mark_saved(&mut self)
        requires
            old(self).wf(),
        ensures
            final(self).wf(),
            final(self)@ == old(self)@.saved(),
    {
        self.unsaved = false;
    }

    /// The values that were set, for the caller to write out.
    pub fn stored_values(&self) -> (pairs: Vec<(String, StoredValue)>)
        requires
            self.wf(),
        ensures
            pairs@.len() == self@.values.len(),
            forall|i: int|
                0 <= i < pairs@.len() ==> self@.values.contains_key((#[trigger] pairs@[i]).0@)
                    && self@.values[pairs@[i].0@] == pairs@[i].1@,
            forall|i: int, j: int|
                0 <= i < j < pairs@.len() ==> (#[trigger] pairs@[i]).0@ != (#[trigger] pairs@[j]).0@,
    {
        self.values.export()
    }

    /// The flag of a toggle field.
    pub fn bool_value(&self, key: &str) -> (value: Result<bool, ConfigError>)
        requires
            self.wf(),
        ensures
            outcome_view(value) == self@.bool_value(key@),
    {
        let entry = self.entry(key)?;
        match &entry.field {
            ConfigField::Toggle { default } => Ok(
                match self.stored_bool(key) {
                    Some(flag) => flag,
                    None => *default,
                },
            ),
            _ => Err(type_mismatch(key, "boolean")),
        }
    }

    /// Sets the flag of a toggle field. `Ok(true)` says that the flag
    /// changed, and that the settings are to be written out.
    pub fn set_bool(&mut self, key: &str, value: bool) -> (changed: Result<bool, ConfigError>)
        requires
            old(self).wf(),
        ensures
            final(self).wf(),
            final(self)@ == old(self)@.set_bool(key@, value).0,
            outcome_view(changed) == old(self)@.set_bool(key@, value).1,
    {
        let entry = self.entry(key)?;
        let default = match &entry.field {
            ConfigField::Toggle { default } => *default,
            _ => {
                return Err(type_mismatch(key, "boolean"));
            },
        };
        let current = match self.stored_bool(key) {
            Some(flag) => flag,
            None => default,
        };
        if current == value {
            return Ok(false);
        }
        self.keep(key, StoredValue::Bool(value), value == default);
        Ok(true)
    }

    /// Inverts the flag of a toggle field.
    pub fn toggle_bool(&mut self, key: &str) -> (changed: Result<bool, ConfigError>)
        requires
            old(self).wf(),
        ensures
            final(self).wf(),
            final(self)@ == old(self)@.toggle_bool(key@).0,
            outcome_view(changed) == old(self)@.toggle_bool(key@).1,
    {
        let current = self.bool_value(key)?;
        self.set_bool(key, !current)
    }

    /// The number field of a key.
    fn number_field(&self, key: &str) -> (field: Result<&NumberField, ConfigError>)
        requires
            self.wf(),
        ensures
            match field {
                Ok(field) => self@.number_field(key@) == Ok::<NumberView, ErrorView>(field@),
                Err(error) => self@.number_field(key@) == Err::<NumberView, ErrorView>(error@),
            },
    {
        let entry = self.entry(key)?;
        match &entry.field {
            ConfigField::Number(field) => Ok(field),
            _ => Err(type_mismatch(key, "number")),
        }
    }

    /// The value of a number field, in millionths.
    pub fn number_value(&self, key: &str) -> (value: Result<i64, ConfigError>)
        requires
            self.wf(),
        ensures
            outcome_view(value) == self@.number_value(key@),
    {
        let field = self.number_field(key)?;
        let raw = match self.stored_number(key) {
            Some(number) => number,
            None => field.default,
        };
        Ok(clamp_number(field, raw))
    }

    /// Sets a number field to `value`, in millionths, brought within the
    /// bounds of the field and rounded to its precision. `Ok(true)` says that
    /// the number changed, and that the settings are to be written out.
    pub fn set_number(&mut self, key: &str, value: i64) -> (changed: Result<bool, ConfigError>)
        requires
            old(self).wf(),
        ensures
            final(self).wf(),
            final(self)@ == old(self)@.set_number(key@, value).0,
            outcome_view(changed) == old(self)@.set_number(key@, value).1,
    {
        let field = self.number_field(key)?;
        let number = round_to_precision(clamp_number(field, value), field.precision);
        let default = field.default;
        let raw = match self.stored_number(key) {
            Some(stored) => stored,
            None => default,
        };
        if raw == number {
            return Ok(false);
        }
        self.keep(key, StoredValue::Number(number), number == default);
        Ok(true)
    }

    /// Moves a number field by `steps` steps of the field, or of 1 where the
    /// field names no step.
    pub fn adjust_number(&mut self, key: &str, steps: i64) -> (changed: Result<bool, ConfigError>)
        requires
            old(self).wf(),
        ensures
            final(self).wf(),
            final(self)@ == old(self)@.adjust_number(key@, steps).0,
            outcome_view(changed) == old(self)@.adjust_number(key@, steps).1,
    {
        let field = self.number_field(key)?;
        let step = match field.step {
            Some(step) => step,
            None => NUMBER_SCALE,
        };
        let raw = match self.stored_number(key) {
            Some(number) => number,
            None => field.default,
        };
        let current = clamp_number(field, raw);
        assert(-85070591730234615865843651857942052864 <= step * steps
            <= 85070591730234615865843651857942052864) by (nonlinear_arith)
            requires
                -9223372036854775808 <= step <= 9223372036854775807,
                -9223372036854775808 <= steps <= 9223372036854775807,
        ;
        let moved: i128 = current as i128 + (step as i128) * (steps as i128);
        let target: i64 = if moved < -9223372036854775808 {
            i64::MIN
        } else if moved > 9223372036854775807 {
            i64::MAX
        } else {
            moved as i64
        };
        let number = round_to_precision(clamp_number(field, target), field.precision);
        if number == current {
            return Ok(false);
        }
        self.set_number(key, number)
    }

    /// The default and the options of the select field of a key.
    fn select_field(&self, key: &str) -> (field: Result<(&String, &Vec<SelectOption>), ConfigError>)
        requires
            self.wf(),
        ensures
            match field {
                Ok((default, options)) => self@.select_field(key@) == Ok::<
                    (Seq<char>, Seq<OptionView>),
                    ErrorView,
                >((default@, option_views(options@))),
                Err(error) => self@.select_field(key@) == Err::<
                    (Seq<char>, Seq<OptionView>),
                    ErrorView,
                >(error@),
            },
    {
        let entry = self.entry(key)?;
        match &entry.field {
            ConfigField::Select { default, options } => Ok((default, options)),
            _ => Err(type_mismatch(key, "select")),
        }
    }

    /// The value of a select field.
    pub fn select_value(&self, key: &str) -> (value: Result<String, ConfigError>)
        requires
            self.wf(),
        ensures
            text_outcome_view(value) == self@.select_value(key@),
    {
        let (default, options) = self.select_field(key)?;
        let value = self.raw_text(key, default);
        if find_option(options, value.as_str()).is_some() {
            Ok(value)
        } else {
            Ok(default.clone())
        }
    }

    /// Sets a select field to one of its options. `Ok(true)` says that the
    /// value changed, and that the settings are to be written out.
    pub fn set_select(&mut self, key: &str, value: &str) -> (changed: Result<bool, ConfigError>)
        requires
            old(self).wf(),
        ensures
            final(self).wf(),
            final(self)@ == old(self)@.set_select(key@, value@).0,
            outcome_view(changed) == old(self)@.set_select(key@, value@).1,
    {
        let (default, options) = self.select_field(key)?;
        if find_option(options, value).is_none() {
            let mut message = String::from_str("'");
            message.append(value);
            message.append("' is not a valid option");
            return Err(ConfigError::ValidationFailed { key: String::from_str(key), message });
        }
        let current = self.raw_text(key, default);
        if str_eq(current.as_str(), value) {
            return Ok(false);
        }
        let is_default = str_eq(value, default.as_str());
        self.keep(key, StoredValue::Text(String::from_str(value)), is_default);
        Ok(true)
    }

    /// Moves a select field by `direction` options, around the ends: 1 for
    /// the next option, -1 for the one before.
    pub fn cycle_select(&mut self, key: &str, direction: isize) -> (changed: Result<
        bool,
        ConfigError,
    >)
        requires
            old(self).wf(),
        ensures
            final(self).wf(),
            final(self)@ == old(self)@.cycle_select(key@, direction as int).0,
            outcome_view(changed) == old(self)@.cycle_select(key@, direction as int).1,
    {
        let (default, options) = self.select_field(key)?;
        if options.len() == 0 {
            return Ok(false);
        }
        let raw = self.raw_text(key, default);
        let current = if find_option(options, raw.as_str()).is_some() {
            raw
        } else {
            default.clone()
        };
        let index = match find_option(options, current.as_str()) {
            Some(index) => index,
            None => 0,
        };
        let next = cycle_index(index, direction, options.len());
        let value = options[next].value.clone();
        self.set_select(key, value.as_str())
    }

    /// Replaces the options of a select field, and with them its default:
    /// the one given, else the present one if it is still an option, else the
    /// first option. The value that was set is kept if it is still an option.
    pub fn update_select_options(
        &mut self,
        key: &str,
        options: Vec<SelectOption>,
        default: Option<String>,
    ) -> (done: Result<(), ConfigError>)
        requires
            old(self).wf(),
        ensures
            final(self).wf(),
            final(self)@ == old(self)@.update_select_options(
                key@,
                option_views(options@),
                optional_default(default),
            ).0,
            outcome_view(done) == old(self)@.update_select_options(
                key@,
                option_views(options@),
                optional_default(default),
            ).1,
    {
        let found = update_select_options_in_group(&mut self.root, key, &options, default.as_ref());
        match found {
            Err(error) => {
                proof {
                    lemma_replace_missing_nodes(
                        old(self)@.root.children,
                        key@,
                        option_views(options@),
                        optional_default(default),
                    );
                }
                return Err(error);
            },
            Ok(false) => {
                proof {
                    lemma_replace_missing_nodes(
                        old(self)@.root.children,
                        key@,
                        option_views(options@),
                        optional_default(default),
                    );
                }
                return Err(ConfigError::UnknownKey(String::from_str(key)));
            },
            Ok(true) => {},
        }
        self.index_schema();
        if options.len() == 0 {
            self.values.remove(key);
            return Ok(());
        }
        let stored_valid = match self.values.get(key) {
            Some(StoredValue::Text(text)) => {
                if find_option(&options, text.as_str()).is_some() {
                    Some(text.clone())
                } else {
                    None
                }
            },
            _ => None,
        };
        let effective = match stored_valid {
            Some(text) => text,
            None => match default {
                Some(default) => default,
                None => options[0].value.clone(),
            },
        };
        match self.set_select(key, effective.as_str()) {
            Ok(_) => Ok(()),
            Err(error) => Err(error),
        }
    }

    /// The value of a text field.
    pub fn text_value(&self, key: &str) -> (value: Result<String, ConfigError>)
        requires
            self.wf(),
        ensures
            text_outcome_view(value) == self@.text_value(key@),
    {
        let entry = self.entry(key)?;
        match &entry.field {
            ConfigField::Text(field) => Ok(self.raw_text(key, &field.default)),
            _ => Err(type_mismatch(key, "text")),
        }
    }

    /// Sets a text field. `Ok(true)` says that the text changed, and that the
    /// settings are to be written out.
    pub fn set_text(&mut self, key: &str, value: &str) -> (changed: Result<bool, ConfigError>)
        requires
            old(self).wf(),
        ensures
            final(self).wf(),
            final(self)@ == old(self)@.set_text(key@, value@).0,
            outcome_view(changed) == old(self)@.set_text(key@, value@).1,
    {
        let entry = self.entry(key)?;
        let field = match &entry.field {
            ConfigField::Text(field) => field,
            _ => {
                return Err(type_mismatch(key, "text"));
            },
        };
        if let Some(max) = field.max_length {
            if value.unicode_len() > max {
                let mut message = String::from_str("value exceeds maximum length of ");
                push_decimal(&mut message, max as u64);
                message.append(" characters");
                return Err(ConfigError::ValidationFailed { key: String::from_str(key), message });
            }
        }
        let current = self.raw_text(key, &field.default);
        if str_eq(current.as_str(), value) {
            return Ok(false);
        }
        let is_default = str_eq(value, field.default.as_str());
        self.keep(key, StoredValue::Text(String::from_str(value)), is_default);
        Ok(true)
    }

    /// Rebuilds the index from the schema.
    fn index_schema(&mut self)
        requires
            old(self).values.wf(),
        ensures
            final(self).wf(),
            final(self)@ == old(self)@,
    {
        let mut lookup: Vec<ConfigEntry> = Vec::new();
        walk(&mut lookup, &self.root);
        assert(entry_views(lookup@) =~= group_view(self.root).entries());
        self.lookup = lookup;
    }

    /// Takes over the values that were read from the settings file. A value
    /// is kept if its key names an entry that takes it; any other is ignored.
    pub fn load_values(&mut self, store: &Vec<(String, StoredValue)>)
        requires
            old(self).wf(),
        ensures
            final(self).wf(),
            final(self)@ == old(self)@.load_values(loaded(store@)),
    {
        let n = store.len();
        let mut i: usize = 0;
        assert(loaded(store@).take(0) =~= Seq::<(Seq<char>, ValueView)>::empty());
        while i < n
            invariant
                i <= n,
                n == store@.len(),
                self.wf(),
                self@ == old(self)@.load_values(loaded(store@).take(i as int)),
            decreases n - i,
        {
            let ghost pairs = loaded(store@);
            assert(pairs.take(i + 1).drop_last() =~= pairs.take(i as int));
            assert(pairs.take(i + 1).last() == pairs[i as int]);
            let key = store[i].0.as_str();
            let kept = match self.entry(key) {
                Ok(entry) => validate_value(entry, &store[i].1),
                Err(_) => None,
            };
            if let Some(value) = kept {
                self.values.insert(String::from_str(key), value);
            }
            i += 1;
        }
        assert(loaded(store@).take(n as int) =~= loaded(store@));
    }
}

/// An optional default as plain values.
pub open spec fn optional_default(default: Option<String>) -> Option<Seq<char>> {
    match default {
        Some(default) => Some(default@),
        None => None,
    }
}

/// Keys and values as plain values.
pub open spec fn loaded(store: Seq<(String, StoredValue)>) -> Seq<(Seq<char>, ValueView)> {
    Seq::new(store.len(), |i: int| (store[i].0@, store[i].1@))
}

} // verus!
