//! The settings dialog: the rows of the schema, the selection, and the keys
//! that change a setting.

use vstd::prelude::*;
use vstd::string::*;
use crate::config::manager::ConfigManager;
use crate::config::model::ConfigView;
use crate::config::schema::{
    group_view, node_view, node_views, optional_text, ConfigEntry, ConfigField, ConfigGroup,
    ConfigNode, EntryView, FieldView, GroupView, NodeView, duplicate_text,
};
use crate::keys::{is_control, is_control_char, KeyCode, KeyEvent, KeyModifiers};
use crate::text::{insert_char_at, remove_char_at};

verus! {

/// A row of the dialog.
#[derive(Debug, Clone)]
pub enum DisplayItem {
    Group { depth: usize, label: String, description: Option<String> },
    Entry { depth: usize, entry: ConfigEntry },
}

/// A row as plain values.
pub enum ItemView {
    Group { depth: usize, label: Seq<char>, description: Option<Seq<char>> },
    Entry { depth: usize, entry: EntryView },
}

impl View for DisplayItem {
    type V = ItemView;

    open spec fn view(&self) -> ItemView {
        match self {
            DisplayItem::Group { depth, label, description } => ItemView::Group {
                depth: *depth,
                label: label@,
                description: optional_text(*description),
            },
            DisplayItem::Entry { depth, entry } => ItemView::Entry { depth: *depth, entry: entry@ },
        }
    }
}

impl DisplayItem {
    /// Whether the row can be selected: entries can, headings cannot.
    pub fn is_selectable(&self) -> (selectable: bool)
        ensures
            selectable == self@ is Entry,
    {
        match self {
            DisplayItem::Entry { .. } => true,
            DisplayItem::Group { .. } => false,
        }
    }
}

/// The rows as plain values.
pub open spec fn item_views(items: Seq<DisplayItem>) -> Seq<ItemView> {
    Seq::new(items.len(), |i: int| items[i]@)
}

/// The depth one below `depth`.
pub open spec fn deeper(depth: usize) -> usize {
    if depth < usize::MAX {
        (depth + 1) as usize
    } else {
        depth
    }
}

/// The rows for a group: a heading for the group if `include_self`, then the
/// rows of its children, one level deeper than the heading.
pub open spec fn group_rows(group: GroupView, depth: usize, include_self: bool) -> Seq<ItemView>
    decreases group,
{
    let below = if include_self {
        deeper(depth)
    } else {
        depth
    };
    if include_self {
        seq![ItemView::Group { depth, label: group.label, description: group.description }]
            + node_rows(group.children, below)
    } else {
        node_rows(group.children, below)
    }
}

/// The rows for nodes at a depth.
pub open spec fn node_rows(nodes: Seq<NodeView>, depth: usize) -> Seq<ItemView>
    decreases nodes,
{
    if nodes.len() == 0 {
        Seq::empty()
    } else {
        node_rows(nodes.drop_last(), depth) + match nodes.last() {
            NodeView::Group(group) => group_rows(group, depth, true),
            NodeView::Entry(entry) => seq![ItemView::Entry { depth, entry }],
        }
    }
}

/// Text being typed for a text field. The cursor counts the characters in
/// front of it.
#[derive(Debug, Clone)]
pub struct TextEditState {
    key: String,
    buffer: String,
    cursor: usize,
    max_length: Option<usize>,
    secret: bool,
}

/// A text edit as plain values.
pub struct TextEditView {
    pub key: Seq<char>,
    pub buffer: Seq<char>,
    pub cursor: nat,
    pub max_length: Option<usize>,
    pub secret: bool,
}

impl View for TextEditState {
    type V = TextEditView;

    closed spec fn view(&self) -> TextEditView {
        TextEditView {
            key: self.key@,
            buffer: self.buffer@,
            cursor: self.cursor as nat,
            max_length: self.max_length,
            secret: self.secret,
        }
    }
}

/// Which way the selection moves.
#[derive(Debug, Clone, Copy, PartialEq, Eq, Structural)]
pub enum Direction {
    Previous,
    Next,
}

/// Result of handling a key input within the dialog.
#[derive(Debug, Clone, Copy, PartialEq, Eq, Structural)]
pub struct DialogEvent {
    pub handled: bool,
    pub close: bool,
    pub value_changed: bool,
}

impl DialogEvent {
    /// The key was not for the dialog.
    pub open spec fn ignored() -> DialogEvent {
        DialogEvent { handled: false, close: false, value_changed: false }
    }

    /// The key was used, and a value changed or not.
    pub open spec fn used(value_changed: bool) -> DialogEvent {
        DialogEvent { handled: true, close: false, value_changed }
    }

    /// The key closes the dialog.
    pub open spec fn closing() -> DialogEvent {
        DialogEvent { handled: true, close: true, value_changed: false }
    }

    pub fn unhandled() -> (event: Self)
        ensures
            event == Self::ignored(),
    {
        Self { handled: false, close: false, value_changed: false }
    }
}

/// Whether an operation on the settings reported a change.
pub open spec fn reported<E>(outcome: Result<bool, E>) -> bool {
    outcome == Ok::<bool, E>(true)
}

/// By how many steps a number moves for an arrow key: 10 with control, 5
/// with shift, else 1.
pub open spec fn step_count(modifiers: KeyModifiers) -> i64 {
    if modifiers.control {
        10
    } else if modifiers.shift {
        5
    } else {
        1
    }
}

/// By how many steps a number moves for an arrow key.
pub fn step_multiplier(modifiers: KeyModifiers) -> (steps: i64)
    ensures
        steps == step_count(modifiers),
{
    if modifiers.control {
        10
    } else if modifiers.shift {
        5
    } else {
        1
    }
}

/// The position one character before `cursor`, or the start of the text.
pub fn previous_char_boundary(text: &str, cursor: usize) -> (position: usize)
    ensures
        position == if cursor == 0 {
            0
        } else {
            (cursor - 1) as usize
        },
{
    if cursor == 0 {
        0
    } else {
        cursor - 1
    }
}

/// The position one character after `cursor`, or the end of the text.
pub fn next_char_boundary(text: &str, cursor: usize) -> (position: usize)
    ensures
        position == if cursor >= text@.len() {
            text@.len() as int
        } else {
            cursor + 1
        },
{
    let length = text.unicode_len();
    if cursor >= length {
        length
    } else {
        cursor + 1
    }
}

/// The first selectable row, or 0 where there is none.
pub open spec fn first_selectable(items: Seq<ItemView>) -> nat
    decreases items.len(),
{
    if items.len() == 0 {
        0
    } else if exists|i: int| 0 <= i < items.len() - 1 && items[i] is Entry {
        first_selectable(items.drop_last())
    } else if items.last() is Entry {
        (items.len() - 1) as nat
    } else {
        0
    }
}

/// Whether `target` is the selectable row nearest to `from` in the
/// direction.
pub open spec fn is_neighbour(items: Seq<ItemView>, from: nat, direction: Direction, target: nat) -> bool {
    &&& target < items.len()
    &&& items[target as int] is Entry
    &&& match direction {
        Direction::Previous => target < from && forall|i: int|
            target < i < from && i < items.len() ==> !(items[i] is Entry),
        Direction::Next => from < target && forall|i: int| from < i < target ==> !(items[i] is Entry),
    }
}

/// Whether there is a selectable row from `from` in the direction.
pub open spec fn has_neighbour(items: Seq<ItemView>, from: nat, direction: Direction) -> bool {
    exists|target: nat| is_neighbour(items, from, direction, target)
}

impl TextEditView {
    /// Whether one more character fits.
    pub open spec fn has_room(self) -> bool {
        match self.max_length {
            Some(max) => self.buffer.len() < max,
            None => true,
        }
    }

    /// The edit after a key that edits: a character is typed at the cursor if
    /// it is no control character and fits; backspace and delete remove the
    /// character before and at the cursor; the arrows, home and end move the
    /// cursor. Any other key changes nothing.
    pub open spec fn after(self, code: KeyCode) -> TextEditView {
        match code {
            KeyCode::Backspace => if 0 < self.cursor <= self.buffer.len() {
                TextEditView {
                    buffer: self.buffer.remove(self.cursor - 1),
                    cursor: (self.cursor - 1) as nat,
                    ..self
                }
            } else {
                self
            },
            KeyCode::Delete => if self.cursor < self.buffer.len() {
                TextEditView { buffer: self.buffer.remove(self.cursor as int), ..self }
            } else {
                self
            },
            KeyCode::Left => TextEditView {
                cursor: if self.cursor == 0 {
                    0
                } else {
                    (self.cursor - 1) as nat
                },
                ..self
            },
            KeyCode::Right => TextEditView {
                cursor: if self.cursor >= self.buffer.len() {
                    self.buffer.len()
                } else {
                    self.cursor + 1
                },
                ..self
            },
            KeyCode::Home => TextEditView { cursor: 0, ..self },
            KeyCode::End => TextEditView { cursor: self.buffer.len(), ..self },
            KeyCode::Char(c) => if !is_control(c) && self.has_room() && self.cursor
                <= self.buffer.len() {
                TextEditView {
                    buffer: self.buffer.insert(self.cursor as int, c),
                    cursor: self.cursor + 1,
                    ..self
                }
            } else {
                self
            },
            _ => self,
        }
    }

    /// The edit that begins for a text entry: the text of the field with the
    /// cursor at its end, after `initial`, if that is given, was typed.
    pub open spec fn begun(entry: EntryView, config: ConfigView, initial: Option<char>) -> TextEditView {
        let field = entry.field->Text_0;
        let text = match config.text_value(entry.key) {
            Ok(text) => text,
            Err(_) => field.default,
        };
        let fresh = TextEditView {
            key: entry.key,
            buffer: text,
            cursor: text.len(),
            max_length: field.max_length,
            secret: field.secret,
        };
        match initial {
            Some(c) => fresh.after(KeyCode::Char(c)),
            None => fresh,
        }
    }
}

/// The dialog as plain values.
pub struct DialogView {
    pub items: Seq<ItemView>,
    pub selected_row: nat,
    pub editing: Option<TextEditView>,
}

impl DialogView {
    /// The invariant of the dialog: the cursor of an edit lies within its
    /// text.
    pub open spec fn wf(self) -> bool {
        self.editing matches Some(edit) ==> edit.cursor <= edit.buffer.len()
    }

    /// The entry of the selected row, if the row is one.
    pub open spec fn selected_entry(self) -> Option<EntryView> {
        if self.selected_row < self.items.len() {
            match self.items[self.selected_row as int] {
                ItemView::Entry { entry, .. } => Some(entry),
                _ => None,
            }
        } else {
            None
        }
    }

    /// The dialog with the nearest selectable row in the direction selected,
    /// which ends an edit; unchanged where there is no such row.
    pub open spec fn moved(self, direction: Direction) -> DialogView {
        if has_neighbour(self.items, self.selected_row, direction) {
            DialogView {
                selected_row: choose|target: nat|
                    is_neighbour(self.items, self.selected_row, direction, target),
                editing: None,
                ..self
            }
        } else {
            self
        }
    }

    /// What a key does while a text is being edited: escape drops the edit,
    /// enter sets the field to the text, any other key edits the text.
    pub open spec fn edit_key(self, code: KeyCode, config: ConfigView) -> (
        DialogView,
        ConfigView,
        DialogEvent,
    ) {
        let edit = self.editing->0;
        match code {
            KeyCode::Esc => (DialogView { editing: None, ..self }, config, DialogEvent::used(false)),
            KeyCode::Enter => (
                DialogView { editing: None, ..self },
                config.set_text(edit.key, edit.buffer).0,
                DialogEvent::used(reported(config.set_text(edit.key, edit.buffer).1)),
            ),
            _ => (
                DialogView { editing: Some(edit.after(code)), ..self },
                config,
                DialogEvent::used(false),
            ),
        }
    }

    /// What a key does to the entry of the selected row: a toggle is inverted
    /// by space and enter; a number moves with the arrows, plus and minus; a
    /// select field cycles with the arrows, space and enter; a text field
    /// begins an edit with enter or a character.
    pub open spec fn entry_key(self, entry: EntryView, key: KeyEvent, config: ConfigView) -> (
        DialogView,
        ConfigView,
        DialogEvent,
    ) {
        match entry.field {
            FieldView::Toggle { .. } => if key.code == KeyCode::Char(' ') || key.code
                == KeyCode::Enter {
                (
                    self,
                    config.toggle_bool(entry.key).0,
                    DialogEvent::used(reported(config.toggle_bool(entry.key).1)),
                )
            } else {
                (self, config, DialogEvent::ignored())
            },
            FieldView::Number(_) => match number_steps(key) {
                Some(steps) => (
                    self,
                    config.adjust_number(entry.key, steps).0,
                    DialogEvent::used(reported(config.adjust_number(entry.key, steps).1)),
                ),
                None => (self, config, DialogEvent::ignored()),
            },
            FieldView::Select { .. } => match select_direction(key.code) {
                Some(direction) => (
                    self,
                    config.cycle_select(entry.key, direction).0,
                    DialogEvent::used(reported(config.cycle_select(entry.key, direction).1)),
                ),
                None => (self, config, DialogEvent::ignored()),
            },
            FieldView::Text(_) => match key.code {
                KeyCode::Enter => (
                    DialogView { editing: Some(TextEditView::begun(entry, config, None)), ..self },
                    config,
                    DialogEvent::used(false),
                ),
                KeyCode::Char(c) => (
                    DialogView {
                        editing: Some(TextEditView::begun(entry, config, Some(c))),
                        ..self
                    },
                    config,
                    DialogEvent::used(false),
                ),
                _ => (self, config, DialogEvent::ignored()),
            },
        }
    }

    /// What a key does to the dialog and the settings.
    pub open spec fn handle(self, key: KeyEvent, config: ConfigView) -> (
        DialogView,
        ConfigView,
        DialogEvent,
    ) {
        if self.editing is Some {
            self.edit_key(key.code, config)
        } else {
            match key.code {
                KeyCode::Esc => (self, config, DialogEvent::closing()),
                KeyCode::Up | KeyCode::BackTab => (
                    self.moved(Direction::Previous),
                    config,
                    DialogEvent::used(false),
                ),
                KeyCode::Down | KeyCode::Tab => (
                    self.moved(Direction::Next),
                    config,
                    DialogEvent::used(false),
                ),
                _ => match self.selected_entry() {
                    Some(entry) => self.entry_key(entry, key, config),
                    None => (self, config, DialogEvent::ignored()),
                },
            }
        }
    }
}

/// By how many steps a key moves a number, if it does.
pub open spec fn number_steps(key: KeyEvent) -> Option<i64> {
    match key.code {
        KeyCode::Left => Some((-step_count(key.modifiers)) as i64),
        KeyCode::Right => Some(step_count(key.modifiers)),
        KeyCode::Char(c) => if c == '-' || c == '_' {
            Some(-1i64)
        } else if c == '+' || c == '=' {
            Some(1i64)
        } else {
            None
        },
        _ => None,
    }
}

/// By how many options a key moves a select field, if it does.
pub open spec fn select_direction(code: KeyCode) -> Option<int> {
    match code {
        KeyCode::Left => Some(-1int),
        KeyCode::Right | KeyCode::Enter => Some(1int),
        KeyCode::Char(c) => if c == ' ' {
            Some(1int)
        } else {
            None
        },
        _ => None,
    }
}

/// Adds the rows for a group to `items`.
pub fn build_items(group: &ConfigGroup, depth: usize, include_self: bool, items: &mut Vec<DisplayItem>)
    ensures
        item_views(final(items)@) == item_views(old(items)@) + group_rows(
            group_view(*group),
            depth,
            include_self,
        ),
    decreases group,
{
    let ghost start = item_views(items@);
    if include_self {
        items.push(
            DisplayItem::Group {
                depth,
                label: group.label.clone(),
                description: duplicate_text(&group.description),
            },
        );
    }
    let below = if include_self && depth < usize::MAX {
        depth + 1
    } else {
        depth
    };
    let ghost heading = if include_self {
        seq![
            ItemView::Group {
                depth,
                label: group.label@,
                description: optional_text(group.description),
            },
        ]
    } else {
        Seq::<ItemView>::empty()
    };
    let ghost kids = group.children@;
    let n = group.children.len();
    let mut i: usize = 0;
    assert(kids.take(0) =~= Seq::<ConfigNode>::empty());
    assert(item_views(items@) =~= start + heading + node_rows(node_views(kids.take(0)), below));
    while i < n
        invariant
            i <= n,
            n == kids.len(),
            kids == group.children@,
            item_views(items@) == start + heading + node_rows(node_views(kids.take(i as int)), below),
        decreases n - i,
    {
        let ghost done = node_views(kids.take(i as int));
        assert(kids.take(i + 1).drop_last() =~= kids.take(i as int));
        assert(kids.take(i + 1).last() == kids[i as int]);
        assert(node_views(kids.take(i + 1)) == done.push(node_view(kids[i as int])));
        assert(done.push(node_view(kids[i as int])).drop_last() =~= done);
        let ghost before = item_views(items@);
        match &group.children[i] {
            ConfigNode::Group(child) => {
                build_items(child, below, true, items);
            },
            ConfigNode::Entry(entry) => {
                items.push(DisplayItem::Entry { depth: below, entry: entry.duplicate() });
                assert(item_views(items@) =~= before + seq![
                    ItemView::Entry { depth: below, entry: entry@ },
                ]);
            },
        }
        i += 1;
    }
    assert(kids.take(n as int) =~= kids);
    assert(start + heading + node_rows(node_views(kids), below) =~= start + group_rows(
        group_view(*group),
        depth,
        include_self,
    ));
}

/// Captures the state of the settings dialog: the rows, the selection, and
/// the text being edited.
#[derive(Debug, Clone)]
pub struct SettingsDialogState {
    items: Vec<DisplayItem>,
    selected_row: usize,
    editing: Option<TextEditState>,
}

impl View for SettingsDialogState {
    type V = DialogView;

    closed spec fn view(&self) -> DialogView {
        DialogView {
            items: item_views(self.items@),
            selected_row: self.selected_row as nat,
            editing: match self.editing {
                Some(edit) => Some(edit@),
                None => None,
            },
        }
    }
}

/// The first selectable row is the first row that is an entry.
proof fn lemma_first_selectable(items: Seq<ItemView>, index: int)
    requires
        0 <= index <= items.len(),
        forall|i: int| 0 <= i < index ==> !(items[i] is Entry),
        index < items.len() ==> items[index] is Entry,
    ensures
        first_selectable(items) == if index < items.len() {
            index as nat
        } else {
            0
        },
    decreases items.len(),
{
    if items.len() > 0 {
        let earlier = items.drop_last();
        if index < items.len() - 1 {
            assert(earlier[index] == items[index]);
            assert forall|i: int| 0 <= i < index implies !(earlier[i] is Entry) by {
                assert(earlier[i] == items[i]);
            }
            lemma_first_selectable(earlier, index);
        } else {
            assert forall|i: int| 0 <= i < earlier.len() implies !(earlier[i] is Entry) by {
                assert(earlier[i] == items[i]);
            }
        }
    }
}

impl SettingsDialogState {
    /// The dialog for the schema of a manager, with the first entry selected.
    pub fn new(manager: &ConfigManager) -> (state: Self)
        ensures
            state@ == (DialogView {
                items: group_rows(manager@.root, 0, false),
                selected_row: first_selectable(group_rows(manager@.root, 0, false)),
                editing: None,
            }),
            state@.wf(),
    {
        let mut items: Vec<DisplayItem> = Vec::new();
        build_items(manager.schema(), 0, false, &mut items);
        assert(item_views(items@) =~= group_rows(manager@.root, 0, false));
        let n = items.len();
        let mut i: usize = 0;
        while i < n && !items[i].is_selectable()
            invariant
                i <= n,
                n == items@.len(),
                forall|j: int| 0 <= j < i ==> !(#[trigger] item_views(items@)[j] is Entry),
            decreases n - i,
        {
            i += 1;
        }
        proof {
            if i < n {
                assert(item_views(items@)[i as int] is Entry);
            }
            lemma_first_selectable(item_views(items@), i as int);
        }
        let selected_row = if i < n {
            i
        } else {
            0
        };
        Self { items, selected_row, editing: None }
    }

    /// The selected row.
    pub fn selected_row(&self) -> (row: usize)
        ensures
            row == self@.selected_row,
    {
        self.selected_row
    }

    /// The entry of the selected row, if the row is one.
    pub fn selected_entry(&self) -> (entry: Option<&ConfigEntry>)
        ensures
            entry is Some <==> self@.selected_entry() is Some,
            entry matches Some(entry) ==> Some(entry@) == self@.selected_entry(),
    {
        if self.selected_row < self.items.len() {
            assert(item_views(self.items@)[self.selected_row as int]
                == self.items@[self.selected_row as int]@);
            match &self.items[self.selected_row] {
                DisplayItem::Entry { entry, .. } => Some(entry),
                _ => None,
            }
        } else {
            None
        }
    }

    /// Whether a text is being edited.
    pub fn is_editing(&self) -> (editing: bool)
        ensures
            editing == self@.editing is Some,
    {
        self.editing.is_some()
    }

    /// Moves the selection to the nearest selectable row in the direction,
    /// and says whether there was one.
    fn move_selection(&mut self, direction: Direction) -> (moved: bool)
        ensures
            final(self)@ == old(self)@.moved(direction),
            moved == has_neighbour(old(self)@.items, old(self)@.selected_row, direction),
            old(self)@.wf() ==> final(self)@.wf(),
    {
        let n = self.items.len();
        let ghost items = item_views(self.items@);
        let ghost from = self.selected_row as nat;
        match direction {
            Direction::Previous => {
                let mut index = if self.selected_row < n {
                    self.selected_row
                } else {
                    n
                };
                while index > 0
                    invariant
                        index <= n,
                        index <= self.selected_row,
                        n == self.items@.len(),
                        items == item_views(self.items@),
                        from == self.selected_row,
                        *self == *old(self),
                        items.len() == n,
                        direction == Direction::Previous,
                        forall|i: int| index <= i < from && i < n ==> !((#[trigger] items[i]) is Entry),
                    decreases index,
                {
                    index -= 1;
                    if self.items[index].is_selectable() {
                        assert(items[index as int] is Entry);
                        assert(is_neighbour(items, from, direction, index as nat));
                        proof {
                            let chosen = choose|target: nat|
                                is_neighbour(items, from, direction, target);
                            assert(chosen == index) by {
                                if chosen < index {
                                    assert(!(items[index as int] is Entry));
                                }
                                if chosen > index {
                                    assert(!(items[chosen as int] is Entry));
                                }
                            }
                        }
                        self.selected_row = index;
                        self.editing = None;
                        return true;
                    }
                }
                assert(!has_neighbour(items, from, direction)) by {
                    if has_neighbour(items, from, direction) {
                        let target = choose|target: nat| is_neighbour(items, from, direction, target);
                        assert(!(items[target as int] is Entry));
                    }
                }
                false
            },
            Direction::Next => {
                if self.selected_row >= n {
                    assert(!has_neighbour(items, from, direction));
                    return false;
                }
                let mut index = self.selected_row + 1;
                while index < n
                    invariant
                        self.selected_row < index <= n,
                        n == self.items@.len(),
                        items == item_views(self.items@),
                        from == self.selected_row,
                        *self == *old(self),
                        items.len() == n,
                        direction == Direction::Next,
                        forall|i: int| from < i < index ==> !((#[trigger] items[i]) is Entry),
                    decreases n - index,
                {
                    if self.items[index].is_selectable() {
                        assert(items[index as int] is Entry);
                        assert(is_neighbour(items, from, direction, index as nat));
                        proof {
                            let chosen = choose|target: nat|
                                is_neighbour(items, from, direction, target);
                            assert(chosen == index) by {
                                if chosen < index {
                                    assert(!(items[chosen as int] is Entry));
                                }
                                if chosen > index {
                                    assert(!(items[index as int] is Entry));
                                }
                            }
                        }
                        self.selected_row = index;
                        self.editing = None;
                        return true;
                    }
                    index += 1;
                }
                assert(!has_neighbour(items, from, direction)) by {
                    if has_neighbour(items, from, direction) {
                        let target = choose|target: nat| is_neighbour(items, from, direction, target);
                        assert(!(items[target as int] is Entry));
                    }
                }
                false
            },
        }
    }

    /// Selects the entry above, if there is one.
    pub fn select_previous(&mut self) -> (moved: bool)
        ensures
            final(self)@ == old(self)@.moved(Direction::Previous),
            moved == has_neighbour(old(self)@.items, old(self)@.selected_row, Direction::Previous),
            old(self)@.wf() ==> final(self)@.wf(),
    {
        self.move_selection(Direction::Previous)
    }

    /// Selects the entry below, if there is one.
    pub fn select_next(&mut self) -> (moved: bool)
        ensures
            final(self)@ == old(self)@.moved(Direction::Next),
            moved == has_neighbour(old(self)@.items, old(self)@.selected_row, Direction::Next),
            old(self)@.wf() ==> final(self)@.wf(),
    {
        self.move_selection(Direction::Next)
    }

    /// The rows of the dialog.
    pub fn items(&self) -> (items: &Vec<DisplayItem>)
        ensures
            item_views(items@) == self@.items,
    {
        &self.items
    }

    /// The text being edited, for display: the key of its field, the text,
    /// the cursor as a count of characters, and whether the text is secret.
    pub fn edit_state(&self) -> (state: Option<(&str, &str, usize, bool)>)
        ensures
            state is Some <==> self@.editing is Some,
            state matches Some(shown) ==> {
                let edit = self@.editing->0;
                &&& shown.0@ == edit.key
                &&& shown.1@ == edit.buffer
                &&& shown.2 == edit.cursor
                &&& shown.3 == edit.secret
            },
    {
        match &self.editing {
            Some(edit) => Some((edit.key.as_str(), edit.buffer.as_str(), edit.cursor, edit.secret)),
            None => None,
        }
    }

    /// Handles a key: changes the dialog and the settings as the key asks,
    /// and says whether the key was used, whether a value changed, and
    /// whether the dialog is to close.
    pub fn handle_key_event(&mut self, key: KeyEvent, manager: &mut ConfigManager) -> (event:
        DialogEvent)
        requires
            old(self)@.wf(),
            old(manager).wf(),
        ensures
            final(self)@.wf(),
            final(manager).wf(),
            final(self)@ == old(self)@.handle(key, old(manager)@).0,
            final(manager)@ == old(self)@.handle(key, old(manager)@).1,
            event == old(self)@.handle(key, old(manager)@).2,
    {
        let editing = self.editing.take();
        if let Some(edit_state) = editing {
            let mut event = DialogEvent { handled: true, close: false, value_changed: false };
            match key.code {
                KeyCode::Esc => {},
                KeyCode::Enter => {
                    match manager.set_text(edit_state.key.as_str(), edit_state.buffer.as_str()) {
                        Ok(changed) => {
                            event.value_changed = changed;
                        },
                        Err(_) => {},
                    }
                },
                _ => {
                    self.editing = Some(Self::edit_text(edit_state, key.code));
                },
            }
            return event;
        }
        match key.code {
            KeyCode::Esc => {
                return DialogEvent { handled: true, close: true, value_changed: false };
            },
            KeyCode::Up | KeyCode::BackTab => {
                self.select_previous();
                return DialogEvent { handled: true, close: false, value_changed: false };
            },
            KeyCode::Down | KeyCode::Tab => {
                self.select_next();
                return DialogEvent { handled: true, close: false, value_changed: false };
            },
            _ => {},
        }
        let entry = match self.selected_entry() {
            Some(entry) => entry.duplicate(),
            None => {
                return DialogEvent::unhandled();
            },
        };
        let mut event = DialogEvent::unhandled();
        match &entry.field {
            ConfigField::Toggle { .. } => {
                let pressed = match key.code {
                    KeyCode::Char(c) => c == ' ',
                    KeyCode::Enter => true,
                    _ => false,
                };
                if pressed {
                    event.handled = true;
                    match manager.toggle_bool(entry.key.as_str()) {
                        Ok(changed) => {
                            event.value_changed = changed;
                        },
                        Err(_) => {},
                    }
                }
            },
            ConfigField::Number(_) => {
                let steps: Option<i64> = match key.code {
                    KeyCode::Left => Some(-step_multiplier(key.modifiers)),
                    KeyCode::Right => Some(step_multiplier(key.modifiers)),
                    KeyCode::Char(c) => {
                        if c == '-' || c == '_' {
                            Some(-1)
                        } else if c == '+' || c == '=' {
                            Some(1)
                        } else {
                            None
                        }
                    },
                    _ => None,
                };
                if let Some(steps) = steps {
                    event.handled = true;
                    match manager.adjust_number(entry.key.as_str(), steps) {
                        Ok(changed) => {
                            event.value_changed = changed;
                        },
                        Err(_) => {},
                    }
                }
            },
            ConfigField::Select { .. } => {
                let direction: Option<isize> = match key.code {
                    KeyCode::Left => Some(-1),
                    KeyCode::Right | KeyCode::Enter => Some(1),
                    KeyCode::Char(c) => {
                        if c == ' ' {
                            Some(1)
                        } else {
                            None
                        }
                    },
                    _ => None,
                };
                if let Some(direction) = direction {
                    event.handled = true;
                    match manager.cycle_select(entry.key.as_str(), direction) {
                        Ok(changed) => {
                            event.value_changed = changed;
                        },
                        Err(_) => {},
                    }
                }
            },
            ConfigField::Text(_) => {
                match key.code {
                    KeyCode::Enter => {
                        event.handled = true;
                        self.begin_text_edit(&entry, manager, None);
                    },
                    KeyCode::Char(c) => {
                        event.handled = true;
                        self.begin_text_edit(&entry, manager, Some(c));
                    },
                    _ => {},
                }
            },
        }
        event
    }

    /// The edit after a key that edits.
    fn edit_text(edit: TextEditState, code: KeyCode) -> (after: TextEditState)
        requires
            edit@.cursor <= edit@.buffer.len(),
        ensures
            after@ == edit@.after(code),
            after@.cursor <= after@.buffer.len(),
    {
        let mut edit = edit;
        let length = edit.buffer.as_str().unicode_len();
        match code {
            KeyCode::Backspace => {
                if edit.cursor > 0 {
                    edit.buffer = remove_char_at(edit.buffer.as_str(), edit.cursor - 1);
                    edit.cursor = edit.cursor - 1;
                }
            },
            KeyCode::Delete => {
                if edit.cursor < length {
                    edit.buffer = remove_char_at(edit.buffer.as_str(), edit.cursor);
                }
            },
            KeyCode::Left => {
                edit.cursor = previous_char_boundary(edit.buffer.as_str(), edit.cursor);
            },
            KeyCode::Right => {
                edit.cursor = next_char_boundary(edit.buffer.as_str(), edit.cursor);
            },
            KeyCode::Home => {
                edit.cursor = 0;
            },
            KeyCode::End => {
                edit.cursor = length;
            },
            KeyCode::Char(c) => {
                let room = match edit.max_length {
                    Some(max) => length < max,
                    None => true,
                };
                if !is_control_char(c) && room {
                    edit.buffer = insert_char_at(edit.buffer.as_str(), edit.cursor, c);
                    // counting the longer text shows that the cursor can advance
                    let _ = edit.buffer.as_str().unicode_len();
                    edit.cursor = edit.cursor + 1;
                }
            },
            _ => {},
        }
        edit
    }

    /// Begins the edit of a text entry.
    fn begin_text_edit(&mut self, entry: &ConfigEntry, manager: &ConfigManager, initial_char: Option<
        char,
    >)
        requires
            manager.wf(),
            entry@.field is Text,
        ensures
            final(self)@ == (DialogView {
                editing: Some(TextEditView::begun(entry@, manager@, initial_char)),
                ..old(self)@
            }),
            final(self)@.wf(),
    {
        let field = match &entry.field {
            ConfigField::Text(field) => field,
            _ => {
                return ;
            },
        };
        let buffer = match manager.text_value(entry.key.as_str()) {
            Ok(text) => text,
            Err(_) => field.default.clone(),
        };
        let cursor = buffer.as_str().unicode_len();
        let fresh = TextEditState {
            key: entry.key.clone(),
            buffer,
            cursor,
            max_length: field.max_length,
            secret: field.secret,
        };
        let begun = match initial_char {
            Some(c) => Self::edit_text(fresh, KeyCode::Char(c)),
            None => fresh,
        };
        self.editing = Some(begun);
    }
}

} // verus!
