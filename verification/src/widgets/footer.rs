//! The footer: the keys of the application and what they do.

use vstd::prelude::*;
use vstd::string::*;

verus! {

/// The controls shown in the footer, as keys and what they do.
pub open spec fn controls() -> Seq<(&'static str, &'static str)> {
    seq![
        ("SPACE", "Pause/Resume"),
        ("↑/↓", "Scroll"),
        ("←/→", "Focus Speaker/Message"),
        ("ENTER", "Edit"),
        ("S", "Settings"),
        ("q/ESC", "Quit"),
    ]
}

/// What stands between two controls.
pub open spec fn separator(compact: bool) -> &'static str {
    if compact {
        " "
    } else {
        "   "
    }
}

/// The controls shown in the footer.
pub fn footer_controls() -> (list: Vec<(&'static str, &'static str)>)
    ensures
        list@ == controls(),
{
    let mut list: Vec<(&'static str, &'static str)> = Vec::new();
    list.push(("SPACE", "Pause/Resume"));
    list.push(("↑/↓", "Scroll"));
    list.push(("←/→", "Focus Speaker/Message"));
    list.push(("ENTER", "Edit"));
    list.push(("S", "Settings"));
    list.push(("q/ESC", "Quit"));
    assert(list@ =~= controls());
    list
}

/// What stands between two controls: less in the compact layout.
pub fn footer_separator(compact: bool) -> (text: &'static str)
    ensures
        text == separator(compact),
{
    if compact {
        " "
    } else {
        "   "
    }
}

/// How many rows the footer takes.
pub fn footer_height(compact: bool) -> (rows: u16)
    ensures
        rows == if compact {
            2u16
        } else {
            3u16
        },
{
    if compact {
        2
    } else {
        3
    }
}

} // verus!
