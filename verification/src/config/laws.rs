//! Laws of the settings, proved on the model.

use vstd::prelude::*;
use vstd::arithmetic::div_mod::{lemma_add_mod_noop_right, lemma_mod_bound, lemma_small_mod};
use crate::config::model::{cycled, ConfigView};
use crate::config::schema::{has_option, option_index, settled, ErrorView, OptionView};
use crate::config::store::ValueView;

verus! {

/// Whether no two options have the same value.
pub open spec fn distinct_options(options: Seq<OptionView>) -> bool {
    forall|i: int, j: int|
        0 <= i < options.len() && 0 <= j < options.len() && i != j ==> (#[trigger] options[i]).value
            != (#[trigger] options[j]).value
}

impl ConfigView {
    /// The settings after a select field was moved `times` times by
    /// `direction` options.
    pub open spec fn cycle_times(self, key: Seq<char>, direction: int, times: nat) -> ConfigView
        decreases times,
    {
        if times == 0 {
            self
        } else {
            self.cycle_times(key, direction, (times - 1) as nat).cycle_select(key, direction).0
        }
    }

    /// How many of `times` moves of a select field by `direction` options
    /// reported a change.
    pub open spec fn cycle_writes(self, key: Seq<char>, direction: int, times: nat) -> nat
        decreases times,
    {
        if times == 0 {
            0
        } else {
            let before = self.cycle_times(key, direction, (times - 1) as nat);
            self.cycle_writes(key, direction, (times - 1) as nat) + if before.cycle_select(
                key,
                direction,
            ).1 == Ok::<bool, ErrorView>(true) {
                1nat
            } else {
                0nat
            }
        }
    }

    /// How many of `times` moves of a select field by `direction` options
    /// changed the values that are set.
    pub open spec fn cycle_changes(self, key: Seq<char>, direction: int, times: nat) -> nat
        decreases times,
    {
        if times == 0 {
            0
        } else {
            let before = self.cycle_times(key, direction, (times - 1) as nat);
            self.cycle_changes(key, direction, (times - 1) as nat) + if before.cycle_select(
                key,
                direction,
            ).0.values != before.values {
                1nat
            } else {
                0nat
            }
        }
    }

    /// Whether the select field of the key has options of distinct values,
    /// one of which is its value.
    pub open spec fn select_is_regular(self, key: Seq<char>) -> bool {
        &&& self.select_field(key) is Ok
        &&& distinct_options(self.select_field(key)->Ok_0.1)
        &&& has_option(self.select_field(key)->Ok_0.1, self.select_value(key)->Ok_0)
    }
}

/// The index of an option among options of distinct values is its own.
pub proof fn lemma_option_index_distinct(options: Seq<OptionView>, index: int)
    requires
        distinct_options(options),
        0 <= index < options.len(),
    ensures
        option_index(options, options[index].value) == index,
        has_option(options, options[index].value),
    decreases options.len(),
{
    let value = options[index].value;
    let earlier = options.drop_last();
    if index < options.len() - 1 {
        assert(distinct_options(earlier)) by {
            assert forall|i: int, j: int|
                0 <= i < earlier.len() && 0 <= j < earlier.len() && i != j implies (
            #[trigger] earlier[i]).value != (#[trigger] earlier[j]).value by {
                assert(earlier[i] == options[i] && earlier[j] == options[j]);
            }
        }
        assert(earlier[index] == options[index]);
        lemma_option_index_distinct(earlier, index);
    } else {
        if has_option(earlier, value) {
            let j = choose|j: int| 0 <= j < earlier.len() && (#[trigger] earlier[j]).value == value;
            assert(earlier[j] == options[j]);
        }
    }
}

/// A setter reports a change exactly when it changed the values that are
/// set, so that the settings are written out once for each change and never
/// otherwise. A change that is reported is marked as not yet written out. No
/// setter changes the schema.
pub proof fn lemma_change_is_reported(
    c: ConfigView,
    key: Seq<char>,
    flag: bool,
    number: i64,
    text: Seq<char>,
    direction: int,
)
    ensures
        c.set_bool(key, flag).1 == Ok::<bool, ErrorView>(true) <==> c.set_bool(
            key,
            flag,
        ).0.values != c.values,
        c.set_number(key, number).1 == Ok::<bool, ErrorView>(true)
            <==> c.set_number(key, number).0.values != c.values,
        c.set_select(key, text).1 == Ok::<bool, ErrorView>(true)
            <==> c.set_select(key, text).0.values != c.values,
        c.set_text(key, text).1 == Ok::<bool, ErrorView>(true) <==> c.set_text(
            key,
            text,
        ).0.values != c.values,
        c.cycle_select(key, direction).1 == Ok::<bool, ErrorView>(true)
            <==> c.cycle_select(key, direction).0.values != c.values,
        c.set_bool(key, flag).1 == Ok::<bool, ErrorView>(true) ==> c.set_bool(
            key,
            flag,
        ).0.unsaved,
        c.set_number(key, number).1 == Ok::<bool, ErrorView>(true)
            ==> c.set_number(key, number).0.unsaved,
        c.set_select(key, text).1 == Ok::<bool, ErrorView>(true)
            ==> c.set_select(key, text).0.unsaved,
        c.set_text(key, text).1 == Ok::<bool, ErrorView>(true) ==> c.set_text(
            key,
            text,
        ).0.unsaved,
        c.cycle_select(key, direction).1 == Ok::<bool, ErrorView>(true)
            ==> c.cycle_select(key, direction).0.unsaved,
        c.set_bool(key, flag).0.root == c.root,
        c.set_number(key, number).0.root == c.root,
        c.set_select(key, text).0.root == c.root,
        c.set_text(key, text).0.root == c.root,
        c.cycle_select(key, direction).0.root == c.root,
{
    lemma_keeping_changes(c, key);
}

/// Keeping another value for a key than the present one changes the values.
proof fn lemma_keeping_changes(c: ConfigView, key: Seq<char>)
    ensures
        c.values.contains_key(key) ==> c.without_value(key).values != c.values,
        forall|value: ValueView|
            !(c.values.contains_key(key) && c.values[key] == value) ==> (#[trigger] c.with_value(
                key,
                value,
            )).values != c.values,
{
    if c.values.contains_key(key) {
        assert(!c.without_value(key).values.contains_key(key));
    }
    assert forall|value: ValueView|
        !(c.values.contains_key(key) && c.values[key] == value) implies (#[trigger] c.with_value(
        key,
        value,
    )).values != c.values by {
        assert(c.with_value(key, value).values.contains_key(key));
        assert(c.with_value(key, value).values[key] == value);
    }
}

/// Moving a regular select field by `direction` options leaves it on the
/// option that many places further in the cycle.
pub proof fn lemma_cycle_step(c: ConfigView, key: Seq<char>, direction: int, index: int)
    requires
        c.select_is_regular(key),
        0 <= index < c.select_field(key)->Ok_0.1.len(),
        c.select_value(key) == Ok::<Seq<char>, ErrorView>(
            c.select_field(key)->Ok_0.1[index].value,
        ),
    ensures
        ({
            let options = c.select_field(key)->Ok_0.1;
            let after = c.cycle_select(key, direction).0;
            let next = cycled(index, direction, options.len() as int);
            &&& c.cycle_select(key, direction).1 is Ok
            &&& 0 <= next < options.len()
            &&& after.select_field(key) == c.select_field(key)
            &&& after.select_value(key) == Ok::<Seq<char>, ErrorView>(
                options[next].value,
            )
            &&& after.select_is_regular(key)
        }),
{
    let options = c.select_field(key)->Ok_0.1;
    let len = options.len() as int;
    let next = cycled(index, direction, len);
    lemma_option_index_distinct(options, index);
    lemma_mod_bound(index + direction, len);
    lemma_option_index_distinct(options, next);
    let after = c.cycle_select(key, direction).0;
    assert(after.root == c.root);
}

/// Moving a regular select field `times` times by `direction` options leaves
/// it `direction * times` places further in the cycle.
pub proof fn lemma_cycle_times(
    c: ConfigView,
    key: Seq<char>,
    direction: int,
    times: nat,
    index: int,
)
    requires
        c.select_is_regular(key),
        0 <= index < c.select_field(key)->Ok_0.1.len(),
        c.select_value(key) == Ok::<Seq<char>, ErrorView>(
            c.select_field(key)->Ok_0.1[index].value,
        ),
    ensures
        ({
            let options = c.select_field(key)->Ok_0.1;
            let after = c.cycle_times(key, direction, times);
            let reached = cycled(index, direction * times, options.len() as int);
            &&& 0 <= reached < options.len()
            &&& after.select_field(key) == c.select_field(key)
            &&& after.select_value(key) == Ok::<Seq<char>, ErrorView>(
                options[reached].value,
            )
            &&& after.select_is_regular(key)
        }),
    decreases times,
{
    let options = c.select_field(key)->Ok_0.1;
    let len = options.len() as int;
    if times == 0 {
        assert(direction * 0 == 0) by (nonlinear_arith);
        lemma_small_mod(index as nat, len as nat);
    } else {
        let earlier = (times - 1) as nat;
        lemma_cycle_times(c, key, direction, earlier, index);
        let before = c.cycle_times(key, direction, earlier);
        let at = cycled(index, direction * earlier, len);
        lemma_cycle_step(before, key, direction, at);
        assert(direction * times == direction * earlier + direction) by (nonlinear_arith)
            requires
                earlier == times - 1,
        ;
        lemma_add_mod_noop_right(direction, index + direction * earlier, len);
        assert(cycled(at, direction, len) == cycled(index, direction * times, len));
    }
}

/// Cycling there and back: a select field whose options have distinct values,
/// one of which is its value, is back on its value after it was moved
/// forward any number of times and backward as many times. The settings were
/// written out once for every move that changed a value, and for no other.
pub proof fn lemma_cycle_there_and_back(c: ConfigView, key: Seq<char>, times: nat)
    requires
        c.select_is_regular(key),
    ensures
        c.cycle_times(key, 1, times).cycle_times(key, -1, times).select_value(key)
            == c.select_value(key),
        c.cycle_writes(key, 1, times) == c.cycle_changes(key, 1, times),
        c.cycle_times(key, 1, times).cycle_writes(key, -1, times) == c.cycle_times(
            key,
            1,
            times,
        ).cycle_changes(key, -1, times),
{
    let options = c.select_field(key)->Ok_0.1;
    let len = options.len() as int;
    let value = c.select_value(key)->Ok_0;
    let index = choose|i: int| 0 <= i < options.len() && (#[trigger] options[i]).value == value;
    lemma_cycle_times(c, key, 1, times, index);
    let there = c.cycle_times(key, 1, times);
    let forth: int = times as int;
    let home: int = -(times as int);
    assert(1int * times == forth && (-1int) * times == home) by (nonlinear_arith)
        requires
            forth == times as int,
            home == -(times as int),
    ;
    let reached = cycled(index, forth, len);
    lemma_cycle_times(there, key, -1, times, reached);
    let back = cycled(reached, home, len);
    lemma_add_mod_noop_right(home, index + forth, len);
    assert(back == (index + forth + home) % len);
    assert(forth + home == 0);
    lemma_small_mod(index as nat, len as nat);
    assert(back == index);
    lemma_writes_are_changes(c, key, 1, times);
    lemma_writes_are_changes(there, key, -1, times);
}

/// Of any number of moves of a select field, as many report a change as
/// change a value.
pub proof fn lemma_writes_are_changes(c: ConfigView, key: Seq<char>, direction: int, times: nat)
    ensures
        c.cycle_writes(key, direction, times) == c.cycle_changes(key, direction, times),
    decreases times,
{
    if times > 0 {
        let earlier = (times - 1) as nat;
        lemma_writes_are_changes(c, key, direction, earlier);
        lemma_change_is_reported(
            c.cycle_times(key, direction, earlier),
            key,
            false,
            0,
            Seq::empty(),
            direction,
        );
    }
}

/// Setting a number field to the value it has, where that value lies within
/// the bounds of the field and is rounded to its precision, changes nothing
/// and reports no change.
pub proof fn lemma_set_number_to_own_value(c: ConfigView, key: Seq<char>)
    requires
        c.number_field(key) is Ok,
        settled(c.number_field(key)->Ok_0, c.raw_number(key, c.number_field(key)->Ok_0))
            == c.raw_number(key, c.number_field(key)->Ok_0),
    ensures
        c.set_number(key, c.raw_number(key, c.number_field(key)->Ok_0)) == (
            c,
            Ok::<bool, ErrorView>(false),
        ),
        c.number_value(key) == Ok::<i64, ErrorView>(
            c.raw_number(key, c.number_field(key)->Ok_0),
        ) ==> c.set_number(key, c.number_value(key)->Ok_0).1 == Ok::<
            bool,
            ErrorView,
        >(false),
{
}

} // verus!
