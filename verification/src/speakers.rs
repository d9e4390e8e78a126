//! Custom display names for diarized speakers.

use std::collections::HashMap;
use vstd::prelude::*;
use vstd::string::*;
use crate::text::{decimal, push_signed_decimal};

verus! {

broadcast use vstd::std_specs::hash::group_hash_axioms;

/// The names that the user gave to speaker ids.
pub struct SpeakerNames {
    names: HashMap<i32, String>,
}

/// The label shown for a speaker id: its custom name, or `Speaker` and the id.
pub open spec fn speaker_label(names: Map<i32, Seq<char>>, speaker_id: i32) -> Seq<char> {
    if names.contains_key(speaker_id) {
        names[speaker_id]
    } else {
        "Speaker "@ + decimal(speaker_id as int)
    }
}

impl View for SpeakerNames {
    type V = Map<i32, Seq<char>>;

    closed spec fn view(&self) -> Map<i32, Seq<char>> {
        Map::new(|id: i32| self.names@.contains_key(id), |id: i32| self.names@[id]@)
    }
}

impl SpeakerNames {
    /// No custom names.
    pub fn new() -> (names: Self)
        ensures
            names@ == Map::<i32, Seq<char>>::empty(),
    {
        let names = SpeakerNames { names: HashMap::new() };
        assert(names@ =~= Map::<i32, Seq<char>>::empty());
        names
    }

    /// The display name for a speaker id.
    pub fn get_speaker_name(&self, speaker_id: i32) -> (name: String)
        ensures
            name@ == speaker_label(self@, speaker_id),
    {
        match self.names.get(&speaker_id) {
            Some(name) => name.clone(),
            None => {
                let mut name = String::from_str("Speaker ");
                push_signed_decimal(&mut name, speaker_id as i64);
                name
            },
        }
    }

    /// Sets the custom name of a speaker id.
    pub fn set_speaker_name(&mut self, speaker_id: i32, name: String)
        ensures
            final(self)@ == old(self)@.insert(speaker_id, name@),
    {
        self.names.insert(speaker_id, name);
        assert(self@ =~= old(self)@.insert(speaker_id, name@));
    }

    /// Whether a speaker id has a custom name.
    pub fn has_custom_name(&self, speaker_id: i32) -> (custom: bool)
        ensures
            custom == self@.contains_key(speaker_id),
    {
        self.names.contains_key(&speaker_id)
    }
}

} // verus!
