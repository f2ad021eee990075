//! The input list of transponders to try.

use crate::params::DeliverySystemParameters;
use vstd::prelude::*;

verus! {

/// One row of a transmitter list: how to tune a transponder, and what is
/// already known of the channel there.
#[derive(Debug, PartialEq, Eq)]
pub struct TransponderEntry {
    pub parameters: DeliverySystemParameters,
    pub known_channel_name: Option<String>,
    pub known_virtual_channel: Option<String>,
    pub known_location: Option<String>,
}

/// A copy of an optional text.
fn copy_text(text: &Option<String>) -> (copy: Option<String>)
    ensures
        copy == *text,
{
    match text {
        Some(value) => Some(value.clone()),
        None => None,
    }
}

impl Clone for TransponderEntry {
    fn clone(&self) -> (copy: Self)
        ensures
            copy == *self,
    {
        TransponderEntry {
            parameters: self.parameters,
            known_channel_name: copy_text(&self.known_channel_name),
            known_virtual_channel: copy_text(&self.known_virtual_channel),
            known_location: copy_text(&self.known_location),
        }
    }
}

impl TransponderEntry {
    /// The entry for a transponder of which only the parameters are known.
    pub open spec fn spec_bare(parameters: DeliverySystemParameters) -> TransponderEntry {
        TransponderEntry {
            parameters,
            known_channel_name: None,
            known_virtual_channel: None,
            known_location: None,
        }
    }

    /// The entry for a transponder of which only the parameters are known.
    #[verifier::when_used_as_spec(spec_bare)]
    pub fn bare(parameters: DeliverySystemParameters) -> (entry: TransponderEntry)
        ensures
            entry == Self::spec_bare(parameters),
    {
        TransponderEntry {
            parameters,
            known_channel_name: None,
            known_virtual_channel: None,
            known_location: None,
        }
    }
}

/// The transponders of one transmitter, in the order in which they are to be
/// scanned.
#[derive(Debug, PartialEq, Eq)]
pub struct TransmitterData {
    entries: Vec<TransponderEntry>,
}

impl View for TransmitterData {
    type V = Seq<TransponderEntry>;

    closed spec fn view(&self) -> Seq<TransponderEntry> {
        self.entries@
    }
}

impl TransmitterData {
    /// Takes the entries in the order given.
    pub fn new(entries: Vec<TransponderEntry>) -> (data: TransmitterData)
        ensures
            data@ == entries@,
    {
        TransmitterData { entries }
    }

    /// The number of entries.
    pub fn len(&self) -> (n: usize)
        ensures
            n == self@.len(),
    {
        self.entries.len()
    }

    /// Whether there is no entry.
    pub fn is_empty(&self) -> (none: bool)
        ensures
            none == (self@.len() == 0),
    {
        self.entries.len() == 0
    }

    /// The entry at position `index`, if there is one.
    pub fn get(&self, index: usize) -> (found: Option<&TransponderEntry>)
        ensures
            index < self@.len() ==> found == Some(&self@[index as int]),
            index >= self@.len() ==> found.is_none(),
    {
        if index < self.entries.len() {
            Some(&self.entries[index])
        } else {
            None
        }
    }

    /// A copy of the entries, in scan order.
    pub fn entries(&self) -> (copy: Vec<TransponderEntry>)
        ensures
            copy@ == self@,
    {
        let mut copy: Vec<TransponderEntry> = Vec::new();
        let mut i: usize = 0;
        while i < self.entries.len()
            invariant
                i <= self.entries.len(),
                copy@ == self.entries@.take(i as int),
            decreases self.entries.len() - i,
        {
            copy.push(self.entries[i].clone());
            assert(copy@ == self.entries@.take(i + 1));
            i += 1;
        }
        assert(self.entries@.take(i as int) == self.entries@);
        copy
    }
}

} // verus!
