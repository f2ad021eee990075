//! What a scan tells its user: a few lines before each entry, and one line for
//! each entry that contributed nothing.

use crate::engine::EntryOutcome;
use crate::status::PollOutcome;
use crate::text::{decimal, decimal_text};
use crate::transmitter::TransponderEntry;
use vstd::prelude::*;
use vstd::string::*;

verus! {

/// The views of a sequence of texts, element by element.
pub open spec fn text_views(texts: Seq<String>) -> Seq<Seq<char>> {
    Seq::new(texts.len(), |i: int| texts[i]@)
}

/// The line for one known property of a channel; none where the property is
/// not known.
pub open spec fn known_line(title: Seq<char>, known: Option<String>) -> Seq<Seq<char>> {
    match known {
        Some(text) => seq![title + text@],
        None => Seq::empty(),
    }
}

/// The lines that announce an entry: its place in the scan, counted from one,
/// and its frequency, then the channel name, number and location as far as
/// they are known.
pub open spec fn announcement_lines(entry: TransponderEntry, ordinal: nat) -> Seq<Seq<char>> {
    seq![
        "\nScanning frequency #"@ + decimal(ordinal) + " "@ + decimal(
            entry.parameters.spec_frequency() as nat,
        ),
    ] + known_line("Channel name: "@, entry.known_channel_name) + known_line(
        "Channel number: "@,
        entry.known_virtual_channel,
    ) + known_line("Channel location: "@, entry.known_location)
}

/// Appends the line for one known property, if it is known.
fn push_known_line(lines: &mut Vec<String>, title: &str, known: &Option<String>)
    ensures
        text_views(final(lines)@) == text_views(old(lines)@) + known_line(title@, *known),
{
    match known {
        Some(text) => {
            let mut line = String::from_str(title);
            line.append(text.as_str());
            lines.push(line);
            assert(text_views(lines@) == text_views(old(lines)@) + seq![title@ + text@]);
        },
        None => {
            assert(text_views(lines@) == text_views(old(lines)@) + Seq::<Seq<char>>::empty());
        },
    }
}

impl TransponderEntry {
    /// Writes the lines that announce this entry as number `ordinal` of the
    /// scan.
    pub fn announcement(&self, ordinal: u64) -> (lines: Vec<String>)
        ensures
            text_views(lines@) == announcement_lines(*self, ordinal as nat),
    {
        let mut head = String::from_str("\nScanning frequency #");
        let number = decimal_text(ordinal);
        head.append(number.as_str());
        head.append(" ");
        let frequency = decimal_text(self.parameters.frequency() as u64);
        head.append(frequency.as_str());
        let mut lines: Vec<String> = Vec::new();
        lines.push(head);
        assert(text_views(lines@) == seq![
            "\nScanning frequency #"@ + decimal(ordinal as nat) + " "@ + decimal(
                self.parameters.spec_frequency() as nat,
            ),
        ]);
        push_known_line(&mut lines, "Channel name: ", &self.known_channel_name);
        push_known_line(&mut lines, "Channel number: ", &self.known_virtual_channel);
        push_known_line(&mut lines, "Channel location: ", &self.known_location);
        lines
    }
}

impl EntryOutcome {
    /// Whether the entry failed to tune or to lock.
    pub open spec fn spec_is_skipped(&self) -> bool {
        *self is FailedSkipped
    }

    /// Whether the entry failed to tune or to lock.
    #[verifier::when_used_as_spec(spec_is_skipped)]
    pub fn is_skipped(&self) -> (skipped: bool)
        ensures
            skipped == self.spec_is_skipped(),
    {
        match self {
            EntryOutcome::FailedSkipped(_) => true,
            _ => false,
        }
    }

    /// The line that reports an entry which contributed nothing because it
    /// failed; none for an entry that was harvested, that locked with
    /// harvesting switched off, or that was cut short by an abort.
    pub open spec fn spec_diagnostic(&self) -> Option<Seq<char>> {
        match *self {
            EntryOutcome::FailedSkipped(_) => Some("Failed to initialise scan handler."@),
            EntryOutcome::HarvestFailed(_) => Some("Failed to store some channels."@),
            _ => None,
        }
    }

    /// The line that reports a failed entry.
    pub fn diagnostic(&self) -> (line: Option<&'static str>)
        ensures
            match line {
                Some(text) => self.spec_diagnostic() == Some(text@),
                None => self.spec_diagnostic().is_none(),
            },
    {
        match self {
            EntryOutcome::FailedSkipped(_) => Some("Failed to initialise scan handler."),
            EntryOutcome::HarvestFailed(_) => Some("Failed to store some channels."),
            _ => None,
        }
    }
}

impl PollOutcome {
    /// The line that reports an attempt which read no status; none for an
    /// attempt that read one.
    pub open spec fn spec_diagnostic(&self) -> Option<Seq<char>> {
        match *self {
            PollOutcome::RefreshFailed => Some("dvb_fe_get_stats failed."@),
            PollOutcome::StatusUnavailable => Some("dvb_fe_retrieve_stats of DTV_STATUS failed."@),
            PollOutcome::Sampled { .. } => None,
        }
    }

    /// The line that reports an attempt which read no status.
    pub fn diagnostic(&self) -> (line: Option<&'static str>)
        ensures
            match line {
                Some(text) => self.spec_diagnostic() == Some(text@),
                None => self.spec_diagnostic().is_none(),
            },
    {
        match self {
            PollOutcome::RefreshFailed => Some("dvb_fe_get_stats failed."),
            PollOutcome::StatusUnavailable => Some("dvb_fe_retrieve_stats of DTV_STATUS failed."),
            PollOutcome::Sampled { .. } => None,
        }
    }
}

/// How many of the outcomes are of entries that failed to tune or to lock.
pub open spec fn skipped_among(outcomes: Seq<EntryOutcome>) -> nat
    decreases outcomes.len(),
{
    if outcomes.len() == 0 {
        0
    } else if outcomes.last().spec_is_skipped() {
        skipped_among(outcomes.drop_last()) + 1
    } else {
        skipped_among(outcomes.drop_last())
    }
}

/// Counts the entries that failed to tune or to lock.
pub fn count_skipped(outcomes: &Vec<EntryOutcome>) -> (skipped: usize)
    ensures
        skipped == skipped_among(outcomes@),
{
    let mut skipped: usize = 0;
    let mut i: usize = 0;
    while i < outcomes.len()
        invariant
            i <= outcomes.len(),
            skipped == skipped_among(outcomes@.take(i as int)),
            skipped <= i,
        decreases outcomes.len() - i,
    {
        assert(outcomes@.take(i + 1).drop_last() == outcomes@.take(i as int));
        if outcomes[i].is_skipped() {
            skipped += 1;
        }
        i += 1;
    }
    assert(outcomes@.take(i as int) == outcomes@);
    skipped
}

} // verus!
