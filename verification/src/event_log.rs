//! The event log: the latest outcomes in words, newest first.

use crate::text::{
    is_white_space, joined, law_trimmed_text_is_tight, lemma_joined_step, trim, trimmed,
};
use std::collections::VecDeque;
use vstd::prelude::*;

verus! {

/// How many entries the log shows.
pub const VISIBLE_ENTRIES: usize = 5;

/// The entries that are shown: the first `VISIBLE_ENTRIES` of `entries`, or
/// all of them where there are fewer.
pub open spec fn visible(entries: Seq<Seq<char>>) -> Seq<Seq<char>> {
    if entries.len() <= VISIBLE_ENTRIES {
        entries
    } else {
        entries.take(VISIBLE_ENTRIES as int)
    }
}

/// The text that stands for `entries`: the visible ones, one per line, without
/// white space at either end of the whole.
pub open spec fn rendered(entries: Seq<Seq<char>>) -> Seq<char> {
    trimmed(joined(visible(entries)))
}

/// A record of what happened, for people to read. Nothing decides by it.
#[derive(Debug)]
pub struct EventLog {
    entries: VecDeque<String>,
}

impl View for EventLog {
    type V = Seq<Seq<char>>;

    /// The entries, newest first.
    closed spec fn view(&self) -> Seq<Seq<char>> {
        self.entries.deep_view()
    }
}

impl EventLog {
    /// An empty log.
    pub fn new() -> (log: EventLog)
        ensures
            log@ == Seq::<Seq<char>>::empty(),
    {
        let log = EventLog { entries: VecDeque::new() };
        assert(log@ =~= Seq::<Seq<char>>::empty());
        log
    }

    /// How many entries the log holds.
    pub fn len(&self) -> (n: usize)
        ensures
            n == self@.len(),
    {
        self.entries.len()
    }

    /// The entry at `i`, counted from the newest.
    pub fn line(&self, i: usize) -> (line: &str)
        requires
            i < self@.len(),
        ensures
            line@ == self@[i as int],
    {
        self.entries[i].as_str()
    }

    /// Puts `line` in front of the entries.
    pub fn push(&mut self, line: String)
        ensures
            final(self)@ == seq![line@] + old(self)@,
    {
        self.entries.push_front(line);
        assert(self@ =~= seq![line@] + old(self)@);
    }

    /// Keeps the value of a success. Records the line of a failure and keeps
    /// nothing.
    pub fn log_err<T>(&mut self, res: Result<T, String>) -> (kept: Option<T>)
        ensures
            match res {
                Ok(value) => kept == Some(value) && final(self)@ == old(self)@,
                Err(line) => kept is None && final(self)@ == seq![line@] + old(self)@,
            },
    {
        match res {
            Ok(value) => Some(value),
            Err(line) => {
                self.push(line);
                None
            },
        }
    }

    /// Hands on the value of a success. Records the line of a failure and
    /// hands on `fallback` in its place.
    pub fn log_err_or<T>(&mut self, res: Result<T, String>, fallback: T) -> (kept: T)
        ensures
            match res {
                Ok(value) => kept == value && final(self)@ == old(self)@,
                Err(line) => kept == fallback && final(self)@ == seq![line@] + old(self)@,
            },
    {
        match res {
            Ok(value) => value,
            Err(line) => {
                self.push(line);
                fallback
            },
        }
    }

    /// Drops all but the visible entries and returns the text that stands for
    /// them.
    pub fn render(&mut self) -> (text: String)
        ensures
            final(self)@ == visible(old(self)@),
            text@ == rendered(old(self)@),
    {
        self.entries.truncate(VISIBLE_ENTRIES);
        assert(self@ =~= visible(old(self)@));
        let n: usize = self.entries.len();
        let mut acc = String::new();
        let mut i: usize = 0;
        while i < n
            invariant
                i <= n,
                n == self.entries@.len(),
                n == self@.len(),
                acc@ == joined(self@.take(i as int)),
            decreases n - i,
        {
            proof {
                lemma_joined_step(self@, i as int);
            }
            if i > 0 {
                acc.append("\n");
            }
            acc.append(self.entries[i].as_str());
            i = i + 1;
        }
        assert(self@.take(n as int) =~= self@);
        trim(acc.as_str())
    }
}

/// The entries after each line of `lines` has been put in front of `entries`,
/// the first line first.
pub open spec fn after_pushes(entries: Seq<Seq<char>>, lines: Seq<Seq<char>>) -> Seq<Seq<char>>
    decreases lines.len(),
{
    if lines.len() == 0 {
        entries
    } else {
        seq![lines.last()] + after_pushes(entries, lines.drop_last())
    }
}

/// After the lines of `lines` were recorded one by one, the log begins with
/// them in reverse order.
pub proof fn lemma_after_pushes(entries: Seq<Seq<char>>, lines: Seq<Seq<char>>)
    ensures
        after_pushes(entries, lines).len() == lines.len() + entries.len(),
        forall|i: int|
            0 <= i < lines.len() ==> #[trigger] after_pushes(entries, lines)[i] == lines[lines.len()
                - 1 - i],
        forall|i: int|
            lines.len() <= i < lines.len() + entries.len() ==> #[trigger] after_pushes(
                entries,
                lines,
            )[i] == entries[i - lines.len()],
    decreases lines.len(),
{
    if lines.len() > 0 {
        lemma_after_pushes(entries, lines.drop_last());
    }
}

/// Once more lines were recorded than the log shows, whatever it held
/// before, it shows exactly the latest `VISIBLE_ENTRIES` of them, the newest
/// first. Its text is those lines, one per line, and neither begins nor
/// ends with white space.
pub proof fn law_log_shows_latest_entries(entries: Seq<Seq<char>>, lines: Seq<Seq<char>>)
    requires
        lines.len() > VISIBLE_ENTRIES,
    ensures
        visible(after_pushes(entries, lines)) == Seq::new(
            VISIBLE_ENTRIES as nat,
            |i: int| lines[lines.len() - 1 - i],
        ),
        rendered(after_pushes(entries, lines)) == trimmed(
            joined(Seq::new(VISIBLE_ENTRIES as nat, |i: int| lines[lines.len() - 1 - i])),
        ),
        rendered(after_pushes(entries, lines)).len() > 0 ==> !is_white_space(
            rendered(after_pushes(entries, lines)).first(),
        ) && !is_white_space(rendered(after_pushes(entries, lines)).last()),
{
    lemma_after_pushes(entries, lines);
    law_trimmed_text_is_tight(joined(visible(after_pushes(entries, lines))));
    assert(visible(after_pushes(entries, lines)) =~= Seq::new(
        VISIBLE_ENTRIES as nat,
        |i: int| lines[lines.len() - 1 - i],
    ));
}

/// A new line in a log that shows as many entries as it can pushes the
/// oldest of them out: the log then shows the new line and, after it, all
/// but the last of what it showed before.
pub proof fn law_new_entry_pushes_the_oldest_out(entries: Seq<Seq<char>>, line: Seq<char>)
    requires
        entries.len() >= VISIBLE_ENTRIES,
    ensures
        visible(seq![line] + entries) == seq![line] + visible(entries).drop_last(),
        rendered(seq![line] + entries) == trimmed(
            joined(seq![line] + visible(entries).drop_last()),
        ),
{
    assert(visible(seq![line] + entries) =~= seq![line] + visible(entries).drop_last());
}

} // verus!
