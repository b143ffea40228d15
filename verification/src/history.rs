//! The log of the lines a user has entered.
//!
//! A line is appended unless it repeats the line just before it, so the log
//! never holds the same line twice in a row.

use vstd::prelude::*;

verus! {

/// A list of strings as a sequence of character sequences.
pub open spec fn lines_of(strings: Seq<String>) -> Seq<Seq<char>> {
    strings.map_values(|s: String| s@)
}

/// No entry equals the entry right after it.
pub open spec fn no_adjacent_repeats(entries: Seq<Seq<char>>) -> bool {
    forall|i: int| 0 <= i < entries.len() - 1 ==> #[trigger] entries[i] != entries[i + 1]
}

/// The log after `line` was submitted: `line` is appended unless the log is
/// non-empty and ends with it.
pub open spec fn recorded(entries: Seq<Seq<char>>, line: Seq<char>) -> Seq<Seq<char>> {
    if entries.len() > 0 && entries.last() == line {
        entries
    } else {
        entries.push(line)
    }
}

/// The log after each of `lines` was submitted in turn.
pub open spec fn recorded_all(entries: Seq<Seq<char>>, lines: Seq<Seq<char>>) -> Seq<Seq<char>>
    decreases lines.len(),
{
    if lines.len() == 0 {
        entries
    } else {
        recorded(recorded_all(entries, lines.drop_last()), lines.last())
    }
}

/// Submitting a line keeps a log free of adjacent repeats.
pub proof fn lemma_recorded_keeps_order(entries: Seq<Seq<char>>, line: Seq<char>)
    requires
        no_adjacent_repeats(entries),
    ensures
        no_adjacent_repeats(recorded(entries, line)),
{
}

/// The log only grows: what was recorded stays, in its place, and one
/// submission adds at most one entry.
pub proof fn lemma_recorded_only_grows(entries: Seq<Seq<char>>, line: Seq<char>)
    ensures
        entries.len() <= recorded(entries, line).len() <= entries.len() + 1,
        recorded(entries, line).take(entries.len() as int) == entries,
        recorded(entries, line).last() == line,
{
    assert(recorded(entries, line).take(entries.len() as int) =~= entries);
}

/// Whatever lines are submitted to an empty log, and in whatever order, the
/// log never holds two equal entries next to each other.
pub proof fn lemma_history_never_repeats(lines: Seq<Seq<char>>)
    ensures
        no_adjacent_repeats(recorded_all(Seq::empty(), lines)),
    decreases lines.len(),
{
    if lines.len() > 0 {
        lemma_history_never_repeats(lines.drop_last());
        lemma_recorded_keeps_order(recorded_all(Seq::empty(), lines.drop_last()), lines.last());
    }
}

/// The command history: the entered lines, oldest first, and the position of
/// the line editor's cursor while the user browses them.
pub struct HistoryLog {
    entries: Vec<String>,
    cursor: usize,
}

impl View for HistoryLog {
    type V = Seq<Seq<char>>;

    closed spec fn view(&self) -> Seq<Seq<char>> {
        lines_of(self.entries@)
    }
}

impl HistoryLog {
    #[verifier::type_invariant]
    spec fn well_formed(self) -> bool {
        no_adjacent_repeats(self@)
    }

    /// Where the line editor's cursor stands; zero when the user is not
    /// browsing.
    pub closed spec fn cursor_position(&self) -> usize {
        self.cursor
    }

    /// An empty log with the cursor at rest.
    pub fn new() -> (log: HistoryLog)
        ensures
            log@ == Seq::<Seq<char>>::empty(),
            log.cursor_position() == 0,
    {
        let log = HistoryLog { entries: Vec::new(), cursor: 0 };
        assert(log@ =~= Seq::<Seq<char>>::empty());
        log
    }

    /// Appends `line` unless the log is non-empty and its last entry equals
    /// `line`.  The cursor stays where it is.
    pub fn record(&mut self, line: String)
        ensures
            final(self)@ == recorded(old(self)@, line@),
            no_adjacent_repeats(final(self)@),
            final(self).cursor_position() == old(self).cursor_position(),
    {
        proof {
            use_type_invariant(&*self);
        }
        let n = self.entries.len();
        let repeats = n > 0 && self.entries[n - 1] == line;
        assert(repeats == (self@.len() > 0 && self@.last() == line@));
        if !repeats {
            let ghost before = self.entries@;
            let mut entries: Vec<String> = Vec::new();
            assert(lines_of(entries@) =~= Seq::<Seq<char>>::empty());
            core::mem::swap(&mut self.entries, &mut entries);
            entries.push(line);
            assert(lines_of(entries@) =~= lines_of(before).push(line@));
            core::mem::swap(&mut self.entries, &mut entries);
        }
    }

    /// Puts the cursor back to rest, as at the start of every new submission.
    pub fn reset_cursor(&mut self)
        ensures
            final(self)@ == old(self)@,
            no_adjacent_repeats(final(self)@),
            final(self).cursor_position() == 0,
    {
        proof {
            use_type_invariant(&*self);
        }
        self.cursor = 0;
    }

    /// Moves the cursor, for the line editor.
    pub fn set_cursor(&mut self, position: usize)
        ensures
            final(self)@ == old(self)@,
            no_adjacent_repeats(final(self)@),
            final(self).cursor_position() == position,
    {
        proof {
            use_type_invariant(&*self);
        }
        self.cursor = position;
    }

    /// Where the cursor stands.
    pub fn cursor(&self) -> (position: usize)
        ensures
            position == self.cursor_position(),
    {
        self.cursor
    }

    /// The recorded lines in insertion order, oldest first.
    pub fn all(&self) -> (lines: &Vec<String>)
        ensures
            lines_of(lines@) == self@,
            no_adjacent_repeats(self@),
    {
        proof {
            use_type_invariant(self);
        }
        &self.entries
    }

    /// How many lines are recorded.
    pub fn len(&self) -> (n: usize)
        ensures
            n == self@.len(),
            no_adjacent_repeats(self@),
    {
        proof {
            use_type_invariant(self);
        }
        self.entries.len()
    }
}

} // verus!
