//! The message log: the ordered record of what was sent and received.

use vstd::prelude::*;

verus! {

/// Who wrote a chat entry.
#[derive(Debug, Clone, Copy, PartialEq, Eq, Structural)]
pub enum Author {
    /// The operator at the keyboard.
    Operator,
    /// The peer at the other end of the connection.
    Peer,
}

/// One line of the conversation.
#[derive(Debug, PartialEq, Eq)]
pub struct ChatEntry {
    pub author: Author,
    pub content: String,
}

/// A chat entry as a mathematical value.
pub struct Entry {
    pub author: Author,
    pub content: Seq<char>,
}

impl View for ChatEntry {
    type V = Entry;

    open spec fn view(&self) -> Entry {
        Entry { author: self.author, content: self.content@ }
    }
}

impl ChatEntry {
    /// An entry for a text that the operator sent.
    pub fn operator(content: String) -> (entry: ChatEntry)
        ensures
            entry@ == (Entry { author: Author::Operator, content: content@ }),
    {
        ChatEntry { author: Author::Operator, content }
    }

    /// An entry for a text that the peer sent.
    pub fn peer(content: String) -> (entry: ChatEntry)
        ensures
            entry@ == (Entry { author: Author::Peer, content: content@ }),
    {
        ChatEntry { author: Author::Peer, content }
    }
}

impl Clone for ChatEntry {
    fn clone(&self) -> (copy: Self)
        ensures
            copy == *self,
    {
        ChatEntry { author: self.author, content: self.content.clone() }
    }
}

/// The entries of a sequence of chat entries, in the same order.
pub open spec fn entries_of(entries: Seq<ChatEntry>) -> Seq<Entry> {
    entries.map_values(|entry: ChatEntry| entry@)
}

/// The ordered, append-only record of the conversation.
///
/// The log grows at its end and never reorders or edits what it holds; the
/// only way to shrink it is to clear it.
#[derive(Debug)]
pub struct MessageLog {
    entries: Vec<ChatEntry>,
}

impl View for MessageLog {
    type V = Seq<Entry>;

    closed spec fn view(&self) -> Seq<Entry> {
        entries_of(self.entries@)
    }
}

impl MessageLog {
    /// A log without entries.
    pub fn new() -> (log: MessageLog)
        ensures
            log@ == Seq::<Entry>::empty(),
    {
        MessageLog { entries: Vec::new() }
    }

    /// The number of entries.
    pub fn len(&self) -> (n: usize)
        ensures
            n == self@.len(),
    {
        self.entries.len()
    }

    /// Whether the log holds no entry.
    pub fn is_empty(&self) -> (empty: bool)
        ensures
            empty == (self@.len() == 0),
    {
        self.entries.len() == 0
    }

    /// Adds an entry after all entries that the log holds.
    pub fn append(&mut self, entry: ChatEntry)
        ensures
            final(self)@ == old(self)@.push(entry@),
    {
        self.entries.push(entry);
    }

    /// Removes every entry.
    pub fn clear(&mut self)
        ensures
            final(self)@ == Seq::<Entry>::empty(),
    {
        self.entries.clear();
    }

    /// A copy of the entries, oldest first.
    pub fn snapshot(&self) -> (entries: Vec<ChatEntry>)
        ensures
            entries_of(entries@) == self@,
    {
        let entries = self.entries.clone();
        assert(entries@ =~= self.entries@);
        entries
    }
}

/// The entries of `log` written by `author`, in the order of the log.
pub open spec fn authored_by(log: Seq<Entry>, author: Author) -> Seq<Entry> {
    log.filter(|entry: Entry| entry.author == author)
}

/// Whether every entry of `entries` was written by `author`.
pub open spec fn all_authored_by(entries: Seq<Entry>, author: Author) -> bool {
    forall|i: int| 0 <= i < entries.len() ==> (#[trigger] entries[i]).author == author
}

/// The log after `calls` were appended to `log` one after the other.
pub open spec fn after_appends(log: Seq<Entry>, calls: Seq<Entry>) -> Seq<Entry>
    decreases calls.len(),
{
    if calls.len() == 0 {
        log
    } else {
        after_appends(log, calls.drop_last()).push(calls.last())
    }
}

/// Whether `merged` is `left` and `right` shuffled together, each in its own
/// order.
pub open spec fn interleaves(merged: Seq<Entry>, left: Seq<Entry>, right: Seq<Entry>) -> bool
    decreases merged.len(),
{
    if merged.len() == 0 {
        left.len() == 0 && right.len() == 0
    } else {
        ||| (left.len() > 0 && left.last() == merged.last() && interleaves(
            merged.drop_last(),
            left.drop_last(),
            right,
        ))
        ||| (right.len() > 0 && right.last() == merged.last() && interleaves(
            merged.drop_last(),
            left,
            right.drop_last(),
        ))
    }
}

/// Appending one entry extends the entries of its author by that entry and
/// leaves those of the other author as they were.
pub proof fn lemma_append_authored_by(log: Seq<Entry>, entry: Entry, author: Author)
    ensures
        authored_by(log.push(entry), author) == if entry.author == author {
            authored_by(log, author).push(entry)
        } else {
            authored_by(log, author)
        },
{
    reveal(Seq::filter);
    assert(log.push(entry).drop_last() =~= log);
    assert(log.push(entry).last() == entry);
}

/// A run of appends adds the appended entries at the end of the log, in the
/// order of the calls.
pub proof fn lemma_after_appends(log: Seq<Entry>, calls: Seq<Entry>)
    ensures
        after_appends(log, calls) == log + calls,
    decreases calls.len(),
{
    if calls.len() == 0 {
        assert(log + calls =~= log);
    } else {
        lemma_after_appends(log, calls.drop_last());
        assert((log + calls.drop_last()).push(calls.last()) =~= log + calls);
    }
}

/// The entries of the two authors, selected from any shuffle of two
/// sequences that each have one author, are those sequences.
proof fn lemma_interleaving_selects(merged: Seq<Entry>, ours: Seq<Entry>, theirs: Seq<Entry>)
    requires
        all_authored_by(ours, Author::Operator),
        all_authored_by(theirs, Author::Peer),
        interleaves(merged, ours, theirs),
    ensures
        authored_by(merged, Author::Operator) == ours,
        authored_by(merged, Author::Peer) == theirs,
    decreases merged.len(),
{
    reveal(Seq::filter);
    if merged.len() == 0 {
        assert(ours =~= Seq::<Entry>::empty());
        assert(theirs =~= Seq::<Entry>::empty());
    } else {
        let last = merged.last();
        let rest = merged.drop_last();
        if ours.len() > 0 && ours.last() == last && interleaves(rest, ours.drop_last(), theirs) {
            lemma_interleaving_selects(rest, ours.drop_last(), theirs);
            assert(ours.drop_last().push(last) =~= ours);
        } else {
            lemma_interleaving_selects(rest, ours, theirs.drop_last());
            assert(theirs.drop_last().push(last) =~= theirs);
        }
    }
}

/// Appends from the operator and from the peer, interleaved in any way, keep
/// the order of each source.
///
/// Let `ours` be the operator's appends and `theirs` the peer's, each in the
/// order of its calls, and let `merged` be any order in which the log took
/// them. Then the operator's entries of the resulting log are those it held
/// before followed by `ours`, and the peer's are those it held before
/// followed by `theirs`.
pub proof fn lemma_appends_keep_source_order(
    log: Seq<Entry>,
    ours: Seq<Entry>,
    theirs: Seq<Entry>,
    merged: Seq<Entry>,
)
    requires
        all_authored_by(ours, Author::Operator),
        all_authored_by(theirs, Author::Peer),
        interleaves(merged, ours, theirs),
    ensures
        authored_by(after_appends(log, merged), Author::Operator) == authored_by(
            log,
            Author::Operator,
        ) + ours,
        authored_by(after_appends(log, merged), Author::Peer) == authored_by(log, Author::Peer)
            + theirs,
{
    lemma_after_appends(log, merged);
    lemma_interleaving_selects(merged, ours, theirs);
    Seq::filter_distributes_over_add(log, merged, |entry: Entry| entry.author == Author::Operator);
    Seq::filter_distributes_over_add(log, merged, |entry: Entry| entry.author == Author::Peer);
}

} // verus!
