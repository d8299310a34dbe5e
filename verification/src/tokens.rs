//! The token stream runtime: an indexable, cursor-based view over a fixed
//! sequence of concrete tokens, with checkpoint/restore for backtracking.

use vstd::prelude::*;

verus! {

/// A location in the source text that a concrete token was read from.
#[derive(Debug, Clone, PartialEq, Eq)]
pub struct Position {
    pub location: String,
    pub line: u64,
    pub column: u64,
}

/// A concrete token of the target input: a kind name from the declared
/// token alphabet, an optional payload value, and its source range.
#[derive(Debug, Clone, PartialEq, Eq)]
pub struct Token {
    pub kind: String,
    pub payload: Option<String>,
    pub start: Position,
    pub end: Position,
}

/// An ordered, fixed sequence of concrete tokens plus a mutable cursor.
/// A cursor equal to the length means end-of-stream; no operation moves
/// the cursor past the length.
#[derive(Debug, Clone)]
pub struct List {
    pub tokens: Vec<Token>,
    pub index: usize,
}

impl List {
    /// An empty stream with the cursor at the start.
    pub fn new() -> (r: List)
        ensures
            r.tokens@ == Seq::<Token>::empty(),
            r.index == 0,
    {
        List { tokens: Vec::new(), index: 0 }
    }

    /// Appends one token at the back; the cursor stays where it was.
    pub fn push(&mut self, token: Token)
        ensures
            final(self).tokens@ == old(self).tokens@.push(token),
            final(self).index == old(self).index,
    {
        self.tokens.push(token);
    }

    /// The number of tokens in the stream.
    pub fn len(&self) -> (r: usize)
        ensures
            r == self.tokens@.len(),
    {
        self.tokens.len()
    }

    /// True exactly when the cursor is at end-of-stream.
    pub fn end(&self) -> (r: bool)
        ensures
            r == (self.index >= self.tokens@.len()),
    {
        self.index >= self.tokens.len()
    }

    /// Moves the cursor back to the start of the stream.
    pub fn reset(&mut self)
        ensures
            final(self).index == 0,
            final(self).tokens@ == old(self).tokens@,
    {
        self.set_index(0);
    }

    /// Advances the cursor by one (stopping at end-of-stream) and returns
    /// the token now under it, if any.
    pub fn next(&mut self) -> (r: Option<&Token>)
        ensures
            final(self).tokens@ == old(self).tokens@,
            old(self).index < old(self).tokens@.len() ==> final(self).index == old(self).index + 1,
            old(self).index >= old(self).tokens@.len() ==> final(self).index == old(self).index,
            final(self).index < final(self).tokens@.len() ==> (r matches Some(t)
                && *t == final(self).tokens@[final(self).index as int]),
            final(self).index >= final(self).tokens@.len() ==> r is None,
    {
        if self.index < self.tokens.len() {
            self.index = self.index + 1;
        }
        self.get()
    }

    /// The token under the cursor, or `None` at end-of-stream.
    pub fn get(&self) -> (r: Option<&Token>)
        ensures
            self.index < self.tokens@.len() ==> (r matches Some(t)
                && *t == self.tokens@[self.index as int]),
            self.index >= self.tokens@.len() ==> r is None,
    {
        if self.index < self.tokens.len() {
            Some(&self.tokens[self.index])
        } else {
            None
        }
    }

    /// Places the cursor at an arbitrary in-range index.
    pub fn set_index(&mut self, index: usize)
        requires
            index <= old(self).tokens@.len(),
        ensures
            final(self).index == index,
            final(self).tokens@ == old(self).tokens@,
    {
        self.index = index;
    }

    /// Captures the current cursor as an independent, opaque value.
    pub fn snapshot(&self) -> (s: ListSnapshot)
        ensures
            s.index == self.index,
    {
        ListSnapshot::new(self.index)
    }
}

/// A captured cursor position. Snapshots are independent values: restoring
/// one never affects another, in whatever order they are restored.
#[derive(Debug, Clone, Copy, PartialEq, Eq)]
pub struct ListSnapshot {
    pub index: usize,
}

impl ListSnapshot {
    pub fn new(index: usize) -> (s: ListSnapshot)
        ensures
            s.index == index,
    {
        ListSnapshot { index }
    }

    /// Sets the stream's cursor back to the captured position.
    pub fn restore(&self, list: &mut List)
        requires
            self.index <= old(list).tokens@.len(),
        ensures
            final(list).index == self.index,
            final(list).tokens@ == old(list).tokens@,
    {
        list.set_index(self.index);
    }
}

} // verus!
