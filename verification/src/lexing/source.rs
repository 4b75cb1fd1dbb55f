//! The character source: the same peek/read/discard capability as the
//! token buffer, but over a fully materialized in-memory sequence and a
//! read cursor. No concurrency backs it, so every operation is a pure
//! function of the content and the cursor.

use vstd::prelude::*;

verus! {

/// The abstract state of a `Source`: its characters and its read cursor.
#[verifier::ext_equal]
pub ghost struct SourceView {
    pub content: Seq<char>,
    pub position: int,
}

/// A character source loaded entirely into memory, with a read cursor.
pub struct Source {
    content: Vec<char>,
    pub position: usize,
}

impl View for Source {
    type V = SourceView;

    closed spec fn view(&self) -> SourceView {
        SourceView { content: self.content@, position: self.position as int }
    }
}

impl Source {
    /// Wraps a materialized character sequence, with the cursor at its
    /// start.
    pub fn from(content: Vec<char>) -> (r: Source)
        ensures
            r@.content == content@,
            r@.position == 0,
    {
        Source { content, position: 0 }
    }

    /// Returns the next `n` characters without moving the cursor, or
    /// nothing when fewer than `n` remain.
    pub fn peek_many(&self, n: usize) -> (r: Option<Vec<char>>)
        ensures
            self@.position + n <= self@.content.len() ==> (r matches Some(chars) && chars@
                == self@.content.subrange(self@.position, self@.position + n)),
            self@.position + n > self@.content.len() ==> r is None,
    {
        let source_len = self.content.len();
        match self.position.checked_add(n) {
            Some(end) => {
                if source_len < end {
                    None
                } else {
                    let mut chars: Vec<char> = Vec::new();
                    let mut i: usize = self.position;
                    while i < end
                        invariant
                            self.position <= i <= end,
                            end <= self.content@.len(),
                            chars@ == self.content@.subrange(self.position as int, i as int),
                        decreases end - i,
                    {
                        chars.push(self.content[i]);
                        proof {
                            assert(self.content@.subrange(self.position as int, i + 1)
                                =~= self.content@.subrange(self.position as int, i as int).push(
                                self.content@[i as int],
                            ));
                        }
                        i = i + 1;
                    }
                    Some(chars)
                }
            },
            None => None,
        }
    }

    /// Consumes and returns the next `n` characters; when fewer than `n`
    /// remain, returns nothing and leaves the cursor untouched.
    pub fn read_many(&mut self, n: usize) -> (r: Option<Vec<char>>)
        ensures
            final(self)@.content == old(self)@.content,
            old(self)@.position + n <= old(self)@.content.len() ==> (r matches Some(chars)
                && chars@ == old(self)@.content.subrange(
                old(self)@.position,
                old(self)@.position + n,
            ) && final(self)@.position == old(self)@.position + n),
            old(self)@.position + n > old(self)@.content.len() ==> r is None && final(self)@
                == old(self)@,
    {
        // Binding the length brings its machine bound into scope: a
        // successful peek then implies the cursor advance cannot overflow.
        let _source_len = self.content.len();
        let r = self.peek_many(n);
        match r {
            Some(chars) => {
                self.position = self.position + n;
                Some(chars)
            },
            None => None,
        }
    }

    /// Returns the character `n` positions past the cursor, counting from
    /// zero, without moving the cursor; nothing when that runs off the
    /// end.
    pub fn peek_nth(&self, n: usize) -> (r: Option<char>)
        ensures
            self@.position + n < self@.content.len() ==> r == Some(
                self@.content[self@.position + n],
            ),
            self@.position + n >= self@.content.len() ==> r is None,
    {
        let source_len = self.content.len();
        match self.position.checked_add(n) {
            Some(index) => {
                if index < source_len {
                    Some(self.content[index])
                } else {
                    None
                }
            },
            None => None,
        }
    }

    /// Returns the next character without moving the cursor.
    pub fn peek(&self) -> (r: Option<char>)
        ensures
            self@.position < self@.content.len() ==> r == Some(self@.content[self@.position]),
            self@.position >= self@.content.len() ==> r is None,
    {
        self.peek_nth(0)
    }

    /// Consumes and returns the next character.
    pub fn read(&mut self) -> (r: Option<char>)
        ensures
            final(self)@.content == old(self)@.content,
            old(self)@.position < old(self)@.content.len() ==> r == Some(
                old(self)@.content[old(self)@.position],
            ) && final(self)@.position == old(self)@.position + 1,
            old(self)@.position >= old(self)@.content.len() ==> r is None && final(self)@ == old(
                self,
            )@,
    {
        match self.read_many(1) {
            Some(chars) => {
                proof {
                    assert(chars@[0] == old(self)@.content.subrange(
                        old(self)@.position,
                        old(self)@.position + 1,
                    )[0]);
                }
                Some(chars[0])
            },
            None => None,
        }
    }

    /// Advances the cursor past the next `n` characters without
    /// materializing them; when fewer than `n` remain, fails and leaves
    /// the cursor untouched.
    pub fn discard_many(&mut self, n: usize) -> (r: bool)
        ensures
            final(self)@.content == old(self)@.content,
            r == (old(self)@.position + n <= old(self)@.content.len()),
            r ==> final(self)@.position == old(self)@.position + n,
            !r ==> final(self)@ == old(self)@,
    {
        let source_len = self.content.len();
        match self.position.checked_add(n) {
            Some(end) => {
                if source_len < end {
                    false
                } else {
                    self.position = end;
                    true
                }
            },
            None => false,
        }
    }

    /// Advances the cursor past the next character; fails at the end.
    pub fn discard(&mut self) -> (r: bool)
        ensures
            final(self)@.content == old(self)@.content,
            r == (old(self)@.position < old(self)@.content.len()),
            r ==> final(self)@.position == old(self)@.position + 1,
            !r ==> final(self)@ == old(self)@,
    {
        self.discard_many(1)
    }

    /// Applies the predicate to the character `n` positions past the
    /// cursor, counting from zero; false when that runs off the end. The
    /// cursor cannot move: the source is not even borrowed mutably,
    /// which is the whole non-mutation guarantee for matching here.
    pub fn match_nth<F: Fn(char) -> bool>(&self, n: usize, predicate: F) -> (r: bool)
        requires
            forall|c: char| #[trigger] call_requires(predicate, (c,)),
        ensures
            self@.position + n < self@.content.len() ==> call_ensures(
                predicate,
                (self@.content[self@.position + n],),
                r,
            ),
            self@.position + n >= self@.content.len() ==> r == false,
    {
        match self.peek_nth(n) {
            Some(c) => predicate(c),
            None => false,
        }
    }
}

/// The source state after `k` single reads.
pub open spec fn after_source_reads(s: SourceView, k: int) -> SourceView {
    SourceView { content: s.content, position: s.position + k }
}

/// Idempotence: a peek borrows the source immutably and its result is
/// pinned by the content and the cursor alone, so two consecutive peeks
/// of the same depth return identical content.
pub proof fn lemma_peek_many_idempotent(s: SourceView, n: int, r1: Seq<char>, r2: Seq<char>)
    requires
        0 <= s.position,
        0 <= n,
        s.position + n <= s.content.len(),
        r1 == s.content.subrange(s.position, s.position + n),
        r2 == s.content.subrange(s.position, s.position + n),
    ensures
        r1 == r2,
{
}

/// Batch/sequential equivalence: when `n` characters remain, the batch
/// `read_many(n)` returns exactly what `n` single `read` calls return,
/// in order: the i-th batch element is the character that the i-th read
/// yields from the cursor the previous reads left; and the batch leaves
/// the cursor exactly where the `n` single reads would.
pub proof fn lemma_read_many_matches_single_reads(s: SourceView, n: int)
    requires
        0 <= s.position,
        0 <= n,
        s.position + n <= s.content.len(),
    ensures
        forall|i: int|
            0 <= i < n ==> {
                &&& (#[trigger] after_source_reads(s, i)).position < s.content.len()
                &&& s.content.subrange(s.position, s.position + n)[i]
                    == s.content[after_source_reads(s, i).position]
            },
        after_source_reads(s, n).position == s.position + n,
{
}

/// Discard equivalence: a successful `discard_many(n)` and a successful
/// `read_many(n)` whose result is dropped leave identical sources —
/// same content, cursor advanced by `n` — so a subsequent read yields
/// the same character either way.
pub proof fn lemma_discard_many_equiv_read_many(
    s0: SourceView,
    after_discard: SourceView,
    after_read: SourceView,
    n: int,
)
    requires
        after_discard.content == s0.content,
        after_discard.position == s0.position + n,
        after_read.content == s0.content,
        after_read.position == s0.position + n,
    ensures
        after_discard == after_read,
{
    assert(after_discard =~= after_read);
}

/// Shift invariance: for `k >= d`, the character `peek_nth(k)` sees
/// before a `discard_many(d)` is the character `peek_nth(k - d)` sees
/// after it (offsets count from zero).
pub proof fn lemma_peek_nth_shift_invariance(s0: SourceView, s1: SourceView, k: int, d: int)
    requires
        0 <= d <= k,
        s0.position + k < s0.content.len(),  // peek_nth(k) is in bounds beforehand
        s1.content == s0.content,
        s1.position == s0.position + d,  // s1 is s0 after a successful discard_many(d)
    ensures
        s1.position + (k - d) < s1.content.len(),
        s1.content[s1.position + (k - d)] == s0.content[s0.position + k],
{
}

/// Zero case: peeking zero characters always succeeds with the empty
/// batch, whatever the cursor position within bounds.
pub proof fn lemma_peek_many_zero(s: SourceView)
    requires
        0 <= s.position <= s.content.len(),
    ensures
        s.content.subrange(s.position, s.position) == Seq::<char>::empty(),
{
    assert(s.content.subrange(s.position, s.position) =~= Seq::<char>::empty());
}

/// Stable exhaustion: a batch call that fails for want of characters
/// leaves the cursor untouched, so the identical call fails again.
pub proof fn lemma_stable_exhaustion(s0: SourceView, s1: SourceView, n: int)
    requires
        s0.position + n > s0.content.len(),  // the first call failed
        s1 == s0,  // and, per the contracts, left the source unchanged
    ensures
        s1.position + n > s1.content.len(),
{
}

} // verus!
