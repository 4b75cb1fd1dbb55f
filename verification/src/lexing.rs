//! The lexing phase: tokens, and the lookahead buffer that bridges the
//! concurrently running lexer task and the synchronous grammar consumer.
//!
//! `Tokens` holds a small fixed-capacity cache of tokens already pulled
//! from the lexer task's channel but not yet consumed. Peeks grow the
//! cache as needed; reads and discards drain it from the front and fall
//! through to the channel for anything beyond it. The consumer never sees
//! the thread: absence of a result is the one failure signal, and the
//! deeper cause is only available by joining the task once reading is
//! done.

pub mod lexer;
pub mod source;
pub mod tokens;

use vstd::prelude::*;

use crate::lexing::lexer::{interpret_join_outcome, LexedToken, LexerTask, LexerTaskError};

verus! {

/// The fixed maximum depth of simultaneous lookahead: requesting more in
/// one peek is a programming error in the grammar, not a data condition.
pub const MAX_TOKEN_LOOKAHEAD: usize = 5;

/// The abstract state of a `Tokens` buffer.
#[verifier::ext_equal]
pub ghost struct TokensView {
    /// The tokens pulled from the channel but not yet consumed, in stream
    /// order.
    pub cache: Seq<LexedToken>,
    /// Whether a pull from the channel has ever failed. Once it has, the
    /// buffer never touches the channel again, so failing calls keep
    /// failing deterministically.
    pub exhausted: bool,
    /// How many times the buffer has pulled at the channel, counting the
    /// one failing pull. Contracts use it to show which calls leave the
    /// channel alone.
    pub pulls: nat,
}

/// How many of `n` requested tokens the cache itself can supply.
pub open spec fn cache_share(cache: Seq<LexedToken>, n: int) -> int {
    if n <= cache.len() {
        n
    } else {
        cache.len() as int
    }
}

/// How a buffer state may change under an operation that only grows the
/// lookahead towards depth `n`: a peek or a match. The cached tokens stay
/// where they are and nothing is consumed; the cache grows at most to
/// depth `n`, falling short exactly when the channel gave out; a buffer
/// that already covers the request, or that is already exhausted, is left
/// entirely alone.
pub open spec fn peek_evolution(pre: TokensView, post: TokensView, n: int) -> bool {
    &&& pre.cache.is_prefix_of(post.cache)
    &&& post.cache.len() <= (if n <= pre.cache.len() {
        pre.cache.len() as int
    } else {
        n
    })
    &&& (n <= pre.cache.len() ==> post == pre)
    &&& (pre.exhausted ==> post == pre)
    &&& (post.exhausted <==> (pre.exhausted || post.cache.len() < n))
    &&& post.pulls == pre.pulls + (post.cache.len() - pre.cache.len()) + (if !pre.exhausted
        && post.exhausted {
        1int
    } else {
        0int
    })
}

/// What a peek towards depth `n` returns: the first `n` cached tokens
/// exactly when the cache reached that depth, and nothing otherwise.
/// Partial batches are never returned.
pub open spec fn peeked_result(post: TokensView, n: int, r: Option<Seq<LexedToken>>) -> bool {
    &&& (n <= post.cache.len() ==> r == Some(post.cache.take(n)))
    &&& (n > post.cache.len() ==> r is None)
}

/// How a buffer state changes under an operation that consumes `n`
/// tokens: a read or a discard, successful iff `ok`. The cached share is
/// always drained; the remainder comes from the channel, so a failure can
/// only arise beyond the cache, sets `exhausted`, and an already
/// exhausted buffer fails such a request without touching the channel.
pub open spec fn consume_evolution(pre: TokensView, post: TokensView, n: int, ok: bool) -> bool {
    &&& post.cache == pre.cache.skip(cache_share(pre.cache, n))
    &&& (pre.exhausted ==> post.exhausted)
    &&& (n <= pre.cache.len() ==> ok && post.exhausted == pre.exhausted && post.pulls
        == pre.pulls)
    &&& (pre.exhausted && n > pre.cache.len() ==> !ok && post.pulls == pre.pulls)
    &&& (ok ==> post.exhausted == pre.exhausted && post.pulls == pre.pulls + (n - cache_share(
        pre.cache,
        n,
    )))
    &&& (!ok ==> post.exhausted && n > pre.cache.len())
    &&& post.pulls >= pre.pulls
}

/// The content a batch result carries, for stating contracts.
pub open spec fn content_of(r: Option<Vec<LexedToken>>) -> Option<Seq<LexedToken>> {
    match r {
        Some(tokens) => Some(tokens@),
        None => None,
    }
}

/// The ordered batch of tokens one `read_many` call consumed.
pub struct LexedTokenReadMany(pub Vec<LexedToken>);

impl View for LexedTokenReadMany {
    type V = Seq<LexedToken>;

    open spec fn view(&self) -> Seq<LexedToken> {
        self.0@
    }
}

impl LexedTokenReadMany {
    /// The token at the given position within the batch.
    pub fn index(&self, index: usize) -> (r: &LexedToken)
        requires
            index < self@.len(),
        ensures
            *r == self@[index as int],
    {
        &self.0[index]
    }
}

/// The lookahead buffer over the lexer task's token stream.
pub struct Tokens {
    lookahead: Vec<LexedToken>,
    exhausted: bool,
    lexer_task: LexerTask,
    pulls: Ghost<nat>,
}

impl View for Tokens {
    type V = TokensView;

    closed spec fn view(&self) -> TokensView {
        TokensView { cache: self.lookahead@, exhausted: self.exhausted, pulls: self.pulls@ }
    }
}

impl Tokens {
    /// The cache never holds more than the fixed lookahead capacity.
    pub open spec fn wf(&self) -> bool {
        self@.cache.len() <= MAX_TOKEN_LOOKAHEAD
    }

    /// Creates the buffer over a freshly started lexer task. The cache
    /// starts empty; it grows only through peeks and shrinks only through
    /// reads and discards.
    pub fn from(lexer_task: LexerTask) -> (r: Tokens)
        ensures
            r.wf(),
            r@.cache == Seq::<LexedToken>::empty(),
            !r@.exhausted,
            r@.pulls == 0,
    {
        Tokens { lookahead: Vec::new(), exhausted: false, lexer_task, pulls: Ghost(0nat) }
    }

    /// Waits for the lexer task to finish and reports its own outcome;
    /// to be called exactly once, after all reading is done. Tokenization
    /// errors are not representable inside the token stream, so this is
    /// the only place they surface.
    pub fn join_lexer_thread(self) -> Result<(), LexerTaskError> {
        interpret_join_outcome(self.lexer_task.recv_outcome())
    }

    /// Returns the next `n` upcoming tokens without consuming anything,
    /// pulling exactly the missing count from the channel first. When the
    /// stream ends before `n` tokens are available, returns nothing, and
    /// only the tokens actually received are recorded as cached.
    pub fn peek_many(&mut self, n: usize) -> (r: Option<Vec<LexedToken>>)
        requires
            old(self).wf(),
            n <= MAX_TOKEN_LOOKAHEAD,
        ensures
            final(self).wf(),
            peek_evolution(old(self)@, final(self)@, n as int),
            peeked_result(final(self)@, n as int, content_of(r)),
    {
        if self.lookahead.len() < n {
            if self.exhausted {
                return None;
            }
            while self.lookahead.len() < n
                invariant
                    n <= MAX_TOKEN_LOOKAHEAD,
                    self.lookahead@.len() <= n,
                    old(self)@.cache.is_prefix_of(self.lookahead@),
                    !self.exhausted,
                    !old(self)@.exhausted,
                    self.pulls@ == old(self)@.pulls + self.lookahead@.len()
                        - old(self)@.cache.len(),
                decreases n - self.lookahead.len(),
            {
                match self.lexer_task.recv() {
                    Some(token) => {
                        self.lookahead.push(token);
                        self.pulls = Ghost(self.pulls@ + 1);
                    },
                    None => {
                        self.exhausted = true;
                        self.pulls = Ghost(self.pulls@ + 1);
                        return None;
                    },
                }
            }
        }
        let mut result: Vec<LexedToken> = Vec::new();
        let mut i: usize = 0;
        while i < n
            invariant
                i <= n,
                n <= self.lookahead@.len(),
                result@ == self.lookahead@.take(i as int),
            decreases n - i,
        {
            result.push(self.lookahead[i].clone());
            proof {
                assert(self.lookahead@.take(i + 1) =~= self.lookahead@.take(i as int).push(
                    self.lookahead@[i as int],
                ));
            }
            i = i + 1;
        }
        Some(result)
    }

    /// Returns the next upcoming token without consuming it.
    pub fn peek(&mut self) -> (r: Option<LexedToken>)
        requires
            old(self).wf(),
        ensures
            final(self).wf(),
            peek_evolution(old(self)@, final(self)@, 1),
            final(self)@.cache.len() >= 1 ==> r == Some(final(self)@.cache[0]),
            final(self)@.cache.len() == 0 ==> r is None,
    {
        match self.peek_many(1) {
            Some(mut tokens) => Some(tokens.remove(0)),
            None => None,
        }
    }

    /// Returns the `n`th upcoming token, counting from one, without
    /// consuming anything.
    pub fn peek_nth(&mut self, n: usize) -> (r: Option<LexedToken>)
        requires
            old(self).wf(),
            1 <= n <= MAX_TOKEN_LOOKAHEAD,
        ensures
            final(self).wf(),
            peek_evolution(old(self)@, final(self)@, n as int),
            n <= final(self)@.cache.len() ==> r == Some(final(self)@.cache[n - 1]),
            n > final(self)@.cache.len() ==> r is None,
    {
        match self.peek_many(n) {
            Some(mut tokens) => Some(tokens.remove(n - 1)),
            None => None,
        }
    }

    /// Grows the lookahead as needed to inspect the `n`th upcoming token,
    /// counting from one, and applies the predicate to it; false when the
    /// stream ends first. Consumption state is left unchanged either way.
    pub fn match_nth<F: Fn(&LexedToken) -> bool>(&mut self, n: usize, predicate: F) -> (r: bool)
        requires
            old(self).wf(),
            1 <= n <= MAX_TOKEN_LOOKAHEAD,
            forall|token: &LexedToken| #[trigger] call_requires(predicate, (token,)),
        ensures
            final(self).wf(),
            peek_evolution(old(self)@, final(self)@, n as int),
            n <= final(self)@.cache.len() ==> call_ensures(predicate, (&final(self)@.cache[n - 1],), r),
            n > final(self)@.cache.len() ==> r == false,
    {
        match self.peek_nth(n) {
            Some(token) => predicate(&token),
            None => false,
        }
    }

    /// Consumes and returns the next `n` tokens in stream order: first
    /// the cached share, compacted away from the front of the cache, then
    /// the remainder straight from the channel. `n` may exceed the cache
    /// capacity. When the stream ends before `n` tokens arrive, returns
    /// nothing; the partial batch is never returned.
    pub fn read_many(&mut self, n: usize) -> (r: Option<LexedTokenReadMany>)
        requires
            old(self).wf(),
        ensures
            final(self).wf(),
            consume_evolution(old(self)@, final(self)@, n as int, r is Some),
            r matches Some(tokens) ==> tokens@.len() == n && tokens@.take(
                cache_share(old(self)@.cache, n as int),
            ) == old(self)@.cache.take(cache_share(old(self)@.cache, n as int)),
    {
        let mut collected: Vec<LexedToken> = Vec::new();
        while collected.len() < n && self.lookahead.len() > 0
            invariant
                collected@.len() <= n,
                collected@ + self.lookahead@ == old(self)@.cache,
                self.exhausted == old(self)@.exhausted,
                self.pulls@ == old(self)@.pulls,
            decreases self.lookahead.len(),
        {
            let token = self.lookahead.remove(0);
            collected.push(token);
            proof {
                assert(collected@ + self.lookahead@ =~= old(self)@.cache);
            }
        }
        if collected.len() == n {
            proof {
                assert(collected@ =~= old(self)@.cache.take(cache_share(
                    old(self)@.cache,
                    n as int,
                )));
                assert(self.lookahead@ =~= old(self)@.cache.skip(cache_share(
                    old(self)@.cache,
                    n as int,
                )));
                assert(collected@.take(cache_share(old(self)@.cache, n as int)) =~= collected@);
            }
            return Some(LexedTokenReadMany(collected));
        }
        proof {
            assert(self.lookahead@ =~= Seq::<LexedToken>::empty());
            assert(collected@ =~= old(self)@.cache);
            assert(old(self)@.cache.skip(cache_share(old(self)@.cache, n as int))
                =~= Seq::<LexedToken>::empty());
        }
        if self.exhausted {
            return None;
        }
        while collected.len() < n
            invariant
                old(self)@.cache.len() <= collected@.len() <= n,
                self.lookahead@ == old(self)@.cache.skip(cache_share(old(self)@.cache, n as int)),
                self.lookahead@.len() == 0,
                collected@.take(old(self)@.cache.len() as int) == old(self)@.cache,
                !self.exhausted,
                !old(self)@.exhausted,
                self.pulls@ == old(self)@.pulls + collected@.len() - old(self)@.cache.len(),
            decreases n - collected.len(),
        {
            match self.lexer_task.recv() {
                Some(token) => {
                    collected.push(token);
                    proof {
                        assert(collected@.take(old(self)@.cache.len() as int) =~= old(
                            self,
                        )@.cache);
                    }
                    self.pulls = Ghost(self.pulls@ + 1);
                },
                None => {
                    self.exhausted = true;
                    self.pulls = Ghost(self.pulls@ + 1);
                    return None;
                },
            }
        }
        proof {
            assert(collected@.take(cache_share(old(self)@.cache, n as int)) =~= old(self)@.cache);
        }
        Some(LexedTokenReadMany(collected))
    }

    /// Consumes and returns the next token.
    pub fn read(&mut self) -> (r: Option<LexedToken>)
        requires
            old(self).wf(),
        ensures
            final(self).wf(),
            consume_evolution(old(self)@, final(self)@, 1, r is Some),
            old(self)@.cache.len() >= 1 ==> r == Some(old(self)@.cache[0]),
    {
        match self.read_many(1) {
            Some(mut tokens) => {
                proof {
                    if old(self)@.cache.len() >= 1 {
                        assert(tokens@[0] == tokens@.take(1)[0]);
                        assert(old(self)@.cache[0] == old(self)@.cache.take(1)[0]);
                    }
                }
                Some(tokens.0.remove(0))
            },
            None => None,
        }
    }

    /// Consumes the next `n` tokens without materializing them: the same
    /// consumption as `read_many`, reporting only whether all `n` were
    /// there. The count still required after draining the cache is kept
    /// unsigned and cannot underflow.
    pub fn discard_many(&mut self, n: usize) -> (r: bool)
        requires
            old(self).wf(),
        ensures
            final(self).wf(),
            consume_evolution(old(self)@, final(self)@, n as int, r),
    {
        let mut consumed: usize = 0;
        while consumed < n && self.lookahead.len() > 0
            invariant
                consumed <= n,
                consumed <= old(self)@.cache.len(),
                self.lookahead@ == old(self)@.cache.skip(consumed as int),
                self.exhausted == old(self)@.exhausted,
                self.pulls@ == old(self)@.pulls,
            decreases self.lookahead.len(),
        {
            self.lookahead.remove(0);
            consumed = consumed + 1;
            proof {
                assert(self.lookahead@ =~= old(self)@.cache.skip(consumed as int));
            }
        }
        if consumed == n {
            return true;
        }
        proof {
            assert(self.lookahead@ =~= old(self)@.cache.skip(cache_share(
                old(self)@.cache,
                n as int,
            )));
        }
        if self.exhausted {
            return false;
        }
        let mut still_required: usize = n - consumed;
        while still_required > 0
            invariant
                still_required <= n - old(self)@.cache.len(),
                n > old(self)@.cache.len(),
                self.lookahead@ == old(self)@.cache.skip(cache_share(
                    old(self)@.cache,
                    n as int,
                )),
                self.lookahead@.len() == 0,
                !self.exhausted,
                !old(self)@.exhausted,
                self.pulls@ == old(self)@.pulls + (n - old(self)@.cache.len()) - still_required,
            decreases still_required,
        {
            match self.lexer_task.recv() {
                Some(_token) => {
                    self.pulls = Ghost(self.pulls@ + 1);
                },
                None => {
                    self.exhausted = true;
                    self.pulls = Ghost(self.pulls@ + 1);
                    return false;
                },
            }
            still_required = still_required - 1;
        }
        true
    }

    /// Consumes the next token without materializing it.
    pub fn discard(&mut self) -> (r: bool)
        requires
            old(self).wf(),
        ensures
            final(self).wf(),
            consume_evolution(old(self)@, final(self)@, 1, r),
    {
        self.discard_many(1)
    }
}

/// The buffer state after `k` single reads that all hit the cache: the
/// first `k` cached tokens are gone and the channel was never touched.
pub open spec fn after_cached_reads(s: TokensView, k: int) -> TokensView {
    TokensView { cache: s.cache.skip(k), exhausted: s.exhausted, pulls: s.pulls }
}

/// Idempotence: two consecutive `peek_many` calls of the same depth with
/// no intervening read or discard return identical content, and the
/// second call leaves the buffer, and the channel, entirely alone.
pub proof fn lemma_peek_many_idempotent(
    s0: TokensView,
    s1: TokensView,
    s2: TokensView,
    n: int,
    r1: Option<Seq<LexedToken>>,
    r2: Option<Seq<LexedToken>>,
)
    requires
        peek_evolution(s0, s1, n),
        peeked_result(s1, n, r1),
        peek_evolution(s1, s2, n),
        peeked_result(s2, n, r2),
        r1 is Some,
    ensures
        s2 == s1,
        r2 == r1,
{
}

/// Batch/sequential equivalence: a `read_many(n)` served from the cache
/// returns exactly what `n` single `read` calls return, in the same
/// order — the i-th batch element is what the i-th read would yield from
/// the state the previous reads left — and it leaves the buffer exactly
/// where those `n` reads would.
pub proof fn lemma_read_many_matches_single_reads(
    s0: TokensView,
    s1: TokensView,
    n: int,
    tokens: Seq<LexedToken>,
)
    requires
        0 <= n <= s0.cache.len(),
        consume_evolution(s0, s1, n, true),
        tokens.len() == n,
        tokens.take(cache_share(s0.cache, n)) == s0.cache.take(cache_share(s0.cache, n)),
    ensures
        forall|i: int|
            0 <= i < n ==> {
                &&& (#[trigger] after_cached_reads(s0, i)).cache.len() >= 1
                &&& consume_evolution(after_cached_reads(s0, i), after_cached_reads(s0, i + 1), 1, true)
                &&& tokens[i] == after_cached_reads(s0, i).cache[0]
            },
        s1 == after_cached_reads(s0, n),
{
    assert(tokens =~= s0.cache.take(n));
    assert forall|i: int| 0 <= i < n implies {
        &&& (#[trigger] after_cached_reads(s0, i)).cache.len() >= 1
        &&& consume_evolution(after_cached_reads(s0, i), after_cached_reads(s0, i + 1), 1, true)
        &&& tokens[i] == after_cached_reads(s0, i).cache[0]
    } by {
        assert(s0.cache.skip(i).skip(1) =~= s0.cache.skip(i + 1));
        assert(s0.cache.skip(i)[0] == s0.cache[i]);
        assert(tokens[i] == s0.cache[i]);
    }
    assert(s1 =~= after_cached_reads(s0, n));
}

/// Discard equivalence: a successful `discard_many(n)` and a successful
/// `read_many(n)` whose result is dropped leave identical buffer states,
/// each having consumed the same count from the cache and then from the
/// channel, so every subsequent operation observes the same stream.
pub proof fn lemma_discard_many_equiv_read_many(
    s0: TokensView,
    after_discard: TokensView,
    after_read: TokensView,
    n: int,
)
    requires
        consume_evolution(s0, after_discard, n, true),
        consume_evolution(s0, after_read, n, true),
    ensures
        after_discard == after_read,
{
    assert(after_discard =~= after_read);
}

/// Shift invariance: for lookahead depths the cache covers, the `k`-th
/// upcoming token seen before discarding `d` tokens is the `(k - d)`-th
/// upcoming token seen after, for `d < k` (depths count from one).
pub proof fn lemma_peek_nth_shift_invariance(
    s0: TokensView,
    s1: TokensView,
    s2: TokensView,
    s3: TokensView,
    k: int,
    d: int,
)
    requires
        0 <= d < k,
        peek_evolution(s0, s1, k),
        k <= s1.cache.len(),
        consume_evolution(s1, s2, d, true),
        peek_evolution(s2, s3, k - d),
    ensures
        k - d <= s3.cache.len(),
        s3 == s2,
        s3.cache[k - d - 1] == s1.cache[k - 1],
{
    assert(s2.cache =~= s1.cache.skip(d));
}

/// Non-mutation: an operation that only grows the lookahead — a peek or
/// a match — never changes what subsequent reads and peeks observe:
/// every already cached token stays cached, unread, at its place, and a
/// buffer that already covered the depth is left entirely alone.
pub proof fn lemma_match_nth_preserves_observations(s0: TokensView, s1: TokensView, n: int)
    requires
        peek_evolution(s0, s1, n),
    ensures
        s0.cache.len() <= s1.cache.len(),
        forall|i: int| 0 <= i < s0.cache.len() ==> s1.cache[i] == s0.cache[i],
        n <= s0.cache.len() ==> s1 == s0,
{
    assert(s0.cache =~= s1.cache.subrange(0, s0.cache.len() as int));
    assert forall|i: int| 0 <= i < s0.cache.len() implies s1.cache[i] == s0.cache[i] by {
        assert(s0.cache[i] == s1.cache.subrange(0, s0.cache.len() as int)[i]);
    }
}

/// Zero case: `peek_many(0)` always succeeds with the empty batch and
/// performs no channel access, whatever state the buffer is in.
pub proof fn lemma_peek_many_zero(s0: TokensView, s1: TokensView, r: Option<Seq<LexedToken>>)
    requires
        peek_evolution(s0, s1, 0),
        peeked_result(s1, 0, r),
    ensures
        s1 == s0,
        s1.pulls == s0.pulls,
        r == Some(Seq::<LexedToken>::empty()),
{
    assert(s1.cache.take(0) =~= Seq::<LexedToken>::empty());
}

/// Peek/read agreement: after a successful `peek_many(n)`, a
/// `read_many(n)` succeeds and consumes exactly the tokens the peek
/// returned.
pub proof fn lemma_peek_then_read_agree(
    s0: TokensView,
    s1: TokensView,
    s2: TokensView,
    n: int,
    peeked: Seq<LexedToken>,
    ok: bool,
    tokens: Seq<LexedToken>,
)
    requires
        0 <= n,
        peek_evolution(s0, s1, n),
        peeked_result(s1, n, Some(peeked)),
        consume_evolution(s1, s2, n, ok),
        tokens.len() == n,
        tokens.take(cache_share(s1.cache, n)) == s1.cache.take(cache_share(s1.cache, n)),
    ensures
        ok,
        tokens == peeked,
{
    assert(tokens =~= s1.cache.take(n));
}

/// Stable exhaustion for peeks: once a peek fails because the stream
/// ended, an identical subsequent peek fails too, leaving the state, and
/// the channel, untouched.
pub proof fn lemma_peek_many_stable_exhaustion(
    s0: TokensView,
    s1: TokensView,
    s2: TokensView,
    n: int,
    r2: Option<Seq<LexedToken>>,
)
    requires
        peek_evolution(s0, s1, n),
        n > s1.cache.len(),  // the first call failed: it could not reach depth n
        peek_evolution(s1, s2, n),
        peeked_result(s2, n, r2),
    ensures
        s2 == s1,
        r2 is None,
{
}

/// Stable exhaustion for reads and discards: once one fails because the
/// stream ended, the identical call fails again, leaving the state, and
/// the channel, untouched.
pub proof fn lemma_consume_stable_exhaustion(
    s0: TokensView,
    s1: TokensView,
    s2: TokensView,
    n: int,
    ok2: bool,
)
    requires
        consume_evolution(s0, s1, n, false),
        consume_evolution(s1, s2, n, ok2),
    ensures
        !ok2,
        s2 == s1,
{
    assert(s1.cache =~= Seq::<LexedToken>::empty());
    assert(s2.cache =~= s1.cache);
    assert(s2 =~= s1);
}

} // verus!
