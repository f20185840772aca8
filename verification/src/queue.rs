//! The players that wait for an opponent, oldest first.

use std::collections::VecDeque;
use vstd::prelude::*;
use crate::keys::{lemma_without, without};
use crate::types::{texts, Token};

verus! {

/// The tokens of the players that wait to be paired, in the order in which
/// they came. No token waits twice.
pub struct MatchmakingQueue {
    tokens: VecDeque<Token>,
}

impl View for MatchmakingQueue {
    type V = Seq<Seq<char>>;

    closed spec fn view(&self) -> Seq<Seq<char>> {
        texts(self.tokens@)
    }
}

/// `queue` with `token` as its newest, unless `token` waits already.
pub open spec fn enqueued(queue: Seq<Seq<char>>, token: Seq<char>) -> Seq<Seq<char>> {
    if queue.contains(token) {
        queue
    } else {
        queue.push(token)
    }
}

/// `queue` with `token` as its oldest, unless `token` waits already.
pub open spec fn requeued(queue: Seq<Seq<char>>, token: Seq<char>) -> Seq<Seq<char>> {
    if queue.contains(token) {
        queue
    } else {
        seq![token] + queue
    }
}

/// Putting a token into the queue twice is the same as putting it there
/// once, and a queue in which no token waits twice stays one.
pub proof fn lemma_enqueue_is_idempotent(queue: Seq<Seq<char>>, token: Seq<char>)
    ensures
        enqueued(enqueued(queue, token), token) == enqueued(queue, token),
        queue.no_duplicates() ==> enqueued(queue, token).no_duplicates(),
{
    if !queue.contains(token) {
        assert(queue.push(token)[queue.len() as int] == token);
    }
}

impl MatchmakingQueue {
    /// What holds of every queue: no token waits twice.
    #[verifier::type_invariant]
    pub closed spec fn inv(&self) -> bool {
        texts(self.tokens@).no_duplicates()
    }

    /// No token waits twice.
    pub proof fn lemma_inv(&self)
        requires
            self.inv(),
        ensures
            self@.no_duplicates(),
    {
    }

    /// A queue in which nobody waits.
    pub fn new() -> (queue: Self)
        ensures
            queue@ == Seq::<Seq<char>>::empty(),
    {
        let queue = MatchmakingQueue { tokens: VecDeque::new() };
        assert(queue@ =~= Seq::<Seq<char>>::empty());
        queue
    }

    /// How many players wait.
    pub fn len(&self) -> (n: usize)
        ensures
            n == self@.len(),
    {
        self.tokens.len()
    }

    /// Where `token` waits, counted from the oldest.
    fn position(&self, token: &Token) -> (found: Option<usize>)
        ensures
            match found {
                Some(i) => i < self@.len() && self@[i as int] == token@ && self@.contains(token@)
                    && self@.index_of(token@) == i,
                None => !self@.contains(token@),
            },
    {
        proof {
            use_type_invariant(self);
        }
        let mut i: usize = 0;
        while i < self.tokens.len()
            invariant
                i <= self@.len(),
                self@ == texts(self.tokens@),
                self@.no_duplicates(),
                forall|j: int| 0 <= j < i ==> self@[j] != token@,
            decreases self@.len() - i,
        {
            if self.tokens[i] == *token {
                assert(self@[i as int] == token@);
                return Some(i);
            }
            i = i + 1;
        }
        None
    }

    /// Whether `token` waits.
    pub fn contains(&self, token: &Token) -> (found: bool)
        ensures
            found == self@.contains(token@),
    {
        self.position(token).is_some()
    }

    /// Puts `token` behind the others, unless it waits already; says
    /// whether it was put there.
    pub fn enqueue(&mut self, token: Token) -> (added: bool)
        ensures
            final(self)@ == enqueued(old(self)@, token@),
            added == !old(self)@.contains(token@),
    {
        proof {
            use_type_invariant(&*self);
        }
        if self.contains(&token) {
            return false;
        }
        let ghost before = self@;
        let mut tokens: VecDeque<Token> = VecDeque::new();
        std::mem::swap(&mut tokens, &mut self.tokens);
        tokens.push_back(token);
        proof {
            assert(texts(tokens@) =~= before.push(token@));
        }
        self.tokens = tokens;
        true
    }

    /// Puts `token` before the others, unless it waits already.
    pub fn requeue_front(&mut self, token: Token)
        ensures
            final(self)@ == requeued(old(self)@, token@),
    {
        proof {
            use_type_invariant(&*self);
        }
        if self.contains(&token) {
            return ;
        }
        let ghost before = self@;
        let mut tokens: VecDeque<Token> = VecDeque::new();
        std::mem::swap(&mut tokens, &mut self.tokens);
        tokens.push_front(token);
        proof {
            assert(texts(tokens@) =~= seq![token@] + before);
        }
        self.tokens = tokens;
    }

    /// Takes `token` out of the queue; says whether it waited.
    pub fn remove(&mut self, token: &Token) -> (removed: bool)
        ensures
            final(self)@ == without(old(self)@, token@),
            removed == old(self)@.contains(token@),
    {
        proof {
            use_type_invariant(&*self);
            lemma_without(self@, token@);
        }
        match self.position(token) {
            Some(i) => {
                let ghost before = self@;
                let mut tokens: VecDeque<Token> = VecDeque::new();
                std::mem::swap(&mut tokens, &mut self.tokens);
                let _ = tokens.remove(i);
                proof {
                    assert(texts(tokens@) =~= before.remove(i as int));
                }
                self.tokens = tokens;
                true
            },
            None => false,
        }
    }

    /// Takes the two oldest tokens out of the queue, the oldest first.
    /// Nobody is taken where fewer than two wait.
    pub fn pop_pair(&mut self) -> (pair: Option<(Token, Token)>)
        ensures
            match pair {
                Some((first, second)) => old(self)@.len() >= 2 && first@ == old(self)@[0] && second@
                    == old(self)@[1] && final(self)@ == old(self)@.skip(2),
                None => old(self)@.len() < 2 && final(self)@ == old(self)@,
            },
    {
        proof {
            use_type_invariant(&*self);
        }
        if self.tokens.len() < 2 {
            return None;
        }
        let ghost before = self@;
        let mut tokens: VecDeque<Token> = VecDeque::new();
        std::mem::swap(&mut tokens, &mut self.tokens);
        let first = tokens.pop_front();
        let second = tokens.pop_front();
        proof {
            assert(texts(tokens@) =~= before.skip(2));
        }
        self.tokens = tokens;
        match (first, second) {
            (Some(first), Some(second)) => Some((first, second)),
            _ => None,
        }
    }
}

} // verus!
