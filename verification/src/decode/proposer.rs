//! Keeping a native N-gram cache in step with the committed tokens.

use crate::decode::config::{NgramProposerKind, SpeculativeDecodeConfig};
use vstd::prelude::*;

verus! {

/// How a native cache catches up with the committed tokens.
#[derive(Debug, Clone, Copy, PartialEq, Eq, Structural)]
pub enum CacheUpdate {
    /// Append the tokens from this position on.
    Append { from: usize },
    /// Forget everything and take all tokens.
    Reset,
}

impl CacheUpdate {
    /// What a cache that held `cached` holds after the update.
    pub open spec fn applied(self, cached: Seq<i32>, history: Seq<i32>) -> Seq<i32> {
        match self {
            CacheUpdate::Append { from } => cached + history.skip(from as int),
            CacheUpdate::Reset => history,
        }
    }
}

/// Which committed tokens a native cache holds. Proposals never enter it.
pub struct CachedNgramProposer {
    committed_history: Vec<i32>,
}

impl View for CachedNgramProposer {
    type V = Seq<i32>;

    closed spec fn view(&self) -> Seq<i32> {
        self.committed_history@
    }
}

impl CachedNgramProposer {
    /// The lengths for which a plan asks for a cache, if it asks for one.
    pub fn from_config(config: &SpeculativeDecodeConfig) -> (lengths: Option<(usize, usize)>)
        ensures
            lengths == match config.ngram {
                Some(ngram) if ngram.kind is Cache => Some((ngram.min_ngram, ngram.max_ngram)),
                _ => None,
            },
    {
        match &config.ngram {
            Some(ngram) => if ngram.kind == NgramProposerKind::Cache {
                Some((ngram.min_ngram, ngram.max_ngram))
            } else {
                None
            },
            None => None,
        }
    }

    /// A proposer whose cache is empty.
    pub fn new() -> (proposer: CachedNgramProposer)
        ensures
            proposer@ == Seq::<i32>::empty(),
    {
        CachedNgramProposer { committed_history: Vec::new() }
    }

    /// How the cache catches up: by what is new, where the history goes on from
    /// what the cache holds, and from the start otherwise.
    pub open spec fn update_for(cached: Seq<i32>, history: Seq<i32>) -> CacheUpdate {
        if cached.len() <= history.len() && history.take(cached.len() as int) == cached {
            CacheUpdate::Append { from: cached.len() as usize }
        } else {
            CacheUpdate::Reset
        }
    }

    /// How the cache catches up with the committed tokens.
    pub fn sync(&self, committed_history: &[i32]) -> (update: CacheUpdate)
        ensures
            update == Self::update_for(self@, committed_history@),
    {
        let held: usize = self.committed_history.len();
        if held > committed_history.len() {
            return CacheUpdate::Reset;
        }
        let mut i: usize = 0;
        while i < held
            invariant
                i <= held == self.committed_history@.len(),
                held <= committed_history.len(),
                forall|k: int|
                    0 <= k < i ==> #[trigger] self.committed_history@[k] == committed_history@[k],
            decreases held - i,
        {
            if self.committed_history[i] != committed_history[i] {
                assert(committed_history@.take(held as int)[i as int]
                    != self.committed_history@[i as int]);
                return CacheUpdate::Reset;
            }
            i += 1;
        }
        assert(committed_history@.take(held as int) =~= self.committed_history@);
        CacheUpdate::Append { from: held }
    }

    /// Notes that the cache now holds the committed tokens.
    pub fn synced(&mut self, committed_history: &[i32])
        ensures
            final(self)@ == committed_history@,
    {
        let mut held: Vec<i32> = Vec::new();
        let mut i: usize = 0;
        while i < committed_history.len()
            invariant
                i <= committed_history.len(),
                held@ == committed_history@.take(i as int),
            decreases committed_history.len() - i,
        {
            held.push(committed_history[i]);
            assert(held@ =~= committed_history@.take(i + 1));
            i += 1;
        }
        assert(committed_history@.take(i as int) =~= committed_history@);
        self.committed_history = held;
    }
}

/// After the update the cache holds exactly the committed tokens.
pub proof fn law_sync_mirrors_history(cached: Seq<i32>, history: Seq<i32>)
    requires
        cached.len() <= usize::MAX,
    ensures
        CachedNgramProposer::update_for(cached, history).applied(cached, history) == history,
{
    if cached.len() <= history.len() && history.take(cached.len() as int) == cached {
        assert(cached + history.skip(cached.len() as int) =~= history);
    }
}

/// A proposal that was asked for.
pub struct ProposalRequest {
    /// The committed tokens.
    pub history: Seq<i32>,
    /// The tokens that the proposal goes on from; they are not committed.
    pub continuation: Seq<i32>,
    pub max_tokens: nat,
}

/// The tokens that a cache has learned after proposals that were all made.
pub open spec fn learned(requests: Seq<ProposalRequest>) -> Seq<i32>
    decreases requests.len(),
{
    if requests.len() == 0 {
        Seq::empty()
    } else {
        let cached = learned(requests.drop_last());
        let history = requests.last().history;
        CachedNgramProposer::update_for(cached, history).applied(cached, history)
    }
}

/// Whatever proposals were made before, a cache has learned the tokens that
/// were committed by the last of them and no others: what a proposal goes on
/// from is never learned.
pub proof fn law_only_committed_tokens_are_learned(requests: Seq<ProposalRequest>)
    requires
        forall|i: int|
            0 <= i < requests.len() ==> (#[trigger] requests[i]).history.len() <= usize::MAX,
    ensures
        learned(requests) == if requests.len() == 0 {
            Seq::empty()
        } else {
            requests.last().history
        },
    decreases requests.len(),
{
    if requests.len() > 0 {
        law_only_committed_tokens_are_learned(requests.drop_last());
        if requests.len() > 1 {
            assert(requests.drop_last().last() == requests[requests.len() - 2]);
        }
        law_sync_mirrors_history(learned(requests.drop_last()), requests.last().history);
    }
}

/// A further proposal for the same committed tokens, whatever it goes on from,
/// tells the cache nothing: nothing is appended, and what is learned stays.
pub proof fn law_proposing_again_teaches_nothing(
    requests: Seq<ProposalRequest>,
    again: ProposalRequest,
)
    requires
        requests.len() > 0,
        forall|i: int|
            0 <= i < requests.len() ==> (#[trigger] requests[i]).history.len() <= usize::MAX,
        again.history == requests.last().history,
    ensures
        CachedNgramProposer::update_for(learned(requests), again.history) matches
            CacheUpdate::Append { from } && again.history.skip(from as int) == Seq::<i32>::empty(),
        learned(requests.push(again)) == learned(requests),
{
    law_only_committed_tokens_are_learned(requests);
    let history = again.history;
    assert(history.take(history.len() as int) =~= history);
    assert(history.skip(history.len() as int) =~= Seq::<i32>::empty());
    assert(requests.push(again).drop_last() =~= requests);
    law_sync_mirrors_history(learned(requests), history);
}

/// What the last of a list of requests is answered by a cache that drafts, like
/// `draft`, from the tokens that it learned, the tokens to go on from and the
/// number of tokens wanted.
pub open spec fn proposed(
    draft: spec_fn(Seq<i32>, Seq<i32>, nat) -> Seq<i32>,
    requests: Seq<ProposalRequest>,
) -> Seq<i32> {
    draft(learned(requests), requests.last().continuation, requests.last().max_tokens)
}

/// A proposal changes no later one: with any cache that drafts from what it
/// learned, a request is answered alike whether or not another one for the same
/// committed tokens came before it.
pub proof fn law_proposals_change_no_later_ones(
    draft: spec_fn(Seq<i32>, Seq<i32>, nat) -> Seq<i32>,
    requests: Seq<ProposalRequest>,
    between: ProposalRequest,
    asked: ProposalRequest,
)
    requires
        requests.len() > 0,
        forall|i: int|
            0 <= i < requests.len() ==> (#[trigger] requests[i]).history.len() <= usize::MAX,
        between.history == requests.last().history,
        asked.history == requests.last().history,
    ensures
        proposed(draft, requests.push(between).push(asked)) == proposed(
            draft,
            requests.push(asked),
        ),
{
    law_only_committed_tokens_are_learned(requests.push(between).push(asked));
    law_only_committed_tokens_are_learned(requests.push(asked));
}

/// Where the committed tokens go on from what a cache holds, it is told just the
/// new ones; it forgets what it holds only where they do not.
pub proof fn law_cache_is_told_only_what_is_new(
    cached: Seq<i32>,
    more: Seq<i32>,
    history: Seq<i32>,
)
    requires
        cached.len() <= usize::MAX,
    ensures
        CachedNgramProposer::update_for(cached, cached + more) == (CacheUpdate::Append {
            from: cached.len() as usize,
        }),
        CachedNgramProposer::update_for(cached, history) == CacheUpdate::Reset <==> !(cached.len()
            <= history.len() && forall|i: int|
            0 <= i < cached.len() ==> #[trigger] cached[i] == history[i]),
{
    assert((cached + more).take(cached.len() as int) =~= cached);
    if cached.len() <= history.len() {
        let start = history.take(cached.len() as int);
        if forall|i: int| 0 <= i < cached.len() ==> #[trigger] cached[i] == history[i] {
            assert(start =~= cached);
        }
        if start == cached {
            assert forall|i: int| 0 <= i < cached.len() implies #[trigger] cached[i]
                == history[i] by {
                assert(start[i] == history[i]);
            }
        }
    }
}

} // verus!
