//! What becomes of a window of proposed tokens once the model has predicted
//! its own.

use crate::number::{decimal, decimal_text, signed_decimal, signed_decimal_text};
use crate::text::concat;
use vstd::prelude::*;

verus! {

/// How a window ended.
#[derive(Debug, Clone, Copy, PartialEq, Eq, Structural)]
pub enum VerifyWindowDecisionKind {
    /// Every proposal was predicted.
    FullAccept,
    /// Generation ends at a proposal that was predicted, before the last.
    AcceptedStop,
    /// Only the last proposal was not predicted.
    TailReject,
    /// An earlier proposal was not predicted.
    EarlyReject,
    /// An earlier proposal was not predicted, and generation ends there.
    EarlyRejectStop,
}

/// The judgement of a window.
#[derive(Debug, Clone, Copy, PartialEq, Eq)]
pub struct VerifyWindowDecision {
    pub kind: VerifyWindowDecisionKind,
    /// The proposals that were predicted before the first that was not.
    pub accepted_before_reject: usize,
    /// The inputs up to the first proposal that was not predicted.
    pub repair_input_count: Option<usize>,
    /// The predictions that are committed.
    pub commit_count: usize,
}

impl VerifyWindowDecision {
    /// Whether a proposal was not predicted.
    pub open spec fn rejects(self) -> bool {
        self.kind is TailReject || self.kind is EarlyReject || self.kind is EarlyRejectStop
    }

    /// Whether a proposal was not predicted.
    pub fn rejected(self) -> (rejected: bool)
        ensures
            rejected == self.rejects(),
    {
        matches!(
            self.kind,
            VerifyWindowDecisionKind::TailReject
            | VerifyWindowDecisionKind::EarlyReject
            | VerifyWindowDecisionKind::EarlyRejectStop
        )
    }

    /// Whether the model's state holds tokens that were not predicted.
    pub fn requires_repair(self) -> (repair: bool)
        ensures
            repair == (self.kind is EarlyReject),
    {
        self.kind == VerifyWindowDecisionKind::EarlyReject
    }
}

/// Whether generation ends with the prediction at `at`: it is the end of the
/// text, or there is no room for another token.
pub open spec fn ends_at(
    generated_len: usize,
    max_new_tokens: usize,
    ends_text: Seq<bool>,
    at: int,
) -> bool {
    ends_text[at] || generated_len + at + 1 >= max_new_tokens
}

/// Whether the window is still undecided once the first `count` predictions
/// have been looked at.
pub open spec fn undecided(
    draft: Seq<i32>,
    predicted: Seq<i32>,
    generated_len: usize,
    max_new_tokens: usize,
    ends_text: Seq<bool>,
    count: int,
) -> bool {
    forall|i: int|
        0 <= i < count ==> #[trigger] predicted[i] == draft[i] && !(i + 1 < draft.len() && ends_at(
            generated_len,
            max_new_tokens,
            ends_text,
            i,
        ))
}

/// The judgement that falls at the prediction at `at`, if one does.
pub open spec fn judgement_at(
    draft: Seq<i32>,
    predicted: Seq<i32>,
    generated_len: usize,
    max_new_tokens: usize,
    ends_text: Seq<bool>,
    at: int,
) -> Option<VerifyWindowDecision> {
    let ends = ends_at(generated_len, max_new_tokens, ends_text, at);
    if predicted[at] == draft[at] {
        if ends && at + 1 < draft.len() {
            Some(
                VerifyWindowDecision {
                    kind: VerifyWindowDecisionKind::AcceptedStop,
                    accepted_before_reject: (at + 1) as usize,
                    repair_input_count: None,
                    commit_count: (at + 1) as usize,
                },
            )
        } else {
            None
        }
    } else {
        Some(
            VerifyWindowDecision {
                kind: if at + 1 == draft.len() {
                    VerifyWindowDecisionKind::TailReject
                } else if ends {
                    VerifyWindowDecisionKind::EarlyRejectStop
                } else {
                    VerifyWindowDecisionKind::EarlyReject
                },
                accepted_before_reject: at as usize,
                repair_input_count: Some((at + 1) as usize),
                commit_count: (at + 1) as usize,
            },
        )
    }
}

/// Whether `decision` is the judgement of a window whose predictions end the
/// text where `ends_text` says so.
pub open spec fn judged(
    draft: Seq<i32>,
    predicted: Seq<i32>,
    generated_len: usize,
    max_new_tokens: usize,
    ends_text: Seq<bool>,
    decision: VerifyWindowDecision,
) -> bool {
    let seen = decision.commit_count as int;
    &&& ends_text.len() == seen
    &&& 0 <= seen <= draft.len()
    &&& if decision.kind is FullAccept {
        &&& seen == draft.len()
        &&& undecided(draft, predicted, generated_len, max_new_tokens, ends_text, seen)
        &&& decision.accepted_before_reject == seen
        &&& decision.repair_input_count is None
    } else {
        &&& seen > 0
        &&& undecided(draft, predicted, generated_len, max_new_tokens, ends_text, seen - 1)
        &&& judgement_at(draft, predicted, generated_len, max_new_tokens, ends_text, seen - 1)
            == Some(decision)
    }
}

/// Whether a function may answer so for the first predictions.
pub open spec fn answered<F: Fn(i32) -> Result<bool, E>, E>(
    token_is_eog: F,
    predicted: Seq<i32>,
    ends_text: Seq<bool>,
) -> bool {
    forall|i: int|
        0 <= i < ends_text.len() ==> token_is_eog.ensures(
            (predicted[i],),
            Ok::<bool, E>(#[trigger] ends_text[i]),
        )
}

/// Why a window cannot be judged.
#[derive(Debug, Clone, Copy, PartialEq, Eq)]
pub enum VerifyWindowError<E> {
    TooFewTokens { got: usize, expected: usize },
    /// It could not be told whether a token ends the text.
    EndOfText(E),
}

impl<E> VerifyWindowError<E> {
    /// The text of the error, where it is the window's own.
    pub fn message(&self) -> (message: Option<String>)
        ensures
            match *self {
                VerifyWindowError::TooFewTokens { got, expected } => message matches Some(message)
                    && message@ == "verify window returned too few tokens: got "@ + decimal(
                    got as nat,
                ) + " expected "@ + decimal(expected as nat),
                VerifyWindowError::EndOfText(_) => message is None,
            },
    {
        match self {
            VerifyWindowError::TooFewTokens { got, expected } => {
                let got_text = decimal_text(*got as u64);
                let expected_text = decimal_text(*expected as u64);
                Some(
                    concat(
                        concat(
                            concat(
                                "verify window returned too few tokens: got ".to_owned(),
                                got_text.as_str(),
                            ),
                            " expected ",
                        ),
                        expected_text.as_str(),
                    ),
                )
            },
            VerifyWindowError::EndOfText(_) => None,
        }
    }
}

/// Judges a window. `token_is_eog` is asked of each prediction in turn, until
/// the judgement falls.
pub fn classify_verify_window<F, E>(
    draft_tokens: &[i32],
    predicted_tokens: &[i32],
    generated_len: usize,
    max_new_tokens: usize,
    token_is_eog: F,
) -> (result: Result<VerifyWindowDecision, VerifyWindowError<E>>) where
    F: Fn(i32) -> Result<bool, E>,

    requires
        forall|token: i32| #[trigger] token_is_eog.requires((token,)),
        generated_len + draft_tokens@.len() <= usize::MAX,
    ensures
        match result {
            Ok(decision) => predicted_tokens@.len() >= draft_tokens@.len() && exists|
                ends_text: Seq<bool>,
            |
                answered(token_is_eog, predicted_tokens@, ends_text) && #[trigger] judged(
                    draft_tokens@,
                    predicted_tokens@,
                    generated_len,
                    max_new_tokens,
                    ends_text,
                    decision,
                ),
            Err(VerifyWindowError::TooFewTokens { got, expected }) => got
                == predicted_tokens@.len() && expected == draft_tokens@.len() && got < expected,
            Err(VerifyWindowError::EndOfText(error)) => predicted_tokens@.len()
                >= draft_tokens@.len() && exists|ends_text: Seq<bool>| #[trigger]
                answered(token_is_eog, predicted_tokens@, ends_text) && ends_text.len()
                    < draft_tokens@.len() && undecided(
                    draft_tokens@,
                    predicted_tokens@,
                    generated_len,
                    max_new_tokens,
                    ends_text,
                    ends_text.len() as int,
                ) && token_is_eog.ensures(
                    (predicted_tokens@[ends_text.len() as int],),
                    Err::<bool, E>(error),
                ),
        },
{
    if predicted_tokens.len() < draft_tokens.len() {
        return Err(
            VerifyWindowError::TooFewTokens {
                got: predicted_tokens.len(),
                expected: draft_tokens.len(),
            },
        );
    }
    let ghost mut ends_text: Seq<bool> = Seq::empty();
    let mut at: usize = 0;
    while at < draft_tokens.len()
        invariant
            at <= draft_tokens.len(),
            draft_tokens.len() <= predicted_tokens.len(),
            generated_len + draft_tokens@.len() <= usize::MAX,
            forall|token: i32| #[trigger] token_is_eog.requires((token,)),
            ends_text.len() == at,
            answered(token_is_eog, predicted_tokens@, ends_text),
            undecided(
                draft_tokens@,
                predicted_tokens@,
                generated_len,
                max_new_tokens,
                ends_text,
                at as int,
            ),
        decreases draft_tokens.len() - at,
    {
        let predicted: i32 = predicted_tokens[at];
        let accepted = predicted == draft_tokens[at];
        let reached_eog = match token_is_eog(predicted) {
            Ok(ends) => ends,
            Err(error) => {
                return Err(VerifyWindowError::EndOfText(error));
            },
        };
        let ghost before = ends_text;
        proof {
            ends_text = ends_text.push(reached_eog);
            assert forall|i: int| 0 <= i < ends_text.len() implies token_is_eog.ensures(
                (predicted_tokens@[i],),
                Ok::<bool, E>(#[trigger] ends_text[i]),
            ) by {
                if i < before.len() {
                    assert(ends_text[i] == before[i]);
                }
            }
            assert forall|i: int| 0 <= i < at implies #[trigger] predicted_tokens@[i]
                == draft_tokens@[i] && !(i + 1 < draft_tokens@.len() && ends_at(
                generated_len,
                max_new_tokens,
                ends_text,
                i,
            )) by {
                assert(ends_text[i] == before[i]);
            }
        }
        let commit_count: usize = at + 1;
        let reached_limit = generated_len + commit_count >= max_new_tokens;
        if accepted {
            if (reached_eog || reached_limit) && commit_count < draft_tokens.len() {
                let decision = VerifyWindowDecision {
                    kind: VerifyWindowDecisionKind::AcceptedStop,
                    accepted_before_reject: commit_count,
                    repair_input_count: None,
                    commit_count,
                };
                assert(judged(
                    draft_tokens@,
                    predicted_tokens@,
                    generated_len,
                    max_new_tokens,
                    ends_text,
                    decision,
                ));
                return Ok(decision);
            }
        } else {
            let kind = if commit_count == draft_tokens.len() {
                VerifyWindowDecisionKind::TailReject
            } else if reached_eog || reached_limit {
                VerifyWindowDecisionKind::EarlyRejectStop
            } else {
                VerifyWindowDecisionKind::EarlyReject
            };
            let decision = VerifyWindowDecision {
                kind,
                accepted_before_reject: at,
                repair_input_count: Some(commit_count),
                commit_count,
            };
            assert(judged(
                draft_tokens@,
                predicted_tokens@,
                generated_len,
                max_new_tokens,
                ends_text,
                decision,
            ));
            return Ok(decision);
        }
        at += 1;
    }
    let decision = VerifyWindowDecision {
        kind: VerifyWindowDecisionKind::FullAccept,
        accepted_before_reject: at,
        repair_input_count: None,
        commit_count: at,
    };
    assert(judged(
        draft_tokens@,
        predicted_tokens@,
        generated_len,
        max_new_tokens,
        ends_text,
        decision,
    ));
    Ok(decision)
}

/// A window has at most one judgement.
pub proof fn law_judgement_is_unique(
    draft: Seq<i32>,
    predicted: Seq<i32>,
    generated_len: usize,
    max_new_tokens: usize,
    ends_text: Seq<bool>,
    left: VerifyWindowDecision,
    right: VerifyWindowDecision,
)
    requires
        draft.len() <= usize::MAX,
        judged(
            draft,
            predicted,
            generated_len,
            max_new_tokens,
            ends_text.take(left.commit_count as int),
            left,
        ),
        judged(
            draft,
            predicted,
            generated_len,
            max_new_tokens,
            ends_text.take(right.commit_count as int),
            right,
        ),
        left.commit_count <= ends_text.len(),
        right.commit_count <= ends_text.len(),
    ensures
        left == right,
{
    let (short, long) = if left.commit_count <= right.commit_count {
        (left, right)
    } else {
        (right, left)
    };
    let at = short.commit_count - 1;
    let short_ends = ends_text.take(short.commit_count as int);
    let long_ends = ends_text.take(long.commit_count as int);
    if short.commit_count < long.commit_count && short.commit_count > 0 {
        assert(long_ends[at] == short_ends[at]);
        assert(predicted[at] == draft[at]);
    }
}

/// A judgement asks for inputs to be repaired exactly where it rejects a
/// proposal, and then for those up to that proposal.
pub proof fn law_rejections_ask_for_repair(
    draft: Seq<i32>,
    predicted: Seq<i32>,
    generated_len: usize,
    max_new_tokens: usize,
    ends_text: Seq<bool>,
    decision: VerifyWindowDecision,
)
    requires
        draft.len() <= usize::MAX,
        judged(draft, predicted, generated_len, max_new_tokens, ends_text, decision),
    ensures
        decision.repair_input_count is Some <==> decision.rejects(),
        decision.repair_input_count matches Some(count) ==> count
            == decision.accepted_before_reject + 1,
{
}

/// How a window ended is told by where it ended. A rejection of the last
/// proposal is a tail; one of an earlier proposal stops generation exactly where
/// the prediction in its place ends the text or fills the limit. Without a
/// rejection the window was cut short or taken whole. Nothing before the end
/// was rejected, ended the text or filled the limit.
pub proof fn law_kind_tells_where_window_ended(
    draft: Seq<i32>,
    predicted: Seq<i32>,
    generated_len: usize,
    max_new_tokens: usize,
    ends_text: Seq<bool>,
    decision: VerifyWindowDecision,
)
    requires
        draft.len() <= predicted.len(),
        draft.len() <= usize::MAX,
        judged(draft, predicted, generated_len, max_new_tokens, ends_text, decision),
    ensures
        ({
            let kind = decision.kind;
            let end = decision.commit_count as int;
            let rejected = 0 < end && predicted[end - 1] != draft[end - 1];
            let stops = 0 < end && (ends_text[end - 1] || generated_len + end >= max_new_tokens);
            &&& end <= draft.len()
            &&& draft.len() > 0 ==> end > 0
            &&& decision.repair_input_count == if rejected {
                Some(end as usize)
            } else {
                None
            }
            &&& decision.accepted_before_reject == if rejected {
                end - 1
            } else {
                end
            }
            &&& kind == VerifyWindowDecisionKind::TailReject <==> (rejected
                && decision.repair_input_count == Some(draft.len() as usize))
            &&& kind == VerifyWindowDecisionKind::EarlyRejectStop <==> (rejected && end
                < draft.len() && stops)
            &&& kind == VerifyWindowDecisionKind::EarlyReject <==> (rejected && end < draft.len()
                && !stops)
            &&& kind == VerifyWindowDecisionKind::AcceptedStop <==> (!rejected && end
                < draft.len())
            &&& kind == VerifyWindowDecisionKind::AcceptedStop ==> stops
            &&& kind == VerifyWindowDecisionKind::FullAccept <==> (!rejected && end
                == draft.len())
        }),
        forall|i: int|
            0 <= i < decision.commit_count - 1 ==> #[trigger] predicted[i] == draft[i]
                && !ends_text[i] && generated_len + i + 1 < max_new_tokens,
{
    let end = decision.commit_count as int;
    let looked_at = if decision.kind is FullAccept {
        end
    } else {
        end - 1
    };
    assert(undecided(draft, predicted, generated_len, max_new_tokens, ends_text, looked_at));
    if decision.kind is FullAccept && end > 0 {
        assert(predicted[end - 1] == draft[end - 1]);
    }
    assert forall|i: int| 0 <= i < decision.commit_count - 1 implies #[trigger] predicted[i]
        == draft[i] && !ends_text[i] && generated_len + i + 1 < max_new_tokens by {
        assert(predicted[i] == draft[i]);
        assert(i + 1 < draft.len());
        assert(!ends_at(generated_len, max_new_tokens, ends_text, i));
    }
}

/// What a judgement commits: the proposals before the first that was not
/// predicted, and then the prediction in its place. Every proposal that was
/// accepted was predicted; one that was not is named exactly by a rejection.
pub proof fn law_judgement_commits_predictions(
    draft: Seq<i32>,
    predicted: Seq<i32>,
    generated_len: usize,
    max_new_tokens: usize,
    ends_text: Seq<bool>,
    decision: VerifyWindowDecision,
)
    requires
        draft.len() <= predicted.len(),
        draft.len() <= usize::MAX,
        judged(draft, predicted, generated_len, max_new_tokens, ends_text, decision),
    ensures
        decision.accepted_before_reject <= decision.commit_count <= draft.len(),
        forall|i: int|
            0 <= i < decision.accepted_before_reject ==> #[trigger] predicted[i] == draft[i],
        decision.repair_input_count is Some <==> (decision.kind is TailReject
            || decision.kind is EarlyReject || decision.kind is EarlyRejectStop),
        decision.repair_input_count matches Some(count) ==> {
            &&& count == decision.commit_count
            &&& count == decision.accepted_before_reject + 1
            &&& predicted[count - 1] != draft[count - 1]
        },
        decision.repair_input_count is None ==> decision.accepted_before_reject
            == decision.commit_count,
        draft.len() > 0 ==> decision.commit_count > 0,
{
}

/// No window commits a token beyond the limit, where there was room for one.
pub proof fn law_judgement_keeps_limit(
    draft: Seq<i32>,
    predicted: Seq<i32>,
    generated_len: usize,
    max_new_tokens: usize,
    ends_text: Seq<bool>,
    decision: VerifyWindowDecision,
)
    requires
        draft.len() <= predicted.len(),
        draft.len() <= usize::MAX,
        generated_len < max_new_tokens,
        judged(draft, predicted, generated_len, max_new_tokens, ends_text, decision),
    ensures
        generated_len + decision.commit_count <= max_new_tokens,
{
    if decision.commit_count > 1 {
        let before = decision.commit_count - 2;
        assert(predicted[before] == draft[before]);
    }
}

/// The inputs that verify a window: the current token, then every proposal
/// but the last.
pub fn verify_inputs_for_proposals(current: i32, proposals: &[i32]) -> (tokens: Vec<i32>)
    ensures
        tokens@ == if proposals@.len() == 0 {
            Seq::<i32>::empty()
        } else {
            seq![current] + proposals@.drop_last()
        },
{
    let mut tokens: Vec<i32> = Vec::new();
    if proposals.len() == 0 {
        return tokens;
    }
    tokens.push(current);
    let mut i: usize = 0;
    while i + 1 < proposals.len()
        invariant
            i < proposals.len(),
            tokens@ == seq![current] + proposals@.take(i as int),
        decreases proposals.len() - i,
    {
        tokens.push(proposals[i]);
        assert(tokens@ =~= seq![current] + proposals@.take(i + 1));
        i += 1;
    }
    assert(proposals@.take(i as int) =~= proposals@.drop_last());
    tokens
}

/// The decimal numbers of a list, with a comma and a space between them.
pub open spec fn listed(tokens: Seq<i32>) -> Seq<char>
    decreases tokens.len(),
{
    if tokens.len() == 0 {
        seq![]
    } else if tokens.len() == 1 {
        signed_decimal(tokens[0] as int)
    } else {
        listed(tokens.drop_last()) + ", "@ + signed_decimal(tokens.last() as int)
    }
}

/// A list names its numbers in decimal, with a comma and a space before each but
/// the first.
pub proof fn law_numbers_are_listed(tokens: Seq<i32>, token: i32)
    ensures
        listed(Seq::<i32>::empty()) == Seq::<char>::empty(),
        listed(seq![token]) == signed_decimal(token as int),
        tokens.len() > 0 ==> listed(tokens.push(token)) == listed(tokens) + ", "@ + signed_decimal(
            token as int,
        ),
{
    assert(tokens.push(token).drop_last() =~= tokens);
}

fn list_text(tokens: &[i32]) -> (text: String)
    ensures
        text@ == "["@ + listed(tokens@) + "]"@,
{
    let mut text = String::new();
    let mut i: usize = 0;
    while i < tokens.len()
        invariant
            i <= tokens.len(),
            text@ == listed(tokens@.take(i as int)),
        decreases tokens.len() - i,
    {
        let number = signed_decimal_text(tokens[i] as i64);
        if i > 0 {
            text = concat(text, ", ");
        }
        text = concat(text, number.as_str());
        proof {
            let now = tokens@.take(i + 1);
            assert(now.drop_last() =~= tokens@.take(i as int));
            if i == 0 {
                assert(text@ =~= number@);
            }
        }
        i += 1;
    }
    assert(tokens@.take(i as int) =~= tokens@);
    concat(concat("[".to_owned(), text.as_str()), "]")
}

/// A recovery that returned too few tokens.
#[derive(Debug, Clone, PartialEq, Eq)]
pub struct TooFewRepairedTokens {
    pub expected: usize,
    pub got: Vec<i32>,
}

impl TooFewRepairedTokens {
    /// The text of the error.
    pub fn message(&self) -> (message: String)
        ensures
            message@ == "recovery verify returned too few tokens: expected "@ + decimal(
                self.expected as nat,
            ) + " got "@ + ("["@ + listed(self.got@) + "]"@),
    {
        let expected = decimal_text(self.expected as u64);
        let got = list_text(self.got.as_slice());
        concat(
            concat(
                concat(
                    "recovery verify returned too few tokens: expected ".to_owned(),
                    expected.as_str(),
                ),
                " got ",
            ),
            got.as_str(),
        )
    }
}

/// What a recovery commits.
#[derive(Debug, Clone, PartialEq, Eq)]
pub struct RepairedCommit {
    pub tokens: Vec<i32>,
    /// Whether the recovery predicted other tokens than had been accepted.
    pub prefix_changed: bool,
}

fn copied(tokens: &[i32], count: usize) -> (copy: Vec<i32>)
    requires
        count <= tokens.len(),
    ensures
        copy@ == tokens@.take(count as int),
{
    let mut copy: Vec<i32> = Vec::new();
    let mut i: usize = 0;
    while i < count
        invariant
            i <= count <= tokens.len(),
            copy@ == tokens@.take(i as int),
        decreases count - i,
    {
        copy.push(tokens[i]);
        assert(copy@ =~= tokens@.take(i + 1));
        i += 1;
    }
    copy
}

/// The tokens that a recovery commits: its predictions, up to the first
/// proposal that was not predicted.
pub fn repaired_commit_tokens(
    draft_tokens: &[i32],
    accepted_before_reject: usize,
    repair_input_count: usize,
    repaired_predictions: &[i32],
) -> (result: Result<RepairedCommit, TooFewRepairedTokens>)
    requires
        repaired_predictions@.len() >= repair_input_count ==> accepted_before_reject
            <= draft_tokens@.len() && accepted_before_reject <= repaired_predictions@.len(),
    ensures
        match result {
            Ok(commit) => {
                &&& repaired_predictions@.len() >= repair_input_count
                &&& commit.tokens@ == repaired_predictions@.take(repair_input_count as int)
                &&& commit.prefix_changed == (repaired_predictions@.take(
                    accepted_before_reject as int,
                ) != draft_tokens@.take(accepted_before_reject as int))
            },
            Err(error) => {
                &&& repaired_predictions@.len() < repair_input_count
                &&& error.expected == repair_input_count
                &&& error.got@ == repaired_predictions@
            },
        },
{
    if repaired_predictions.len() < repair_input_count {
        let got = copied(repaired_predictions, repaired_predictions.len());
        assert(got@ =~= repaired_predictions@);
        return Err(TooFewRepairedTokens { expected: repair_input_count, got });
    }
    let mut prefix_changed = false;
    let mut i: usize = 0;
    let ghost accepted = draft_tokens@.take(accepted_before_reject as int);
    let ghost repaired = repaired_predictions@.take(accepted_before_reject as int);
    while i < accepted_before_reject
        invariant
            i <= accepted_before_reject <= draft_tokens.len(),
            accepted_before_reject <= repaired_predictions.len(),
            accepted == draft_tokens@.take(accepted_before_reject as int),
            repaired == repaired_predictions@.take(accepted_before_reject as int),
            prefix_changed == !(forall|k: int| 0 <= k < i ==> #[trigger] repaired[k] == accepted[k]),
        decreases accepted_before_reject - i,
    {
        if repaired_predictions[i] != draft_tokens[i] {
            assert(repaired[i as int] != accepted[i as int]);
            prefix_changed = true;
        } else {
            assert(repaired[i as int] == accepted[i as int]);
        }
        i += 1;
    }
    proof {
        if !prefix_changed {
            assert(repaired =~= accepted);
        }
    }
    Ok(
        RepairedCommit {
            tokens: copied(repaired_predictions, repair_input_count),
            prefix_changed,
        },
    )
}

} // verus!
