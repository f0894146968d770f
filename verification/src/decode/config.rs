//! The speculative decoding plan of a server.

use crate::attrs::{AttrMap, AttrView};
use crate::number::{decimal, decimal_text};
use crate::scan::{is_blank, trimmed};
use crate::text::concat;
use vstd::prelude::*;

verus! {

/// The longest N-gram that the native N-gram cache takes.
pub const NGRAM_CACHE_MAX_NGRAM: usize = 4;

/// Which tokens are proposed, and how proposals are verified.
#[derive(Clone, Debug, Eq, PartialEq)]
pub struct SpeculativeDecodeConfig {
    pub requested_strategy: String,
    pub effective_strategy: String,
    pub native_mtp: NativeMtpProposalConfig,
    pub ngram: Option<NgramProposalConfig>,
    pub extension: Option<NgramExtensionConfig>,
    pub verify_window: VerifyWindowConfig,
}

/// Proposals by the model's own multi-token heads.
#[derive(Clone, Debug, Eq, PartialEq)]
pub struct NativeMtpProposalConfig {
    pub enabled: bool,
    pub max_draft_tokens: usize,
    pub min_draft_tokens: usize,
    pub reject_cooldown_tokens: usize,
    pub suppress_cooldown_drafts: bool,
    pub suppress_cooldown_draft_limit: usize,
}

/// How N-grams are found.
#[derive(Clone, Copy, Debug, Eq, PartialEq, Structural)]
pub enum NgramProposerKind {
    Simple,
    Cache,
}

/// Proposals from N-grams of the history.
#[derive(Clone, Debug, Eq, PartialEq)]
pub struct NgramProposalConfig {
    pub kind: NgramProposerKind,
    pub min_ngram: usize,
    pub max_ngram: usize,
    pub max_proposal_tokens: usize,
}

/// N-gram proposals that follow a native proposal.
#[derive(Clone, Debug, Eq, PartialEq)]
pub struct NgramExtensionConfig {
    pub initial_tokens: usize,
    pub max_tokens: usize,
    pub tail_backoff_proposals: usize,
}

/// How many tokens are verified at a time, and how many windows at a time.
#[derive(Clone, Debug, Eq, PartialEq)]
pub struct VerifyWindowConfig {
    pub min_tokens: usize,
    pub max_tokens: usize,
    pub pipeline_depth: usize,
}

/// What is wrong with a plan.
#[derive(Clone, Copy, Debug, Eq, PartialEq, Structural)]
pub enum SpeculativeConfigError {
    EmptyStrategy,
    NativeMtpDraftTokens,
    NgramBounds,
    CacheNgramLimit,
    ExtensionWithoutProposers,
    ExtensionBounds,
    VerifyWindowBounds,
}

impl SpeculativeConfigError {
    /// The text of the error.
    pub open spec fn text(self) -> Seq<char> {
        match self {
            SpeculativeConfigError::EmptyStrategy => {
                "speculative decode strategies must not be empty"@
            },
            SpeculativeConfigError::NativeMtpDraftTokens => {
                "native MTP min_draft_tokens must not exceed max_draft_tokens"@
            },
            SpeculativeConfigError::NgramBounds => {
                "N-gram proposer requires 0 < min_ngram <= max_ngram and max_proposal_tokens >= min_ngram"@
            },
            SpeculativeConfigError::CacheNgramLimit => {
                "cache N-gram proposer max_ngram must not exceed llama.cpp limit "@ + decimal(
                    NGRAM_CACHE_MAX_NGRAM as nat,
                )
            },
            SpeculativeConfigError::ExtensionWithoutProposers => {
                "N-gram extension requires both native MTP and an N-gram proposer"@
            },
            SpeculativeConfigError::ExtensionBounds => {
                "N-gram extension requires 0 < initial_tokens <= max_tokens"@
            },
            SpeculativeConfigError::VerifyWindowBounds => {
                "verify window requires 0 < min_tokens <= max_tokens and pipeline_depth > 0"@
            },
        }
    }

    /// The text of the error.
    pub fn message(&self) -> (message: String)
        ensures
            message@ == self.text(),
    {
        match self {
            SpeculativeConfigError::EmptyStrategy => {
                "speculative decode strategies must not be empty".to_owned()
            },
            SpeculativeConfigError::NativeMtpDraftTokens => {
                "native MTP min_draft_tokens must not exceed max_draft_tokens".to_owned()
            },
            SpeculativeConfigError::NgramBounds => {
                "N-gram proposer requires 0 < min_ngram <= max_ngram and max_proposal_tokens >= min_ngram".to_owned()
            },
            SpeculativeConfigError::CacheNgramLimit => {
                let limit = decimal_text(NGRAM_CACHE_MAX_NGRAM as u64);
                concat(
                    "cache N-gram proposer max_ngram must not exceed llama.cpp limit ".to_owned(),
                    limit.as_str(),
                )
            },
            SpeculativeConfigError::ExtensionWithoutProposers => {
                "N-gram extension requires both native MTP and an N-gram proposer".to_owned()
            },
            SpeculativeConfigError::ExtensionBounds => {
                "N-gram extension requires 0 < initial_tokens <= max_tokens".to_owned()
            },
            SpeculativeConfigError::VerifyWindowBounds => {
                "verify window requires 0 < min_tokens <= max_tokens and pipeline_depth > 0".to_owned()
            },
        }
    }
}

impl NgramProposalConfig {
    /// Whether the lengths fit together.
    pub open spec fn bounds_hold(self) -> bool {
        0 < self.min_ngram <= self.max_ngram && self.min_ngram <= self.max_proposal_tokens
    }
}

impl SpeculativeDecodeConfig {
    /// Whether a check of the plan fails.
    pub open spec fn breaks(self, error: SpeculativeConfigError) -> bool {
        match error {
            SpeculativeConfigError::EmptyStrategy => trimmed(self.requested_strategy@).len() == 0
                || trimmed(self.effective_strategy@).len() == 0,
            SpeculativeConfigError::NativeMtpDraftTokens => self.native_mtp.min_draft_tokens
                > self.native_mtp.max_draft_tokens,
            SpeculativeConfigError::NgramBounds => self.ngram matches Some(ngram)
                && !ngram.bounds_hold(),
            SpeculativeConfigError::CacheNgramLimit => self.ngram matches Some(ngram)
                && ngram.kind is Cache && ngram.max_ngram > NGRAM_CACHE_MAX_NGRAM,
            SpeculativeConfigError::ExtensionWithoutProposers => self.extension is Some && (
            !self.native_mtp.enabled || self.ngram is None),
            SpeculativeConfigError::ExtensionBounds => self.extension matches Some(extension) && !(
            0 < extension.initial_tokens <= extension.max_tokens),
            SpeculativeConfigError::VerifyWindowBounds => !(0 < self.verify_window.min_tokens
                <= self.verify_window.max_tokens) || self.verify_window.pipeline_depth == 0,
        }
    }

    /// The first check that fails.
    pub open spec fn first_problem(self) -> Option<SpeculativeConfigError> {
        if self.breaks(SpeculativeConfigError::EmptyStrategy) {
            Some(SpeculativeConfigError::EmptyStrategy)
        } else if self.breaks(SpeculativeConfigError::NativeMtpDraftTokens) {
            Some(SpeculativeConfigError::NativeMtpDraftTokens)
        } else if self.breaks(SpeculativeConfigError::NgramBounds) {
            Some(SpeculativeConfigError::NgramBounds)
        } else if self.breaks(SpeculativeConfigError::CacheNgramLimit) {
            Some(SpeculativeConfigError::CacheNgramLimit)
        } else if self.breaks(SpeculativeConfigError::ExtensionWithoutProposers) {
            Some(SpeculativeConfigError::ExtensionWithoutProposers)
        } else if self.breaks(SpeculativeConfigError::ExtensionBounds) {
            Some(SpeculativeConfigError::ExtensionBounds)
        } else if self.breaks(SpeculativeConfigError::VerifyWindowBounds) {
            Some(SpeculativeConfigError::VerifyWindowBounds)
        } else {
            None
        }
    }

    /// Whether a plan can be followed.
    pub open spec fn valid(self) -> bool {
        forall|error: SpeculativeConfigError| !self.breaks(error)
    }

    /// Checks the plan; the first check that fails is the error.
    pub fn validate(&self) -> (result: Result<(), SpeculativeConfigError>)
        ensures
            result == match self.first_problem() {
                Some(error) => Err(error),
                None => Ok(()),
            },
    {
        if is_blank(self.requested_strategy.as_str()) || is_blank(
            self.effective_strategy.as_str(),
        ) {
            return Err(SpeculativeConfigError::EmptyStrategy);
        }
        if self.native_mtp.min_draft_tokens > self.native_mtp.max_draft_tokens {
            return Err(SpeculativeConfigError::NativeMtpDraftTokens);
        }
        if let Some(ngram) = &self.ngram {
            if ngram.min_ngram == 0 || ngram.min_ngram > ngram.max_ngram
                || ngram.max_proposal_tokens < ngram.min_ngram {
                return Err(SpeculativeConfigError::NgramBounds);
            }
        }
        if let Some(ngram) = &self.ngram {
            if ngram.kind == NgramProposerKind::Cache && ngram.max_ngram > NGRAM_CACHE_MAX_NGRAM {
                return Err(SpeculativeConfigError::CacheNgramLimit);
            }
        }
        if self.extension.is_some() && (!self.native_mtp.enabled || self.ngram.is_none()) {
            return Err(SpeculativeConfigError::ExtensionWithoutProposers);
        }
        if let Some(extension) = &self.extension {
            if extension.initial_tokens == 0 || extension.initial_tokens > extension.max_tokens
                || extension.max_tokens == 0 {
                return Err(SpeculativeConfigError::ExtensionBounds);
            }
        }
        if self.verify_window.min_tokens == 0 || self.verify_window.min_tokens
            > self.verify_window.max_tokens || self.verify_window.pipeline_depth == 0 {
            return Err(SpeculativeConfigError::VerifyWindowBounds);
        }
        Ok(())
    }

    /// Adds the names of the strategies.
    pub fn insert_telemetry_attrs<M>(&self, attrs: &mut AttrMap<M>)
        ensures
            final(attrs)@ == old(attrs)@.insert(
                "llama_stage.spec.requested_strategy"@,
                AttrView::Text(self.requested_strategy@),
            ).insert(
                "llama_stage.spec.effective_strategy"@,
                AttrView::Text(self.effective_strategy@),
            ),
    {
        attrs.insert_text(
            "llama_stage.spec.requested_strategy",
            self.requested_strategy.as_str(),
        );
        attrs.insert_text(
            "llama_stage.spec.effective_strategy",
            self.effective_strategy.as_str(),
        );
    }

    /// Whether this is the plan of a server that was given none.
    pub open spec fn is_default(self) -> bool {
        &&& self.requested_strategy@ == "auto"@
        &&& self.effective_strategy@ == "disabled"@
        &&& self.native_mtp == NativeMtpProposalConfig {
            enabled: false,
            max_draft_tokens: 1,
            min_draft_tokens: 0,
            reject_cooldown_tokens: 0,
            suppress_cooldown_drafts: false,
            suppress_cooldown_draft_limit: 0,
        }
        &&& self.ngram is None
        &&& self.extension is None
        &&& self.verify_window == VerifyWindowConfig {
            min_tokens: 1,
            max_tokens: 4,
            pipeline_depth: 1,
        }
    }
}

impl Default for SpeculativeDecodeConfig {
    fn default() -> (config: Self)
        ensures
            config.is_default(),
    {
        SpeculativeDecodeConfig {
            requested_strategy: "auto".to_owned(),
            effective_strategy: "disabled".to_owned(),
            native_mtp: NativeMtpProposalConfig {
                enabled: false,
                max_draft_tokens: 1,
                min_draft_tokens: 0,
                reject_cooldown_tokens: 0,
                suppress_cooldown_drafts: false,
                suppress_cooldown_draft_limit: 0,
            },
            ngram: None,
            extension: None,
            verify_window: VerifyWindowConfig { min_tokens: 1, max_tokens: 4, pipeline_depth: 1 },
        }
    }
}

/// The plan of a standalone server: the one that was loaded, or the default,
/// if it can be followed.
pub fn load_standalone_speculative_config(loaded: Option<SpeculativeDecodeConfig>) -> (result: Result<
    SpeculativeDecodeConfig,
    SpeculativeConfigError,
>)
    ensures
        loaded matches Some(plan) ==> result == match plan.first_problem() {
            Some(error) => Err(error),
            None => Ok(plan),
        },
        loaded is None ==> (result matches Ok(config) && config.is_default()),
{
    let config = match loaded {
        Some(plan) => plan,
        None => {
            let config = SpeculativeDecodeConfig::default();
            proof {
                law_default_config_is_valid(config);
                law_valid_without_problem(config);
            }
            config
        },
    };
    match config.validate() {
        Ok(_) => Ok(config),
        Err(error) => Err(error),
    }
}

/// A plan passes its checks exactly if none of them fails.
pub proof fn law_valid_without_problem(config: SpeculativeDecodeConfig)
    ensures
        config.first_problem() is None <==> config.valid(),
        config.first_problem() matches Some(error) ==> config.breaks(error),
{
    if let Some(error) = config.first_problem() {
        assert(config.breaks(error));
    } else {
        assert forall|error: SpeculativeConfigError| !config.breaks(error) by {
            match error {
                SpeculativeConfigError::EmptyStrategy => {},
                _ => {},
            }
        }
    }
}

/// The default plan can be followed.
pub proof fn law_default_config_is_valid(config: SpeculativeDecodeConfig)
    requires
        config.is_default(),
    ensures
        config.valid(),
{
    reveal_strlit("auto");
    reveal_strlit("disabled");
    assert forall|error: SpeculativeConfigError| !config.breaks(error) by {
        crate::scan::lemma_trim_keeps_solid(config.requested_strategy@, 0);
        crate::scan::lemma_trim_keeps_solid(config.effective_strategy@, 0);
    }
}

/// A plan that can be followed has the lengths that the native proposers ask
/// for, and verifies at least one token of at least one window.
pub proof fn law_valid_config_bounds(config: SpeculativeDecodeConfig)
    requires
        config.valid(),
    ensures
        config.native_mtp.min_draft_tokens <= config.native_mtp.max_draft_tokens,
        config.ngram matches Some(ngram) ==> {
            &&& 0 < ngram.min_ngram <= ngram.max_ngram
            &&& ngram.min_ngram <= ngram.max_proposal_tokens
            &&& ngram.kind is Cache ==> ngram.max_ngram <= NGRAM_CACHE_MAX_NGRAM
        },
        config.extension matches Some(extension) ==> {
            &&& 0 < extension.initial_tokens <= extension.max_tokens
            &&& config.native_mtp.enabled
            &&& config.ngram is Some
        },
        0 < config.verify_window.min_tokens <= config.verify_window.max_tokens,
        config.verify_window.pipeline_depth > 0,
{
    assert(!config.breaks(SpeculativeConfigError::NativeMtpDraftTokens));
    assert(!config.breaks(SpeculativeConfigError::NgramBounds));
    assert(!config.breaks(SpeculativeConfigError::CacheNgramLimit));
    assert(!config.breaks(SpeculativeConfigError::ExtensionWithoutProposers));
    assert(!config.breaks(SpeculativeConfigError::ExtensionBounds));
    assert(!config.breaks(SpeculativeConfigError::VerifyWindowBounds));
}

/// The shortest match of a simple N-gram proposer, or zero without one.
pub fn standalone_simple_ngram_min(config: &SpeculativeDecodeConfig) -> (min: usize)
    ensures
        min == match config.ngram {
            Some(ngram) if ngram.kind is Simple => ngram.min_ngram,
            _ => 0,
        },
{
    match &config.ngram {
        Some(ngram) => if ngram.kind == NgramProposerKind::Simple {
            ngram.min_ngram
        } else {
            0
        },
        None => 0,
    }
}

/// The most tokens that a simple N-gram proposer proposes, or zero without
/// one.
pub fn standalone_simple_ngram_max(config: &SpeculativeDecodeConfig) -> (max: usize)
    ensures
        max == match config.ngram {
            Some(ngram) if ngram.kind is Simple => if ngram.max_proposal_tokens < ngram.max_ngram {
                ngram.max_proposal_tokens
            } else {
                ngram.max_ngram
            },
            _ => 0,
        },
{
    match &config.ngram {
        Some(ngram) => if ngram.kind == NgramProposerKind::Simple {
            if ngram.max_proposal_tokens < ngram.max_ngram {
                ngram.max_proposal_tokens
            } else {
                ngram.max_ngram
            }
        } else {
            0
        },
        None => 0,
    }
}

/// Which plans can be followed, check by check: the strategies are named, no
/// bound lies below the one it bounds, no length is zero that has to be some, a
/// native cache takes at most four tokens, and an extension needs both kinds of
/// proposals.
pub proof fn law_plans_are_followed_exactly_if(config: SpeculativeDecodeConfig)
    ensures
        config.first_problem() is None <==> {
            &&& trimmed(config.requested_strategy@).len() > 0
            &&& trimmed(config.effective_strategy@).len() > 0
            &&& config.native_mtp.min_draft_tokens <= config.native_mtp.max_draft_tokens
            &&& config.ngram matches Some(ngram) ==> {
                &&& 1 <= ngram.min_ngram <= ngram.max_ngram
                &&& ngram.max_proposal_tokens >= ngram.min_ngram
                &&& ngram.kind == NgramProposerKind::Cache ==> ngram.max_ngram <= 4
            }
            &&& config.extension matches Some(extension) ==> {
                &&& config.native_mtp.enabled
                &&& config.ngram is Some
                &&& 1 <= extension.initial_tokens <= extension.max_tokens
            }
            &&& 1 <= config.verify_window.min_tokens <= config.verify_window.max_tokens
            &&& config.verify_window.pipeline_depth >= 1
        },
{
}

/// Each problem is told as what it is.
pub proof fn law_problems_are_told_as_they_are(config: SpeculativeDecodeConfig)
    ensures
        config.first_problem() matches Some(problem) ==> match problem {
            SpeculativeConfigError::EmptyStrategy => trimmed(config.requested_strategy@).len() == 0
                || trimmed(config.effective_strategy@).len() == 0,
            SpeculativeConfigError::NativeMtpDraftTokens => config.native_mtp.min_draft_tokens
                > config.native_mtp.max_draft_tokens,
            SpeculativeConfigError::NgramBounds => config.ngram matches Some(ngram) && (
            ngram.min_ngram == 0 || ngram.min_ngram > ngram.max_ngram || ngram.max_proposal_tokens
                < ngram.min_ngram),
            SpeculativeConfigError::CacheNgramLimit => config.ngram matches Some(ngram)
                && ngram.kind == NgramProposerKind::Cache && ngram.max_ngram > 4,
            SpeculativeConfigError::ExtensionWithoutProposers => config.extension is Some && (
            !config.native_mtp.enabled || config.ngram is None),
            SpeculativeConfigError::ExtensionBounds => config.extension matches Some(extension) && (
            extension.initial_tokens == 0 || extension.initial_tokens > extension.max_tokens),
            SpeculativeConfigError::VerifyWindowBounds => config.verify_window.min_tokens == 0
                || config.verify_window.min_tokens > config.verify_window.max_tokens
                || config.verify_window.pipeline_depth == 0,
        },
        trimmed(config.requested_strategy@).len() == 0 || trimmed(config.effective_strategy@).len()
            == 0 ==> config.first_problem() == Some(SpeculativeConfigError::EmptyStrategy),
{
}

} // verus!
