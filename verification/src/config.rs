use vstd::prelude::*;

use crate::error::RenderingError;

verus! {

/// The observable attributes of one graphics configuration advertised by the
/// platform display: whether it supports transparency (the platform may leave
/// this unanswered) and its anti-aliasing sample count.
#[derive(Clone, Copy, Debug, PartialEq, Eq)]
pub struct GraphicsConfig {
    pub supports_transparency: Option<bool>,
    pub num_samples: u8,
}

impl GraphicsConfig {
    /// Transparency support, with an unknown answer counted as unsupported.
    pub open spec fn transparent(&self) -> bool {
        self.supports_transparency == Some(true)
    }
}

/// Whether the selector switches from the best configuration seen so far to
/// a new candidate: the candidate wins if it supports transparency and the
/// current best does not, or if it has strictly more samples. On a tie the
/// earlier-seen configuration is kept.
pub open spec fn candidate_wins(best: GraphicsConfig, candidate: GraphicsConfig) -> bool {
    (candidate.transparent() && !best.transparent()) || candidate.num_samples > best.num_samples
}

/// The configuration a left-to-right fold over `s` selects, starting from
/// `s[0]` and switching to each later candidate exactly when it wins.
pub open spec fn spec_pick_best(s: Seq<GraphicsConfig>) -> GraphicsConfig
    recommends
        s.len() > 0,
    decreases s.len(),
{
    if s.len() <= 1 {
        s[0]
    } else {
        let best = spec_pick_best(s.drop_last());
        if candidate_wins(best, s.last()) {
            s.last()
        } else {
            best
        }
    }
}

fn transparent_flag(config: &GraphicsConfig) -> (r: bool)
    ensures
        r == config.transparent(),
{
    match config.supports_transparency {
        Some(b) => b,
        None => false,
    }
}

/// Pick the single best graphics configuration out of the candidates the
/// platform display enumerated: maximize the anti-aliasing sample count and
/// prefer transparency support, keeping the earlier-seen candidate on ties.
///
/// An empty candidate list is a fatal configuration error, reported as
/// `NoAvailableConfig` rather than any silent default.
pub fn gl_config_picker(configs: &Vec<GraphicsConfig>) -> (r: Result<
    GraphicsConfig,
    RenderingError,
>)
    ensures
        configs@.len() == 0 ==> r == Err::<GraphicsConfig, RenderingError>(
            RenderingError::NoAvailableConfig,
        ),
        configs@.len() > 0 ==> r == Ok::<GraphicsConfig, RenderingError>(
            spec_pick_best(configs@),
        ),
{
    if configs.len() == 0 {
        return Err(RenderingError::NoAvailableConfig);
    }
    let mut best: GraphicsConfig = configs[0];
    let mut i: usize = 1;
    while i < configs.len()
        invariant
            1 <= i <= configs@.len(),
            best == spec_pick_best(configs@.take(i as int)),
        decreases configs@.len() - i,
    {
        let candidate = configs[i];
        let switch = (transparent_flag(&candidate) && !transparent_flag(&best))
            || candidate.num_samples > best.num_samples;
        proof {
            assert(configs@.take(i as int + 1).drop_last() =~= configs@.take(i as int));
            assert(configs@.take(i as int + 1).last() == configs@[i as int]);
        }
        if switch {
            best = candidate;
        }
        i = i + 1;
    }
    proof {
        assert(configs@.take(configs@.len() as int) =~= configs@);
    }
    Ok(best)
}

/// The selector is deterministic: the same ordered candidate sequence always
/// yields the identical chosen configuration.
pub proof fn lemma_pick_best_deterministic(a: Seq<GraphicsConfig>, b: Seq<GraphicsConfig>)
    requires
        a == b,
        a.len() > 0,
    ensures
        spec_pick_best(a) == spec_pick_best(b),
{
}

/// Absent a transparency difference — every candidate answering the same on
/// transparency — the selector is dominated by the sample count: no candidate
/// has strictly more samples than the chosen configuration.
pub proof fn lemma_sample_count_dominance(s: Seq<GraphicsConfig>)
    requires
        s.len() > 0,
        forall|i: int, j: int|
            0 <= i < s.len() && 0 <= j < s.len() ==> s[i].transparent() == s[j].transparent(),
    ensures
        forall|i: int| 0 <= i < s.len() ==> s[i].num_samples <= spec_pick_best(s).num_samples,
    decreases s.len(),
{
    if s.len() > 1 {
        let prefix = s.drop_last();
        assert forall|i: int, j: int|
            0 <= i < prefix.len() && 0 <= j < prefix.len() implies prefix[i].transparent()
            == prefix[j].transparent() by {
            assert(prefix[i] == s[i]);
            assert(prefix[j] == s[j]);
        };
        lemma_sample_count_dominance(prefix);
        lemma_pick_best_is_candidate(prefix);
        let best_prefix = spec_pick_best(prefix);
        let last = s.last();
        let j = choose|j: int| 0 <= j < prefix.len() && prefix[j] == best_prefix;
        assert(best_prefix.transparent() == last.transparent()) by {
            assert(prefix[j] == s[j]);
            assert(s[j].transparent() == s[s.len() - 1].transparent());
        }
        let winner = spec_pick_best(s);
        assert(winner == if candidate_wins(best_prefix, last) {
            last
        } else {
            best_prefix
        });
        assert(winner.num_samples >= best_prefix.num_samples);
        assert(winner.num_samples >= last.num_samples);
        assert forall|i: int| 0 <= i < s.len() implies s[i].num_samples
            <= winner.num_samples by {
            if i < s.len() - 1 {
                assert(prefix[i] == s[i]);
                assert(prefix[i].num_samples <= best_prefix.num_samples);
            }
        };
    }
}

/// Ties keep the earlier-seen configuration: when every candidate carries the
/// same attributes, the selector returns the first.
pub proof fn lemma_first_seen_tie_break(s: Seq<GraphicsConfig>)
    requires
        s.len() > 0,
        forall|i: int| 0 <= i < s.len() ==> #[trigger] s[i] == s[0],
    ensures
        spec_pick_best(s) == s[0],
    decreases s.len(),
{
    if s.len() > 1 {
        let prefix = s.drop_last();
        assert(forall|i: int| 0 <= i < prefix.len() ==> #[trigger] prefix[i] == prefix[0]);
        lemma_first_seen_tie_break(prefix);
        assert(s[s.len() - 1] == s[0]);
        assert(!candidate_wins(s[0], s[0]));
    }
}

/// The selector never invents a configuration: its choice is one of the
/// candidates it was given.
pub proof fn lemma_pick_best_is_candidate(s: Seq<GraphicsConfig>)
    requires
        s.len() > 0,
    ensures
        s.contains(spec_pick_best(s)),
    decreases s.len(),
{
    if s.len() <= 1 {
        assert(s[0] == spec_pick_best(s));
    } else {
        let prefix = s.drop_last();
        lemma_pick_best_is_candidate(prefix);
        if candidate_wins(spec_pick_best(prefix), s.last()) {
            assert(s[s.len() - 1] == spec_pick_best(s));
        } else {
            let j = choose|j: int| 0 <= j < prefix.len() && prefix[j] == spec_pick_best(prefix);
            assert(s[j] == spec_pick_best(s));
        }
    }
}

}
