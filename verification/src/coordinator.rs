use vstd::prelude::*;
use crate::engine::{EngineOutput, SecureComputeEngine};
use crate::errors::AggregatorError;
use crate::registry::{
    has_session, lemma_session_index_unique, registry_wf, session_index, Session, SessionRegistry,
    SessionView,
};
use crate::sampler::{sample, sample_by_ratio, sample_size_spec, sample_spec, SamplingRatio};
use crate::selector::{resolve, DispatchTarget};

verus! {

/// A request to start a new federated-learning session.
#[derive(Debug)]
pub struct StartRequest {
    pub fl_id: u32,
    /// The registered client pool; every round samples from it.
    pub client_ids: Vec<u32>,
    /// Differential-privacy noise scale, as a raw IEEE-754 single-precision
    /// pattern the core carries through to the engine uninterpreted.
    pub sigma_bits: u32,
    /// Differential-privacy clipping bound, carried like `sigma_bits`.
    pub clipping_bits: u32,
    pub sampling_ratio: SamplingRatio,
    pub aggregation_alg: u32,
}

/// What a successful Start reports back: the session, its first round, and
/// the clients sampled for that round.
#[derive(Debug)]
pub struct StartResponse {
    pub fl_id: u32,
    pub round: u32,
    pub client_ids: Vec<u32>,
}

/// A request to aggregate the encrypted updates of one round.
#[derive(Debug)]
pub struct AggregateRequest {
    pub fl_id: u32,
    /// The round being aggregated; must be the session's current round.
    pub round: u32,
    /// The clients participating in this round.
    pub client_ids: Vec<u32>,
    /// The encrypted model updates, opaque to the core.
    pub encrypted_parameters: Vec<u8>,
    pub aggregation_alg: u32,
    /// For the client-size-optimized algorithm: the subset size it works
    /// over; never larger than `client_ids.len()`.
    pub optimal_num_of_clients: usize,
}

/// What a successful Aggregate reports back: the engine's outputs, and the
/// next round with its fresh sample.
#[derive(Debug)]
pub struct AggregateResponse {
    /// Updated model parameters as the engine returned them, one raw IEEE-754
    /// single-precision pattern per parameter.
    pub updated_parameter_bits: Vec<u32>,
    /// Per-phase execution-time measurements as the engine returned them.
    pub phase_time_bits: Vec<u32>,
    /// Wall-clock duration of the engine's aggregation call, in microseconds.
    pub execution_time_micros: u64,
    /// The clients sampled for the next round.
    pub client_ids: Vec<u32>,
    /// The next round number.
    pub round: u32,
}

/// The session a Start request creates, before its first aggregation.
pub open spec fn initial_session_view(
    req: StartRequest,
    verbose: bool,
    dp_enabled: bool,
    sampled: Seq<u32>,
) -> SessionView {
    SessionView {
        fl_id: req.fl_id,
        clients: req.client_ids@,
        sigma_bits: req.sigma_bits,
        clipping_bits: req.clipping_bits,
        dp_enabled,
        sampling_ratio: req.sampling_ratio,
        aggregation_alg: req.aggregation_alg,
        verbose,
        round: 0,
        sampled_clients: sampled,
    }
}

/// An Aggregate request for `(fl_id, round)` is accepted against sessions `s`:
/// the session is live and `round` is its current round.
pub open spec fn aggregate_accepts(s: Seq<SessionView>, fl_id: u32, round: u32) -> bool {
    &&& has_session(s, fl_id)
    &&& s[session_index(s, fl_id)].round == round
}

/// The sessions after one successful aggregation of `fl_id`: its round is one
/// higher, its current sample is `sampled`, and everything else — including
/// the registered pool — is unchanged.
pub open spec fn advanced_sessions(s: Seq<SessionView>, fl_id: u32, sampled: Seq<u32>) -> Seq<
    SessionView,
> {
    let i = session_index(s, fl_id);
    s.update(
        i,
        SessionView { round: (s[i].round + 1) as u32, sampled_clients: sampled, ..s[i] },
    )
}

/// Serialized Aggregate calls cannot reuse a round: after a successful
/// aggregation of round `round`, the session's current round is `round + 1`
/// and its registered pool is unchanged, so a second Aggregate naming the
/// same round is no longer accepted — it observes the round the first call
/// produced. Every other session is untouched by the step.
pub proof fn lemma_aggregation_serializes(
    pre: Seq<SessionView>,
    fl_id: u32,
    round: u32,
    sampled: Seq<u32>,
)
    requires
        registry_wf(pre),
        aggregate_accepts(pre, fl_id, round),
        round < u32::MAX,
    ensures
        ({
            let post = advanced_sessions(pre, fl_id, sampled);
            &&& has_session(post, fl_id)
            &&& post[session_index(post, fl_id)].round == round + 1
            &&& post[session_index(post, fl_id)].clients == pre[session_index(
                pre,
                fl_id,
            )].clients
            &&& !aggregate_accepts(post, fl_id, round)
            &&& aggregate_accepts(post, fl_id, (round + 1) as u32)
            &&& forall|j: int|
                0 <= j < pre.len() && j != session_index(pre, fl_id) ==> post[j] == #[trigger] pre[j]
        }),
{
    let i = session_index(pre, fl_id);
    assert(0 <= i < pre.len() && pre[i].fl_id == fl_id);
    let post = advanced_sessions(pre, fl_id, sampled);
    assert(post[i].fl_id == fl_id);
    assert(has_session(post, fl_id));
    assert forall|a: int, b: int| 0 <= a < b < post.len() implies post[a].fl_id != post[b].fl_id by {
        assert(post[a].fl_id == pre[a].fl_id);
        assert(post[b].fl_id == pre[b].fl_id);
    }
    lemma_session_index_unique(post, fl_id, i);
}

/// Drives the session lifecycle `start -> aggregate -> aggregate -> ...`,
/// holding exclusive access to the registry for the duration of each call:
/// calls for one session are thereby serialized, and at most one Aggregate
/// per session is in flight at a time.
pub struct Coordinator {
    registry: SessionRegistry,
    num_of_parameters: usize,
    num_of_sparse_parameters: usize,
    verbose: bool,
    dp_enabled: bool,
}

impl Coordinator {
    /// The live sessions, as the registry holds them.
    pub closed spec fn sessions(self) -> Seq<SessionView> {
        self.registry@
    }

    /// The coordinator is well formed when its registry is.
    pub closed spec fn wf(self) -> bool {
        self.registry.wf()
    }

    /// The fixed service configuration: dense and sparse model-parameter
    /// counts handed to every engine aggregation call, the verbose flag, and
    /// whether differential privacy is enabled.
    pub closed spec fn config(self) -> (usize, usize, bool, bool) {
        (self.num_of_parameters, self.num_of_sparse_parameters, self.verbose, self.dp_enabled)
    }

    /// A coordinator over an empty registry.
    pub fn new(
        num_of_parameters: usize,
        num_of_sparse_parameters: usize,
        verbose: bool,
        dp_enabled: bool,
    ) -> (r: Self)
        ensures
            r.wf(),
            r.sessions() == Seq::<SessionView>::empty(),
            r.config() == (num_of_parameters, num_of_sparse_parameters, verbose, dp_enabled),
    {
        Coordinator {
            registry: SessionRegistry::new(),
            num_of_parameters,
            num_of_sparse_parameters,
            verbose,
            dp_enabled,
        }
    }

    /// Starts a session: registers it, samples the round-0 participants from
    /// the full client pool, and announces the session and its first round to
    /// the engine.
    ///
    /// Success is owed whenever the `fl_id` is fresh and the pool is nonempty,
    /// unless an engine call reports an abnormal status. The round-0 sample
    /// has exactly `floor(sampling_ratio * |client_ids|)` participants, each
    /// drawn from `client_ids`. On any failure the registry is unchanged: a
    /// session is registered only after every engine call of the Start has
    /// succeeded.
    pub fn start<E: SecureComputeEngine>(
        &mut self,
        engine: &mut E,
        req: &StartRequest,
    ) -> (r: Result<StartResponse, AggregatorError>)
        requires
            old(self).wf(),
            req.sampling_ratio.wf(),
        ensures
            final(self).wf(),
            final(self).config() == old(self).config(),
            match r {
                Ok(resp) => {
                    &&& !has_session(old(self).sessions(), req.fl_id)
                    &&& req.client_ids@.len() > 0
                    &&& resp.fl_id == req.fl_id
                    &&& resp.round == 0
                    &&& resp.client_ids@ == sample_spec(
                        req.client_ids@,
                        sample_size_spec(req.sampling_ratio, req.client_ids@.len()),
                        0,
                    )
                    &&& resp.client_ids@.len() == sample_size_spec(
                        req.sampling_ratio,
                        req.client_ids@.len(),
                    )
                    &&& forall|j: int|
                        0 <= j < resp.client_ids@.len() ==> req.client_ids@.contains(
                            #[trigger] resp.client_ids@[j],
                        )
                    &&& final(self).sessions() == old(self).sessions().push(
                        initial_session_view(
                            *req,
                            old(self).config().2,
                            old(self).config().3,
                            resp.client_ids@,
                        ),
                    )
                },
                Err(AggregatorError::DuplicateSession) => {
                    &&& has_session(old(self).sessions(), req.fl_id)
                    &&& final(self).sessions() == old(self).sessions()
                },
                Err(AggregatorError::EmptyPool) => {
                    &&& !has_session(old(self).sessions(), req.fl_id)
                    &&& req.client_ids@.len() == 0
                    &&& final(self).sessions() == old(self).sessions()
                },
                Err(AggregatorError::EngineFailure(_)) => {
                    &&& !has_session(old(self).sessions(), req.fl_id)
                    &&& req.client_ids@.len() > 0
                    &&& final(self).sessions() == old(self).sessions()
                },
                Err(_) => false,
            },
    {
        match self.registry.find(req.fl_id) {
            Some(i) => {
                proof {
                    assert(has_session(self.registry@, req.fl_id));
                }
                return Err(AggregatorError::DuplicateSession);
            },
            None => {},
        }
        let sampled = match sample_by_ratio(&req.client_ids, req.sampling_ratio, 0) {
            Ok(sampled) => sampled,
            Err(e) => {
                return Err(e);
            },
        };
        let sample_size = sampled.len();
        match engine.session_init(
            req.fl_id,
            &req.client_ids,
            req.sigma_bits,
            req.clipping_bits,
            req.sampling_ratio,
            req.aggregation_alg,
            self.verbose,
            self.dp_enabled,
        ) {
            Ok(()) => {},
            Err(code) => {
                return Err(AggregatorError::EngineFailure(code));
            },
        }
        match engine.round_begin(req.fl_id, 0, sample_size) {
            Ok(()) => {},
            Err(code) => {
                return Err(AggregatorError::EngineFailure(code));
            },
        }
        let session = Session {
            fl_id: req.fl_id,
            clients: copy_ids(&req.client_ids),
            sigma_bits: req.sigma_bits,
            clipping_bits: req.clipping_bits,
            dp_enabled: self.dp_enabled,
            sampling_ratio: req.sampling_ratio,
            aggregation_alg: req.aggregation_alg,
            verbose: self.verbose,
            round: 0,
            sampled_clients: copy_ids(&sampled),
        };
        match self.registry.create(session) {
            Ok(()) => {},
            Err(_) => {
                proof {
                    assert(false);
                }
                return Err(AggregatorError::DuplicateSession);
            },
        }
        proof {
            assert(self.sessions() =~= old(self).sessions().push(
                initial_session_view(*req, self.verbose, self.dp_enabled, sampled@),
            ));
        }
        Ok(StartResponse { fl_id: req.fl_id, round: 0, client_ids: sampled })
    }

    /// Aggregates one round: validates the request, dispatches the matched
    /// engine aggregation call, announces the next round to the engine, and
    /// only then advances the session — round increment and sample
    /// replacement are one atomic registry step.
    ///
    /// The next round's sample has as many participants as this call
    /// submitted, and is drawn fresh from the session's registered pool —
    /// not from the sample of the round just aggregated. Every precondition
    /// error is raised before any engine call; on any failure the registry is
    /// unchanged, so the round number never moves on a failed call.
    pub fn aggregate<E: SecureComputeEngine>(
        &mut self,
        engine: &mut E,
        req: &AggregateRequest,
    ) -> (r: Result<AggregateResponse, AggregatorError>)
        requires
            old(self).wf(),
        ensures
            final(self).wf(),
            final(self).config() == old(self).config(),
            match r {
                Ok(resp) => {
                    let pre = old(self).sessions();
                    let i = session_index(pre, req.fl_id);
                    &&& req.optimal_num_of_clients <= req.client_ids@.len()
                    &&& aggregate_accepts(pre, req.fl_id, req.round)
                    &&& req.round < u32::MAX
                    &&& resp.round == req.round + 1
                    &&& resp.client_ids@ == sample_spec(
                        pre[i].clients,
                        req.client_ids@.len(),
                        (req.round + 1) as nat,
                    )
                    &&& resp.client_ids@.len() == req.client_ids@.len()
                    &&& forall|j: int|
                        0 <= j < resp.client_ids@.len() ==> pre[i].clients.contains(
                            #[trigger] resp.client_ids@[j],
                        )
                    &&& final(self).sessions() == advanced_sessions(
                        pre,
                        req.fl_id,
                        resp.client_ids@,
                    )
                },
                Err(AggregatorError::InvalidOptimalCount) => {
                    &&& req.optimal_num_of_clients > req.client_ids@.len()
                    &&& final(self).sessions() == old(self).sessions()
                },
                Err(AggregatorError::UnknownSession) => {
                    &&& req.optimal_num_of_clients <= req.client_ids@.len()
                    &&& !has_session(old(self).sessions(), req.fl_id)
                    &&& final(self).sessions() == old(self).sessions()
                },
                Err(AggregatorError::RoundMismatch) => {
                    &&& req.optimal_num_of_clients <= req.client_ids@.len()
                    &&& has_session(old(self).sessions(), req.fl_id)
                    &&& !aggregate_accepts(old(self).sessions(), req.fl_id, req.round)
                    &&& final(self).sessions() == old(self).sessions()
                },
                Err(AggregatorError::RoundTooLarge) => {
                    &&& req.optimal_num_of_clients <= req.client_ids@.len()
                    &&& aggregate_accepts(old(self).sessions(), req.fl_id, req.round)
                    &&& req.round == u32::MAX
                    &&& final(self).sessions() == old(self).sessions()
                },
                Err(AggregatorError::EngineFailure(_)) => {
                    &&& req.optimal_num_of_clients <= req.client_ids@.len()
                    &&& aggregate_accepts(old(self).sessions(), req.fl_id, req.round)
                    &&& req.round < u32::MAX
                    &&& final(self).sessions() == old(self).sessions()
                },
                Err(_) => false,
            },
    {
        let target = match resolve(
            req.aggregation_alg,
            req.client_ids.len(),
            req.optimal_num_of_clients,
        ) {
            Ok(t) => t,
            Err(e) => {
                return Err(e);
            },
        };
        let i = match self.registry.find(req.fl_id) {
            Some(i) => i,
            None => {
                return Err(AggregatorError::UnknownSession);
            },
        };
        proof {
            lemma_session_index_unique(self.registry@, req.fl_id, i as int);
        }
        let current_round = self.registry.session_at(i).round;
        if current_round != req.round {
            proof {
                assert(has_session(self.registry@, req.fl_id));
            }
            return Err(AggregatorError::RoundMismatch);
        }
        if req.round == u32::MAX {
            return Err(AggregatorError::RoundTooLarge);
        }
        let engine_result: Result<EngineOutput, u32> = match target {
            DispatchTarget::Standard => engine.aggregate(
                req.fl_id,
                req.round,
                &req.client_ids,
                &req.encrypted_parameters,
                self.num_of_parameters,
                self.num_of_sparse_parameters,
                req.aggregation_alg,
            ),
            DispatchTarget::Optimized => engine.aggregate_client_size_optimized(
                req.fl_id,
                req.round,
                req.optimal_num_of_clients,
                &req.client_ids,
                &req.encrypted_parameters,
                self.num_of_parameters,
                self.num_of_sparse_parameters,
                req.aggregation_alg,
            ),
        };
        let output = match engine_result {
            Ok(output) => output,
            Err(code) => {
                return Err(AggregatorError::EngineFailure(code));
            },
        };
        let next_round = req.round + 1;
        let next_sample_size = req.client_ids.len();
        let new_sampled = sample(
            &self.registry.session_at(i).clients,
            next_sample_size,
            next_round as usize,
        );
        match engine.round_begin(req.fl_id, next_round, next_sample_size) {
            Ok(()) => {},
            Err(code) => {
                return Err(AggregatorError::EngineFailure(code));
            },
        }
        match self.registry.advance_round(req.fl_id, copy_ids(&new_sampled)) {
            Ok(_) => {},
            Err(_) => {
                proof {
                    assert(false);
                }
                return Err(AggregatorError::UnknownSession);
            },
        }
        Ok(
            AggregateResponse {
                updated_parameter_bits: output.updated_parameter_bits,
                phase_time_bits: output.phase_time_bits,
                execution_time_micros: output.elapsed_micros,
                client_ids: new_sampled,
                round: next_round,
            },
        )
    }
}

/// A plain copy of a client-identifier list.
fn copy_ids(v: &Vec<u32>) -> (r: Vec<u32>)
    ensures
        r@ == v@,
{
    let mut out: Vec<u32> = Vec::new();
    let mut i: usize = 0;
    while i < v.len()
        invariant
            i <= v.len(),
            out@ == v@.subrange(0, i as int),
        decreases v.len() - i,
    {
        out.push(v[i]);
        proof {
            assert(out@ =~= v@.subrange(0, i + 1 as int));
        }
        i += 1;
    }
    proof {
        assert(out@ =~= v@);
    }
    out
}

} // verus!
