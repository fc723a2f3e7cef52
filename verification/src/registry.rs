use vstd::prelude::*;
use crate::errors::AggregatorError;
use crate::sampler::SamplingRatio;

verus! {

/// One live federated-learning session.
///
/// `clients` is the registered pool the session was started with; every
/// round's sample is drawn from it. `sampled_clients` is the sample of the
/// current round: it is fixed when the round begins and replaced only when
/// the next round begins. `sigma_bits` and `clipping_bits` carry the
/// differential-privacy parameters as raw IEEE-754 single-precision patterns;
/// the core never interprets them, it only hands them to the engine.
#[derive(Debug)]
pub struct Session {
    pub fl_id: u32,
    pub clients: Vec<u32>,
    pub sigma_bits: u32,
    pub clipping_bits: u32,
    pub dp_enabled: bool,
    pub sampling_ratio: SamplingRatio,
    pub aggregation_alg: u32,
    pub verbose: bool,
    pub round: u32,
    pub sampled_clients: Vec<u32>,
}

/// The mathematical value of a `Session`.
#[verifier::ext_equal]
pub struct SessionView {
    pub fl_id: u32,
    pub clients: Seq<u32>,
    pub sigma_bits: u32,
    pub clipping_bits: u32,
    pub dp_enabled: bool,
    pub sampling_ratio: SamplingRatio,
    pub aggregation_alg: u32,
    pub verbose: bool,
    pub round: u32,
    pub sampled_clients: Seq<u32>,
}

impl SessionView {
    /// A session always has a nonempty registered pool (a Start with an empty
    /// pool is rejected) and a well-formed sampling ratio.
    pub open spec fn wf(self) -> bool {
        &&& self.clients.len() > 0
        &&& self.sampling_ratio.wf()
    }
}

impl View for Session {
    type V = SessionView;

    open spec fn view(&self) -> SessionView {
        SessionView {
            fl_id: self.fl_id,
            clients: self.clients@,
            sigma_bits: self.sigma_bits,
            clipping_bits: self.clipping_bits,
            dp_enabled: self.dp_enabled,
            sampling_ratio: self.sampling_ratio,
            aggregation_alg: self.aggregation_alg,
            verbose: self.verbose,
            round: self.round,
            sampled_clients: self.sampled_clients@,
        }
    }
}

/// Some session in `s` carries the identifier `fl_id`.
pub open spec fn has_session(s: Seq<SessionView>, fl_id: u32) -> bool {
    exists|i: int| 0 <= i < s.len() && s[i].fl_id == fl_id
}

/// The index of the session carrying `fl_id`; meaningful under
/// `has_session(s, fl_id)`, and unique under `registry_wf(s)`.
pub open spec fn session_index(s: Seq<SessionView>, fl_id: u32) -> int {
    choose|i: int| 0 <= i < s.len() && s[i].fl_id == fl_id
}

/// No two sessions share an identifier.
pub open spec fn distinct_ids(s: Seq<SessionView>) -> bool {
    forall|i: int, j: int| 0 <= i < j < s.len() ==> s[i].fl_id != s[j].fl_id
}

/// The registry invariant: identifiers are unique and every session is
/// well formed.
pub open spec fn registry_wf(s: Seq<SessionView>) -> bool {
    &&& distinct_ids(s)
    &&& forall|i: int| 0 <= i < s.len() ==> (#[trigger] s[i]).wf()
}

/// Under distinct identifiers, any index holding `fl_id` is the session index.
pub proof fn lemma_session_index_unique(s: Seq<SessionView>, fl_id: u32, i: int)
    requires
        distinct_ids(s),
        0 <= i < s.len(),
        s[i].fl_id == fl_id,
    ensures
        has_session(s, fl_id),
        session_index(s, fl_id) == i,
{
    assert(has_session(s, fl_id));
    let j = session_index(s, fl_id);
    assert(0 <= j < s.len() && s[j].fl_id == fl_id);
}

/// The single source of truth for session state and round numbering: no other
/// component advances a session's round.
pub struct SessionRegistry {
    sessions: Vec<Session>,
}

impl View for SessionRegistry {
    type V = Seq<SessionView>;

    closed spec fn view(&self) -> Seq<SessionView> {
        self.sessions@.map_values(|s: Session| s@)
    }
}

impl SessionRegistry {
    /// The registry invariant holds of the sessions it stores.
    pub open spec fn wf(self) -> bool {
        registry_wf(self@)
    }

    /// An empty registry, as a service constructs at start.
    pub fn new() -> (r: Self)
        ensures
            r.wf(),
            r@ == Seq::<SessionView>::empty(),
    {
        let r = SessionRegistry { sessions: Vec::new() };
        proof {
            assert(r@ =~= Seq::<SessionView>::empty());
        }
        r
    }

    /// The index of the session carrying `fl_id`, if it is live.
    pub fn find(&self, fl_id: u32) -> (r: Option<usize>)
        ensures
            match r {
                Some(i) => i < self@.len() && self@[i as int].fl_id == fl_id,
                None => !has_session(self@, fl_id),
            },
    {
        let n = self.sessions.len();
        let mut i: usize = 0;
        while i < n
            invariant
                i <= n == self.sessions@.len(),
                self@.len() == self.sessions@.len(),
                forall|j: int| 0 <= j < self@.len() ==> self@[j] == self.sessions@[j]@,
                forall|j: int| 0 <= j < i ==> self@[j].fl_id != fl_id,
            decreases n - i,
        {
            if self.sessions[i].fl_id == fl_id {
                return Some(i);
            }
            i += 1;
        }
        None
    }

    /// Borrows the session at a known index.
    pub fn session_at(&self, i: usize) -> (s: &Session)
        requires
            i < self@.len(),
        ensures
            s@ == self@[i as int],
    {
        &self.sessions[i]
    }

    /// Registers a new session; fails with `DuplicateSession`, and changes
    /// nothing, if its `fl_id` is already live.
    pub fn create(&mut self, session: Session) -> (r: Result<(), AggregatorError>)
        requires
            old(self).wf(),
            session@.wf(),
        ensures
            final(self).wf(),
            match r {
                Ok(()) => !has_session(old(self)@, session@.fl_id) && final(self)@ == old(
                    self,
                )@.push(session@),
                Err(e) => {
                    &&& e == AggregatorError::DuplicateSession
                    &&& has_session(old(self)@, session@.fl_id)
                    &&& final(self)@ == old(self)@
                },
            },
    {
        match self.find(session.fl_id) {
            Some(_) => Err(AggregatorError::DuplicateSession),
            None => {
                let ghost pre = self@;
                self.sessions.push(session);
                proof {
                    assert(self@ =~= pre.push(session@));
                    assert forall|i: int, j: int| 0 <= i < j < self@.len() implies self@[i].fl_id
                        != self@[j].fl_id by {
                        if j == self@.len() - 1 {
                            assert(self@[i] == pre[i]);
                        }
                    }
                }
                Ok(())
            },
        }
    }

    /// Borrows the session carrying `fl_id`; fails with `UnknownSession` if
    /// it was never started (or was torn down).
    pub fn get(&self, fl_id: u32) -> (r: Result<&Session, AggregatorError>)
        requires
            self.wf(),
        ensures
            match r {
                Ok(s) => {
                    &&& has_session(self@, fl_id)
                    &&& s@ == self@[session_index(self@, fl_id)]
                    &&& s@.fl_id == fl_id
                },
                Err(e) => e == AggregatorError::UnknownSession && !has_session(self@, fl_id),
            },
    {
        match self.find(fl_id) {
            Some(i) => {
                proof {
                    lemma_session_index_unique(self@, fl_id, i as int);
                }
                Ok(&self.sessions[i])
            },
            None => Err(AggregatorError::UnknownSession),
        }
    }

    /// Atomically increments the round of the session carrying `fl_id` and
    /// replaces its current sample; fails with `UnknownSession`, and changes
    /// nothing, if the session is not live. On success the returned round is
    /// the new current round.
    pub fn advance_round(&mut self, fl_id: u32, new_sampled: Vec<u32>) -> (r: Result<
        u32,
        AggregatorError,
    >)
        requires
            old(self).wf(),
            has_session(old(self)@, fl_id) ==> old(self)@[session_index(old(self)@, fl_id)].round
                < u32::MAX,
        ensures
            final(self).wf(),
            match r {
                Ok(round) => {
                    let i = session_index(old(self)@, fl_id);
                    &&& has_session(old(self)@, fl_id)
                    &&& round == old(self)@[i].round + 1
                    &&& final(self)@ == old(self)@.update(
                        i,
                        SessionView { round, sampled_clients: new_sampled@, ..old(self)@[i] },
                    )
                },
                Err(e) => {
                    &&& e == AggregatorError::UnknownSession
                    &&& !has_session(old(self)@, fl_id)
                    &&& final(self)@ == old(self)@
                },
            },
    {
        match self.find(fl_id) {
            Some(i) => {
                proof {
                    lemma_session_index_unique(self@, fl_id, i as int);
                }
                let ghost pre = self@;
                let new_round = self.sessions[i].round + 1;
                let session = &mut self.sessions[i];
                session.round = new_round;
                session.sampled_clients = new_sampled;
                proof {
                    let target = SessionView {
                        round: new_round,
                        sampled_clients: new_sampled@,
                        ..pre[i as int]
                    };
                    assert(self@ =~= pre.update(i as int, target));
                    assert forall|a: int, b: int| 0 <= a < b < self@.len() implies self@[a].fl_id
                        != self@[b].fl_id by {
                        assert(self@[a].fl_id == pre[a].fl_id);
                        assert(self@[b].fl_id == pre[b].fl_id);
                    }
                }
                Ok(new_round)
            },
            None => Err(AggregatorError::UnknownSession),
        }
    }
}

} // verus!
