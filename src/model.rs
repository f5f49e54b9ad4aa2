//! A compartment model's trajectory and the lifecycle that fills it:
//! uninitialized, then initialized, then run to completion.
use vstd::prelude::*;

use crate::integrate::{
    Stages, Stride, accepts_all, combine_accepts_all, fill_euler, fill_rk4, fresh_states,
    fresh_trajectory, is_euler_trajectory, is_rk4_trajectory,
};

verus! {

/// Where a model stands in its lifecycle.
#[derive(Clone, Copy, Debug, PartialEq, Eq, Structural)]
pub enum Phase {
    /// No trajectory has been allocated.
    Uninitialized,
    /// Index 0 holds the initial condition and every later index is zero.
    Initialized,
    /// Every index after the first has been filled by an integrator.
    RunComplete,
}

/// The integration scheme that fills a trajectory.
#[derive(Clone, Copy, Debug, PartialEq, Eq, Structural)]
pub enum Method {
    /// Explicit first-order Euler (finite-difference) steps.
    Euler,
    /// Classical fourth-order Runge-Kutta steps.
    Rk4,
}

/// Why a model refused a request.
#[derive(Clone, Copy, Debug, PartialEq, Eq, Structural)]
pub enum ModelError {
    /// A trajectory needs at least one entry, for the initial condition.
    EmptyHorizon,
    /// A run was requested before the trajectory was initialized.
    NotInitialized,
    /// A run was requested on a trajectory that a run already filled; it has
    /// to be initialized again first.
    AlreadyRun,
}

/// What a model holds: its phase and one state per time index.
pub ghost struct ModelView<S> {
    pub phase: Phase,
    pub states: Seq<S>,
}

/// What `init_popf` returns for a horizon of `n` entries.
pub open spec fn init_result(n: nat) -> Result<(), ModelError> {
    if n == 0 {
        Err(ModelError::EmptyHorizon)
    } else {
        Ok(())
    }
}

/// The model after `init_popf(n, zero, initial)` on `before`: unchanged when
/// the horizon is empty, else freshly initialized whatever it held.
pub open spec fn after_init<S>(before: ModelView<S>, n: nat, zero: S, initial: S) -> ModelView<S> {
    if n == 0 {
        before
    } else {
        ModelView { phase: Phase::Initialized, states: fresh_states(n, zero, initial) }
    }
}

/// What a run returns from a model in phase `p`.
pub open spec fn run_result(p: Phase) -> Result<(), ModelError> {
    match p {
        Phase::Uninitialized => Err(ModelError::NotInitialized),
        Phase::Initialized => Ok(()),
        Phase::RunComplete => Err(ModelError::AlreadyRun),
    }
}

/// A run from `before` that succeeded and produced `after`: the phase is
/// complete, the length and the initial condition are kept.
pub open spec fn run_frame<S>(before: ModelView<S>, after: ModelView<S>) -> bool {
    &&& after.phase == Phase::RunComplete
    &&& after.states.len() == before.states.len()
    &&& after.states[0] == before.states[0]
}

/// A compartment model's trajectory, one state `S` per time index.
pub struct Model<S> {
    phase: Phase,
    states: Vec<S>,
}

impl<S> View for Model<S> {
    type V = ModelView<S>;

    closed spec fn view(&self) -> ModelView<S> {
        ModelView { phase: self.phase, states: self.states@ }
    }
}

impl<S> Model<S> {
    /// An initialized or completed model holds at least the initial
    /// condition; an uninitialized one holds nothing.
    #[verifier::type_invariant]
    spec fn inv(&self) -> bool {
        if self.phase == Phase::Uninitialized {
            self.states@.len() == 0
        } else {
            self.states@.len() > 0
        }
    }
}

impl<S: Copy> Model<S> {
    /// An empty, uninitialized model.
    pub fn new() -> (m: Model<S>)
        ensures
            m@ == (ModelView::<S> { phase: Phase::Uninitialized, states: Seq::empty() }),
    {
        Model { phase: Phase::Uninitialized, states: Vec::new() }
    }

    /// Allocates a trajectory of `n_steps` entries, zero-filled, and writes
    /// the initial condition at index 0. Whatever the model held before, a
    /// run included, is discarded. An empty horizon is refused and leaves the
    /// model as it was.
    pub fn init_popf(&mut self, n_steps: usize, zero: S, initial: S) -> (r: Result<(), ModelError>)
        ensures
            r == init_result(n_steps as nat),
            final(self)@ == after_init(old(self)@, n_steps as nat, zero, initial),
    {
        if n_steps == 0 {
            return Err(ModelError::EmptyHorizon);
        }
        let states = fresh_trajectory(n_steps, zero, initial);
        *self = Model { phase: Phase::Initialized, states };
        Ok(())
    }

    /// Fills the trajectory with explicit Euler steps: every index after the
    /// first is `x[t-1] + h·f(x[t-1])`. Refused, with the model unchanged,
    /// before initialization and after a completed run.
    pub fn run_euler<F: Fn(S) -> S, G: Fn(S, S, Stride) -> S>(
        &mut self,
        deriv: &F,
        advance: &G,
    ) -> (r: Result<(), ModelError>)
        requires
            accepts_all(*deriv, *advance),
        ensures
            r == run_result(old(self)@.phase),
            r is Err ==> final(self)@ == old(self)@,
            r is Ok ==> run_frame(old(self)@, final(self)@),
            r is Ok ==> is_euler_trajectory(*deriv, *advance, final(self)@.states),
    {
        proof {
            use_type_invariant(&*self);
        }
        match self.phase {
            Phase::Uninitialized => Err(ModelError::NotInitialized),
            Phase::RunComplete => Err(ModelError::AlreadyRun),
            Phase::Initialized => {
                let mut taken = Model::new();
                std::mem::swap(self, &mut taken);
                let Model { phase: _, mut states } = taken;
                fill_euler(&mut states, deriv, advance);
                *self = Model { phase: Phase::RunComplete, states };
                Ok(())
            },
        }
    }

    /// Fills the trajectory with classical Runge-Kutta steps: every index
    /// after the first is `x[t-1] + (h/6)·(k1 + 2·k2 + 2·k3 + k4)`, with the
    /// stages taken at consistent intermediate points. Refused, with the model
    /// unchanged, before initialization and after a completed run.
    pub fn run_rk4<F: Fn(S) -> S, G: Fn(S, S, Stride) -> S, C: Fn(S, Stages<S>) -> S>(
        &mut self,
        deriv: &F,
        advance: &G,
        combine: &C,
    ) -> (r: Result<(), ModelError>)
        requires
            accepts_all(*deriv, *advance),
            combine_accepts_all(*combine),
        ensures
            r == run_result(old(self)@.phase),
            r is Err ==> final(self)@ == old(self)@,
            r is Ok ==> run_frame(old(self)@, final(self)@),
            r is Ok ==> is_rk4_trajectory(*deriv, *advance, *combine, final(self)@.states),
    {
        proof {
            use_type_invariant(&*self);
        }
        match self.phase {
            Phase::Uninitialized => Err(ModelError::NotInitialized),
            Phase::RunComplete => Err(ModelError::AlreadyRun),
            Phase::Initialized => {
                let mut taken = Model::new();
                std::mem::swap(self, &mut taken);
                let Model { phase: _, mut states } = taken;
                fill_rk4(&mut states, deriv, advance, combine);
                *self = Model { phase: Phase::RunComplete, states };
                Ok(())
            },
        }
    }

    /// Fills the trajectory with the scheme `method` names; see `run_euler`
    /// and `run_rk4`. The Euler scheme does not call `combine`.
    pub fn run<F: Fn(S) -> S, G: Fn(S, S, Stride) -> S, C: Fn(S, Stages<S>) -> S>(
        &mut self,
        method: Method,
        deriv: &F,
        advance: &G,
        combine: &C,
    ) -> (r: Result<(), ModelError>)
        requires
            accepts_all(*deriv, *advance),
            combine_accepts_all(*combine),
        ensures
            r == run_result(old(self)@.phase),
            r is Err ==> final(self)@ == old(self)@,
            r is Ok ==> run_frame(old(self)@, final(self)@),
            r is Ok && method == Method::Euler ==> is_euler_trajectory(
                *deriv,
                *advance,
                final(self)@.states,
            ),
            r is Ok && method == Method::Rk4 ==> is_rk4_trajectory(
                *deriv,
                *advance,
                *combine,
                final(self)@.states,
            ),
    {
        match method {
            Method::Euler => self.run_euler(deriv, advance),
            Method::Rk4 => self.run_rk4(deriv, advance, combine),
        }
    }

    /// The model's phase. Only an uninitialized model has an empty
    /// trajectory.
    pub fn phase(&self) -> (p: Phase)
        ensures
            p == self@.phase,
            p == Phase::Uninitialized <==> self@.states.len() == 0,
    {
        proof {
            use_type_invariant(self);
        }
        self.phase
    }

    /// The trajectory, one state per time index.
    pub fn states(&self) -> (r: &Vec<S>)
        ensures
            r@ == self@.states,
    {
        &self.states
    }
}

/// After a successful `init_popf(n, zero, initial)` the trajectory has
/// exactly `n` entries: the initial condition at index 0 and `zero` at every
/// later index.
pub proof fn lemma_init_popf_shape<S>(before: ModelView<S>, n: nat, zero: S, initial: S)
    requires
        n > 0,
    ensures
        after_init(before, n, zero, initial).phase == Phase::Initialized,
        after_init(before, n, zero, initial).states.len() == n,
        after_init(before, n, zero, initial).states[0] == initial,
        forall|t: int|
            1 <= t < n ==> #[trigger] after_init(before, n, zero, initial).states[t] == zero,
{
}

/// Initializing resets: two models initialized with the same arguments are
/// equal whatever each held before, a completed run included, and a second
/// initialization leaves the model as the first one left it.
pub proof fn lemma_init_popf_resets<S>(
    before: ModelView<S>,
    other: ModelView<S>,
    n: nat,
    zero: S,
    initial: S,
)
    ensures
        after_init(after_init(before, n, zero, initial), n, zero, initial) == after_init(
            before,
            n,
            zero,
            initial,
        ),
        n > 0 ==> after_init(before, n, zero, initial) == after_init(other, n, zero, initial),
{
}

/// A run that follows a successful initialization succeeds and keeps the
/// horizon and the initial condition; a second run is refused until the
/// model is initialized again.
pub proof fn lemma_run_after_init<S>(
    before: ModelView<S>,
    after_run: ModelView<S>,
    n: nat,
    zero: S,
    initial: S,
)
    requires
        n > 0,
        run_frame(after_init(before, n, zero, initial), after_run),
    ensures
        run_result(after_init(before, n, zero, initial).phase) == Ok::<(), ModelError>(()),
        after_run.states.len() == n,
        after_run.states[0] == initial,
        run_result(after_run.phase) == Err::<(), ModelError>(ModelError::AlreadyRun),
{
}

} // verus!
