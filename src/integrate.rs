//! Fixed-step integration of an ODE system over a trajectory buffer.
//!
//! A state `S` holds every compartment at one time index. The arithmetic on
//! states belongs to the caller and reaches the integrators as closures:
//! - `deriv(x)` is the derivative of every compartment at `x`;
//! - `advance(x, k, stride)` is `x + h·k` for a full stride and `x + (h/2)·k`
//!   for a half stride, where `h` is the step size;
//! - `combine(x, st)` is `x + (h/6)·(k1 + 2·k2 + 2·k3 + k4)` over the stages.
//!
//! The contracts state each new entry as the outcome of those closures applied
//! to the previous entry, in the order the scheme prescribes.
use vstd::prelude::*;

verus! {

/// How far one stage moves from the start of a step: the whole step size or
/// half of it.
#[derive(Clone, Copy, Debug, PartialEq, Eq, Structural)]
pub enum Stride {
    Half,
    Full,
}

/// The four derivative evaluations of one Runge-Kutta step, with the three
/// intermediate points at which the last three of them were taken.
#[derive(Clone, Copy, Debug)]
pub struct Stages<S> {
    pub k1: S,
    pub k2: S,
    pub k3: S,
    pub k4: S,
    pub y2: S,
    pub y3: S,
    pub y4: S,
}

/// The stride of stage `i` (0-based) of a classical Runge-Kutta step:
/// half, half, full, full.
pub open spec fn stage_stride(i: int) -> Stride {
    if i < 2 {
        Stride::Half
    } else {
        Stride::Full
    }
}

/// `deriv` and `advance` accept every argument.
pub open spec fn accepts_all<S, F: Fn(S) -> S, G: Fn(S, S, Stride) -> S>(deriv: F, advance: G) -> bool {
    &&& forall|x: S| #[trigger] deriv.requires((x,))
    &&& forall|x: S, k: S, r: Stride| #[trigger] advance.requires((x, k, r))
}

/// `combine` accepts every argument.
pub open spec fn combine_accepts_all<S, C: Fn(S, Stages<S>) -> S>(combine: C) -> bool {
    forall|x: S, st: Stages<S>| #[trigger] combine.requires((x, st))
}

/// `y` is an explicit Euler step from `x`: `y = x + h·f(x)`.
pub open spec fn euler_next<S, F: Fn(S) -> S, G: Fn(S, S, Stride) -> S>(
    deriv: F,
    advance: G,
    x: S,
    y: S,
) -> bool {
    exists|k: S| #[trigger] deriv.ensures((x,), k) && advance.ensures((x, k, Stride::Full), y)
}

/// `st` holds the stages of a classical Runge-Kutta step from `x`: each
/// stage's derivative is taken at the point that the previous stage reached
/// from `x`, with all compartments moved together.
pub open spec fn rk4_stages_of<S, F: Fn(S) -> S, G: Fn(S, S, Stride) -> S>(
    deriv: F,
    advance: G,
    x: S,
    st: Stages<S>,
) -> bool {
    &&& deriv.ensures((x,), st.k1)
    &&& advance.ensures((x, st.k1, stage_stride(0)), st.y2)
    &&& deriv.ensures((st.y2,), st.k2)
    &&& advance.ensures((x, st.k2, stage_stride(1)), st.y3)
    &&& deriv.ensures((st.y3,), st.k3)
    &&& advance.ensures((x, st.k3, stage_stride(2)), st.y4)
    &&& deriv.ensures((st.y4,), st.k4)
}

/// `y` is a classical Runge-Kutta step from `x`:
/// `y = x + (h/6)·(k1 + 2·k2 + 2·k3 + k4)` over consistent stages.
pub open spec fn rk4_next<S, F: Fn(S) -> S, G: Fn(S, S, Stride) -> S, C: Fn(S, Stages<S>) -> S>(
    deriv: F,
    advance: G,
    combine: C,
    x: S,
    y: S,
) -> bool {
    exists|st: Stages<S>| #[trigger] rk4_stages_of(deriv, advance, x, st) && combine.ensures((x, st), y)
}

/// A trajectory of `n` entries: `initial` at index 0 and `zero` at every
/// later index.
pub open spec fn fresh_states<S>(n: nat, zero: S, initial: S) -> Seq<S> {
    Seq::new(n, |t: int| if t == 0 { initial } else { zero })
}

/// Allocates a trajectory of `n` entries, zero-filled, with `initial` at
/// index 0. An empty horizon gives an empty trajectory.
pub fn fresh_trajectory<S: Copy>(n: usize, zero: S, initial: S) -> (tr: Vec<S>)
    ensures
        tr@ == fresh_states(n as nat, zero, initial),
{
    let mut tr: Vec<S> = Vec::with_capacity(n);
    let mut t: usize = 0;
    while t < n
        invariant
            t <= n,
            tr@ =~= fresh_states(t as nat, zero, initial),
        decreases n - t,
    {
        if t == 0 {
            tr.push(initial);
        } else {
            tr.push(zero);
        }
        t += 1;
    }
    tr
}

/// One explicit Euler step from `x`.
pub fn euler_step<S: Copy, F: Fn(S) -> S, G: Fn(S, S, Stride) -> S>(
    deriv: &F,
    advance: &G,
    x: S,
) -> (y: S)
    requires
        accepts_all(*deriv, *advance),
    ensures
        euler_next(*deriv, *advance, x, y),
{
    let k = deriv(x);
    advance(x, k, Stride::Full)
}

/// The four stages of a classical Runge-Kutta step from `x`.
pub fn rk4_stages<S: Copy, F: Fn(S) -> S, G: Fn(S, S, Stride) -> S>(
    deriv: &F,
    advance: &G,
    x: S,
) -> (st: Stages<S>)
    requires
        accepts_all(*deriv, *advance),
    ensures
        rk4_stages_of(*deriv, *advance, x, st),
{
    let k1 = deriv(x);
    let y2 = advance(x, k1, Stride::Half);
    let k2 = deriv(y2);
    let y3 = advance(x, k2, Stride::Half);
    let k3 = deriv(y3);
    let y4 = advance(x, k3, Stride::Full);
    let k4 = deriv(y4);
    Stages { k1, k2, k3, k4, y2, y3, y4 }
}

/// One classical Runge-Kutta step from `x`.
pub fn rk4_step<S: Copy, F: Fn(S) -> S, G: Fn(S, S, Stride) -> S, C: Fn(S, Stages<S>) -> S>(
    deriv: &F,
    advance: &G,
    combine: &C,
    x: S,
) -> (y: S)
    requires
        accepts_all(*deriv, *advance),
        combine_accepts_all(*combine),
    ensures
        rk4_next(*deriv, *advance, *combine, x, y),
{
    let st = rk4_stages(deriv, advance, x);
    combine(x, st)
}

/// Every entry after the first is an Euler step from the entry before it.
pub open spec fn is_euler_trajectory<S, F: Fn(S) -> S, G: Fn(S, S, Stride) -> S>(
    deriv: F,
    advance: G,
    tr: Seq<S>,
) -> bool {
    forall|t: int| #![trigger tr[t]] 1 <= t < tr.len() ==> euler_next(deriv, advance, tr[t - 1], tr[t])
}

/// Every entry after the first is a Runge-Kutta step from the entry before it.
pub open spec fn is_rk4_trajectory<S, F: Fn(S) -> S, G: Fn(S, S, Stride) -> S, C: Fn(S, Stages<S>) -> S>(
    deriv: F,
    advance: G,
    combine: C,
    tr: Seq<S>,
) -> bool {
    forall|t: int|
        #![trigger tr[t]]
        1 <= t < tr.len() ==> rk4_next(deriv, advance, combine, tr[t - 1], tr[t])
}

/// Overwrites indices `1..len` in order, each with an Euler step from the
/// entry before it. Index 0, the initial condition, is kept.
pub fn fill_euler<S: Copy, F: Fn(S) -> S, G: Fn(S, S, Stride) -> S>(
    tr: &mut Vec<S>,
    deriv: &F,
    advance: &G,
)
    requires
        accepts_all(*deriv, *advance),
    ensures
        final(tr)@.len() == old(tr)@.len(),
        old(tr)@.len() > 0 ==> final(tr)@[0] == old(tr)@[0],
        is_euler_trajectory(*deriv, *advance, final(tr)@),
{
    let n = tr.len();
    let mut t: usize = 1;
    while t < n
        invariant
            1 <= t,
            n == 0 || t <= n,
            tr@.len() == n,
            n == old(tr)@.len(),
            n > 0 ==> tr@[0] == old(tr)@[0],
            accepts_all(*deriv, *advance),
            forall|j: int|
                #![trigger tr@[j]]
                1 <= j < t && j < n ==> euler_next(*deriv, *advance, tr@[j - 1], tr@[j]),
        decreases n - t,
    {
        let y = euler_step(deriv, advance, tr[t - 1]);
        tr.set(t, y);
        t += 1;
    }
}

/// Overwrites indices `1..len` in order, each with a Runge-Kutta step from
/// the entry before it. Index 0, the initial condition, is kept.
pub fn fill_rk4<S: Copy, F: Fn(S) -> S, G: Fn(S, S, Stride) -> S, C: Fn(S, Stages<S>) -> S>(
    tr: &mut Vec<S>,
    deriv: &F,
    advance: &G,
    combine: &C,
)
    requires
        accepts_all(*deriv, *advance),
        combine_accepts_all(*combine),
    ensures
        final(tr)@.len() == old(tr)@.len(),
        old(tr)@.len() > 0 ==> final(tr)@[0] == old(tr)@[0],
        is_rk4_trajectory(*deriv, *advance, *combine, final(tr)@),
{
    let n = tr.len();
    let mut t: usize = 1;
    while t < n
        invariant
            1 <= t,
            n == 0 || t <= n,
            tr@.len() == n,
            n == old(tr)@.len(),
            n > 0 ==> tr@[0] == old(tr)@[0],
            accepts_all(*deriv, *advance),
            combine_accepts_all(*combine),
            forall|j: int|
                #![trigger tr@[j]]
                1 <= j < t && j < n ==> rk4_next(*deriv, *advance, *combine, tr@[j - 1], tr@[j]),
        decreases n - t,
    {
        let y = rk4_step(deriv, advance, combine, tr[t - 1]);
        tr.set(t, y);
        t += 1;
    }
}

} // verus!
