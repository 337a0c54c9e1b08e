//! One tick of the simulation.
//!
//! Every particle takes a step along the vector nearest to where it stood,
//! ages, and has its time outside the viewport accounted for. Then, in one
//! pass, the particles that have reached the lifetime or have been outside
//! for too long are dropped. Last, at most one particle is spawned.

use crate::fixed::{clamp64, Point2, UNIT};
use crate::flow_particle::FlowParticle;
use crate::model::enums::RedrawBackground;
use crate::model::{nearest_angle_in_grid, Model, ModelView, SpawnDraws};
use crate::trig::slot_of;
use vstd::prelude::*;

verus! {

/// The test a particle passes while it has neither reached `lifetime` nor
/// been outside the viewport for `timeout`.
pub open spec fn live(lifetime: i64, timeout: i64) -> spec_fn(FlowParticle) -> bool {
    |p: FlowParticle| !p.expired(lifetime, timeout)
}

impl ModelView {
    /// The particle `p` after one tick of length `dt`: it has stepped along
    /// the heading of the vector nearest to where it stood, by its own step
    /// length plus the configured one, and the time it has spent outside
    /// the viewport has grown by `dt` if it now lies outside, and is zero if
    /// it lies inside.
    pub open spec fn stepped(&self, p: FlowParticle, dt: i64) -> FlowParticle {
        let unit = self.trig[slot_of(self.heading_at(p.xy), self.trig.len() as int)];
        let moved = p.advanced(unit, self.config.particle_step_length);
        moved.timed(dt, !self.window_rect.spec_contains(moved.xy))
    }

    /// All particles after one tick, none dropped yet.
    pub open spec fn all_stepped(&self, dt: i64) -> Seq<FlowParticle> {
        Seq::new(self.flow_particles.len(), |i: int| self.stepped(self.flow_particles[i], dt))
    }

    /// The particles that one tick leaves, in their order, before any spawn.
    pub open spec fn survivors(&self, dt: i64) -> Seq<FlowParticle> {
        self.all_stepped(dt).filter(
            live(self.config.particle_lifetime, self.config.outside_bounds_timeout),
        )
    }

    /// Whether a tick that leaves `population` particles spawns one.
    pub open spec fn spawns_automatically(&self, population: int) -> bool {
        self.config.automatically_spawn_particles && population
            < self.config.particle_auto_spawn_limit
    }

    /// The model after the stepping and dropping of one tick, before any
    /// spawn.
    pub open spec fn settled(&self, dt: i64) -> ModelView {
        ModelView {
            flow_particles: self.survivors(dt),
            redraw_background: self.redraw_background.spec_next(),
            ..*self
        }
    }
}

/// `after` is what one tick of length `dt` makes of `before`: the survivors
/// in their order and, where auto-spawn is on and the survivors are fewer
/// than the limit, exactly one new particle behind them, spawned at a point
/// of the viewport. A pending redraw of the background moves one step on.
pub open spec fn ticked(before: ModelView, after: ModelView, dt: i64) -> bool {
    let settled = before.settled(dt);
    if before.spawns_automatically(settled.flow_particles.len() as int) {
        exists|u: i64, v: i64, d: SpawnDraws|
            {
                &&& 0 <= u < UNIT
                &&& 0 <= v < UNIT
                &&& d.valid()
                &&& after == (ModelView {
                    flow_particles: settled.flow_particles.push(
                        #[trigger] before.spawned(before.point_at(u, v), d),
                    ),
                    ..settled
                })
            }
    } else {
        after == settled
    }
}

/// The number of ticks after which a particle of age `age` that gains
/// `rate` per tick has reached `lifetime`: what is missing, divided by the
/// rate and rounded up.
pub open spec fn ticks_to_reach(age: int, rate: int, lifetime: int) -> int {
    (lifetime - age + rate - 1) / rate
}

/// The age of `p` after `ticks` ticks.
pub open spec fn age_after(p: FlowParticle, ticks: nat) -> int
    decreases ticks,
{
    if ticks == 0 {
        p.age as int
    } else {
        clamp64(age_after(p, (ticks - 1) as nat) + p.aging_rate)
    }
}

/// The time that `p` has spent outside the viewport after it was outside
/// for `ticks` more ticks of length `dt` in a row.
pub open spec fn outside_time_after(p: FlowParticle, dt: i64, ticks: nat) -> int
    decreases ticks,
{
    if ticks == 0 {
        p.time_outside_bounds as int
    } else {
        clamp64(outside_time_after(p, dt, (ticks - 1) as nat) + dt)
    }
}

/// One tick ages a particle by its aging rate and leaves the rate, and
/// whatever else it is drawn with, as it was. The time outside grows by
/// `dt` where the particle has come to lie outside the viewport, and is
/// zero where it lies inside.
pub proof fn lemma_step_effect(m: ModelView, p: FlowParticle, dt: i64)
    ensures
        m.stepped(p, dt).age == clamp64(p.age + p.aging_rate),
        m.stepped(p, dt).aging_rate == p.aging_rate,
        m.stepped(p, dt).previous_xy == p.xy,
        m.stepped(p, dt).step_length == p.step_length,
        m.stepped(p, dt).weight == p.weight,
        m.stepped(p, dt).color == p.color,
        m.stepped(p, dt).shape == p.shape,
        m.window_rect.spec_contains(m.stepped(p, dt).xy) ==> m.stepped(
            p,
            dt,
        ).time_outside_bounds == 0,
        !m.window_rect.spec_contains(m.stepped(p, dt).xy) ==> m.stepped(
            p,
            dt,
        ).time_outside_bounds == clamp64(p.time_outside_bounds + dt),
        m.stepped(p, dt).age == age_after(p, 1),
        p.aging_rate >= 0 ==> m.stepped(p, dt).age >= p.age,
        !m.window_rect.spec_contains(m.stepped(p, dt).xy) ==> m.stepped(
            p,
            dt,
        ).time_outside_bounds == outside_time_after(p, dt, 1),
{
    reveal_with_fuel(age_after, 2);
    reveal_with_fuel(outside_time_after, 2);
}

/// The ages of a particle tick by tick are the ages of the particle that
/// one tick makes of it, one tick later.
pub proof fn lemma_age_after_step(m: ModelView, p: FlowParticle, dt: i64, ticks: nat)
    ensures
        age_after(m.stepped(p, dt), ticks) == age_after(p, ticks + 1),
    decreases ticks,
{
    reveal_with_fuel(age_after, 2);
    if ticks > 0 {
        lemma_age_after_step(m, p, dt, (ticks - 1) as nat);
    }
}

/// While nothing saturates, the age after `ticks` ticks is the first age
/// plus `ticks` times the aging rate.
pub proof fn lemma_age_after(p: FlowParticle, ticks: nat)
    requires
        p.aging_rate >= 0,
        p.age + ticks * p.aging_rate <= i64::MAX,
    ensures
        age_after(p, ticks) == p.age + ticks * p.aging_rate,
    decreases ticks,
{
    if ticks > 0 {
        let t = ticks as int;
        let rate = p.aging_rate as int;
        assert((t - 1) * rate + rate == t * rate && 0 <= (t - 1) * rate <= t * rate)
            by (nonlinear_arith)
            requires
                t >= 1,
                rate >= 0,
        ;
        lemma_age_after(p, (ticks - 1) as nat);
    } else {
        assert(ticks * p.aging_rate == 0) by (nonlinear_arith)
            requires
                ticks == 0,
        ;
    }
}

/// A particle that gains `rate` per tick has reached `lifetime` after `k`
/// ticks exactly when `k` is at least what is missing divided by the rate,
/// rounded up. So it retires for its age in the tick of that number and in
/// none before: from age zero, in tick `ceil(lifetime / rate)`.
pub proof fn lemma_reaches_lifetime(age: int, rate: int, lifetime: int, k: int)
    requires
        rate > 0,
    ensures
        age + k * rate >= lifetime <==> k >= ticks_to_reach(age, rate, lifetime),
        age == 0 ==> ticks_to_reach(age, rate, lifetime) == (lifetime + rate - 1) / rate,
{
    let missing = lifetime - age;
    let n = ticks_to_reach(age, rate, lifetime);
    vstd::arithmetic::div_mod::lemma_fundamental_div_mod(missing + rate - 1, rate);
    let r = (missing + rate - 1) % rate;
    assert(missing + rate - 1 == rate * n + r);
    assert(0 <= r < rate);
    if k >= n {
        assert(k * rate >= n * rate) by (nonlinear_arith)
            requires
                k >= n,
                rate > 0,
        ;
        assert(rate * n == n * rate) by (nonlinear_arith);
    } else {
        assert(k * rate <= (n - 1) * rate) by (nonlinear_arith)
            requires
                k <= n - 1,
                rate > 0,
        ;
        assert((n - 1) * rate == rate * n - rate) by (nonlinear_arith);
    }
}

/// A particle that ages, and whose age does not saturate on the way, has
/// reached `lifetime` after `ticks` ticks exactly when `ticks` is at least
/// what its age is short of the lifetime, divided by its aging rate and
/// rounded up.
pub proof fn lemma_retires_by_age(p: FlowParticle, lifetime: i64, ticks: nat)
    requires
        p.aging_rate > 0,
        p.age + ticks * p.aging_rate <= i64::MAX,
    ensures
        age_after(p, ticks) >= lifetime <==> ticks >= ticks_to_reach(
            p.age as int,
            p.aging_rate as int,
            lifetime as int,
        ),
        p.age == 0 ==> ticks_to_reach(p.age as int, p.aging_rate as int, lifetime as int) == (
        lifetime + p.aging_rate - 1) / (p.aging_rate as int),
{
    lemma_age_after(p, ticks);
    lemma_reaches_lifetime(p.age as int, p.aging_rate as int, lifetime as int, ticks as int);
}

/// A particle that stays outside the viewport, and whose time outside does
/// not saturate on the way, has been outside for `timeout` after `ticks`
/// ticks of length `dt` exactly when `ticks` is at least what its time
/// outside is short of the timeout, divided by `dt` and rounded up. From no
/// time outside, that is the first number of ticks with `ticks * dt` at
/// least the timeout.
pub proof fn lemma_retires_by_time_outside(p: FlowParticle, dt: i64, timeout: i64, ticks: nat)
    requires
        dt > 0,
        p.time_outside_bounds >= 0,
        p.time_outside_bounds + ticks * dt <= i64::MAX,
    ensures
        outside_time_after(p, dt, ticks) >= timeout <==> ticks >= ticks_to_reach(
            p.time_outside_bounds as int,
            dt as int,
            timeout as int,
        ),
        p.time_outside_bounds == 0 ==> (outside_time_after(p, dt, ticks) >= timeout <==> ticks
            * dt >= timeout),
{
    lemma_outside_time_after(p, dt, ticks);
    lemma_reaches_lifetime(p.time_outside_bounds as int, dt as int, timeout as int, ticks as int);
}

/// While nothing saturates, the time outside after `ticks` ticks in a row
/// outside is the first time plus `ticks` times `dt`. With a positive
/// timeout, a particle that was inside before is therefore dropped for it
/// in the first tick `n` with `n * dt >= timeout`.
pub proof fn lemma_outside_time_after(p: FlowParticle, dt: i64, ticks: nat)
    requires
        dt >= 0,
        p.time_outside_bounds >= 0,
        p.time_outside_bounds + ticks * dt <= i64::MAX,
    ensures
        outside_time_after(p, dt, ticks) == p.time_outside_bounds + ticks * dt,
    decreases ticks,
{
    if ticks > 0 {
        let t = ticks as int;
        let step = dt as int;
        assert((t - 1) * step + step == t * step && 0 <= (t - 1) * step <= t * step)
            by (nonlinear_arith)
            requires
                t >= 1,
                step >= 0,
        ;
        lemma_outside_time_after(p, dt, (ticks - 1) as nat);
    } else {
        assert(ticks * dt == 0) by (nonlinear_arith)
            requires
                ticks == 0,
        ;
    }
}

/// A particle that lies inside the viewport after its step has no time
/// outside, whatever it had before, and with a positive timeout it is not
/// dropped for its time outside.
pub proof fn lemma_inside_resets(m: ModelView, p: FlowParticle, dt: i64)
    requires
        m.window_rect.spec_contains(m.stepped(p, dt).xy),
    ensures
        m.stepped(p, dt).time_outside_bounds == 0,
        0 < m.config.outside_bounds_timeout ==> (m.stepped(p, dt).expired(
            m.config.particle_lifetime,
            m.config.outside_bounds_timeout,
        ) <==> m.stepped(p, dt).age >= m.config.particle_lifetime),
{
}

/// What a tick leaves: every survivor is live, and a stepped particle
/// survives exactly when it is live. No particle that has reached the
/// lifetime or the timeout is left.
pub proof fn lemma_survivors(m: ModelView, dt: i64)
    ensures
        m.survivors(dt).len() <= m.flow_particles.len(),
        forall|i: int|
            0 <= i < m.survivors(dt).len() ==> !(#[trigger] m.survivors(dt)[i]).expired(
                m.config.particle_lifetime,
                m.config.outside_bounds_timeout,
            ),
        forall|i: int|
            0 <= i < m.flow_particles.len() ==> (m.survivors(dt).contains(
                #[trigger] m.stepped(m.flow_particles[i], dt),
            ) <==> !m.stepped(m.flow_particles[i], dt).expired(
                m.config.particle_lifetime,
                m.config.outside_bounds_timeout,
            )),
{
    let all = m.all_stepped(dt);
    let keep = live(m.config.particle_lifetime, m.config.outside_bounds_timeout);
    #[allow(deprecated)]
    all.filter_lemma(keep);
    assert forall|i: int| 0 <= i < m.flow_particles.len() implies (m.survivors(dt).contains(
        #[trigger] m.stepped(m.flow_particles[i], dt),
    ) <==> !m.stepped(m.flow_particles[i], dt).expired(
        m.config.particle_lifetime,
        m.config.outside_bounds_timeout,
    )) by {
        let q = m.stepped(m.flow_particles[i], dt);
        assert(all[i] == q);
        if m.survivors(dt).contains(q) {
            let j = choose|j: int| 0 <= j < m.survivors(dt).len() && m.survivors(dt)[j] == q;
            assert(keep(m.survivors(dt)[j]));
        }
        if keep(q) {
            assert(all.filter(keep).contains(all[i]));
        }
    }
}

/// Auto-spawn adds one particle per tick and never more: where it is on
/// and the tick leaves fewer particles than the limit, the population after
/// the tick is the survivors and one; otherwise it is the survivors alone.
pub proof fn lemma_auto_spawn_adds_one(before: ModelView, after: ModelView, dt: i64)
    requires
        ticked(before, after, dt),
    ensures
        before.spawns_automatically(before.survivors(dt).len() as int)
            ==> after.flow_particles.len() == before.survivors(dt).len() + 1,
        !before.spawns_automatically(before.survivors(dt).len() as int)
            ==> after.flow_particles == before.survivors(dt),
        after.flow_particles.len() <= before.flow_particles.len() + 1,
        forall|i: int|
            0 <= i < before.survivors(dt).len() ==> after.flow_particles[i]
                == before.survivors(dt)[i],
{
    lemma_survivors(before, dt);
}

/// `trace` is a run: each of its states is what one tick of length `dt`
/// makes of the state before it.
pub open spec fn is_run(trace: Seq<ModelView>, dt: i64) -> bool {
    forall|k: int| 0 <= k < trace.len() - 1 ==> ticked(#[trigger] trace[k], trace[k + 1], dt)
}

/// `trace` is a run that starts with the one particle `p` and spawns none
/// by itself.
pub open spec fn is_lone_run(trace: Seq<ModelView>, dt: i64, p: FlowParticle) -> bool {
    &&& trace.len() > 0
    &&& is_run(trace, dt)
    &&& trace[0].flow_particles == seq![p]
    &&& !trace[0].config.automatically_spawn_particles
}

/// In every state of the run but the last that still holds the particle,
/// the particle lies inside the viewport after its step.
pub open spec fn stays_inside(trace: Seq<ModelView>, dt: i64) -> bool {
    forall|k: int|
        0 <= k < trace.len() - 1 && (#[trigger] trace[k]).flow_particles.len() == 1
            ==> trace[k].window_rect.spec_contains(
            trace[k].stepped(trace[k].flow_particles[0], dt).xy,
        )
}

/// In every state of the run but the last that still holds the particle,
/// the particle lies outside the viewport after its step, and its age is
/// below the lifetime.
pub open spec fn stays_outside(trace: Seq<ModelView>, dt: i64) -> bool {
    forall|k: int|
        0 <= k < trace.len() - 1 && (#[trigger] trace[k]).flow_particles.len() == 1 ==> {
            &&& !trace[k].window_rect.spec_contains(
                trace[k].stepped(trace[k].flow_particles[0], dt).xy,
            )
            &&& trace[k].stepped(trace[k].flow_particles[0], dt).age
                < trace[k].config.particle_lifetime
        }
}

/// What one tick leaves of a lone particle: the stepped particle if it is
/// live, nothing if it is not.
proof fn lemma_lone_survivor(m: ModelView, dt: i64)
    requires
        m.flow_particles.len() == 1,
    ensures
        m.survivors(dt) == (if m.stepped(m.flow_particles[0], dt).expired(
            m.config.particle_lifetime,
            m.config.outside_bounds_timeout,
        ) {
            Seq::<FlowParticle>::empty()
        } else {
            seq![m.stepped(m.flow_particles[0], dt)]
        }),
{
    reveal_with_fuel(Seq::filter, 2);
    let all = m.all_stepped(dt);
    let keep = live(m.config.particle_lifetime, m.config.outside_bounds_timeout);
    assert(all.len() == 1);
    assert(all.last() == m.stepped(m.flow_particles[0], dt));
    assert(all.drop_last().len() == 0);
    assert(all.drop_last().filter(keep) =~= Seq::<FlowParticle>::empty());
    if keep(all.last()) {
        assert(all.filter(keep) =~= seq![all.last()]);
    } else {
        assert(all.filter(keep) =~= Seq::<FlowParticle>::empty());
    }
}

/// The state of a lone particle that ages inside the viewport, before it
/// has reached the lifetime.
proof fn lemma_aging_state(trace: Seq<ModelView>, dt: i64, p: FlowParticle, n: nat, k: nat)
    requires
        is_lone_run(trace, dt, p),
        stays_inside(trace, dt),
        trace.len() == n + 1,
        0 < trace[0].config.outside_bounds_timeout,
        p.aging_rate > 0,
        p.age < trace[0].config.particle_lifetime,
        n == ticks_to_reach(
            p.age as int,
            p.aging_rate as int,
            trace[0].config.particle_lifetime as int,
        ),
        p.age + n * p.aging_rate <= i64::MAX,
        k < n,
    ensures
        trace[k as int].config == trace[0].config,
        trace[k as int].flow_particles.len() == 1,
        trace[k as int].flow_particles[0].age == p.age + k * p.aging_rate,
        trace[k as int].flow_particles[0].aging_rate == p.aging_rate,
    decreases k,
{
    let rate = p.aging_rate as int;
    let lifetime = trace[0].config.particle_lifetime as int;
    if k == 0 {
        assert(k * rate == 0) by (nonlinear_arith)
            requires
                k == 0,
        ;
    } else {
        lemma_aging_state(trace, dt, p, n, (k - 1) as nat);
        let before = trace[k - 1];
        assert(ticked(before, trace[k - 1 + 1], dt));
        let q = before.flow_particles[0];
        let stepped = before.stepped(q, dt);
        assert((k - 1) * rate + rate == k * rate && 0 <= k * rate <= n * rate)
            by (nonlinear_arith)
            requires
                1 <= k <= n,
                rate > 0,
        ;
        assert(stepped.age == p.age + k * rate);
        lemma_reaches_lifetime(p.age as int, rate, lifetime, k as int);
        assert(!stepped.expired(
            before.config.particle_lifetime,
            before.config.outside_bounds_timeout,
        ));
        lemma_lone_survivor(before, dt);
    }
}

/// A lone particle that ages inside the viewport is there after each tick
/// before the one in which its age reaches the lifetime, with the age that
/// the ticks so far have given it, and is gone after that one: from age
/// zero, after tick `ceil(lifetime / rate)`. The run has that many ticks,
/// no spawn by itself and a positive timeout, and the age does not saturate
/// on the way.
pub proof fn lemma_run_retires_by_age(trace: Seq<ModelView>, dt: i64, p: FlowParticle, n: nat)
    requires
        is_lone_run(trace, dt, p),
        stays_inside(trace, dt),
        trace.len() == n + 1,
        0 < trace[0].config.outside_bounds_timeout,
        p.aging_rate > 0,
        p.age < trace[0].config.particle_lifetime,
        n == ticks_to_reach(
            p.age as int,
            p.aging_rate as int,
            trace[0].config.particle_lifetime as int,
        ),
        p.age + n * p.aging_rate <= i64::MAX,
    ensures
        forall|k: int|
            0 <= k < n ==> (#[trigger] trace[k]).flow_particles.len() == 1
                && trace[k].flow_particles[0].age == p.age + k * p.aging_rate,
        trace[n as int].flow_particles.len() == 0,
{
    let rate = p.aging_rate as int;
    let lifetime = trace[0].config.particle_lifetime as int;
    assert forall|k: int| 0 <= k < n implies (#[trigger] trace[k]).flow_particles.len() == 1
        && trace[k].flow_particles[0].age == p.age + k * p.aging_rate by {
        lemma_aging_state(trace, dt, p, n, k as nat);
    }
    lemma_reaches_lifetime(p.age as int, rate, lifetime, 0);
    assert(n >= 1);
    lemma_aging_state(trace, dt, p, n, (n - 1) as nat);
    let before = trace[n - 1];
    assert(ticked(before, trace[n - 1 + 1], dt));
    let stepped = before.stepped(before.flow_particles[0], dt);
    assert((n - 1) * rate + rate == n * rate) by (nonlinear_arith);
    assert(stepped.age == p.age + n * rate);
    lemma_reaches_lifetime(p.age as int, rate, lifetime, n as int);
    lemma_lone_survivor(before, dt);
}

/// The state of a lone particle that stays outside the viewport, before it
/// has been outside for the timeout.
proof fn lemma_outside_state(trace: Seq<ModelView>, dt: i64, p: FlowParticle, n: nat, k: nat)
    requires
        is_lone_run(trace, dt, p),
        stays_outside(trace, dt),
        trace.len() == n + 1,
        dt > 0,
        0 <= p.time_outside_bounds < trace[0].config.outside_bounds_timeout,
        n == ticks_to_reach(
            p.time_outside_bounds as int,
            dt as int,
            trace[0].config.outside_bounds_timeout as int,
        ),
        p.time_outside_bounds + n * dt <= i64::MAX,
        k < n,
    ensures
        trace[k as int].config == trace[0].config,
        trace[k as int].flow_particles.len() == 1,
        trace[k as int].flow_particles[0].time_outside_bounds == p.time_outside_bounds + k * dt,
    decreases k,
{
    let step = dt as int;
    let timeout = trace[0].config.outside_bounds_timeout as int;
    if k == 0 {
        assert(k * step == 0) by (nonlinear_arith)
            requires
                k == 0,
        ;
    } else {
        lemma_outside_state(trace, dt, p, n, (k - 1) as nat);
        let before = trace[k - 1];
        assert(ticked(before, trace[k - 1 + 1], dt));
        let q = before.flow_particles[0];
        let stepped = before.stepped(q, dt);
        assert((k - 1) * step + step == k * step && 0 <= k * step <= n * step)
            by (nonlinear_arith)
            requires
                1 <= k <= n,
                step > 0,
        ;
        assert(stepped.time_outside_bounds == p.time_outside_bounds + k * step);
        lemma_reaches_lifetime(p.time_outside_bounds as int, step, timeout, k as int);
        assert(!stepped.expired(
            before.config.particle_lifetime,
            before.config.outside_bounds_timeout,
        ));
        lemma_lone_survivor(before, dt);
    }
}

/// A lone particle that stays outside the viewport, its age below the
/// lifetime, is there after each tick before the one in which its time
/// outside reaches the timeout, and is gone after that one: from no time
/// outside, after the first tick `n` with `n * dt` at least the timeout.
/// The run has that many ticks and no spawn by itself, and the time outside
/// does not saturate on the way.
pub proof fn lemma_run_retires_by_time_outside(
    trace: Seq<ModelView>,
    dt: i64,
    p: FlowParticle,
    n: nat,
)
    requires
        is_lone_run(trace, dt, p),
        stays_outside(trace, dt),
        trace.len() == n + 1,
        dt > 0,
        0 <= p.time_outside_bounds < trace[0].config.outside_bounds_timeout,
        n == ticks_to_reach(
            p.time_outside_bounds as int,
            dt as int,
            trace[0].config.outside_bounds_timeout as int,
        ),
        p.time_outside_bounds + n * dt <= i64::MAX,
    ensures
        forall|k: int|
            0 <= k < n ==> (#[trigger] trace[k]).flow_particles.len() == 1
                && trace[k].flow_particles[0].time_outside_bounds == p.time_outside_bounds + k
                * dt,
        trace[n as int].flow_particles.len() == 0,
        p.time_outside_bounds == 0 ==> n * dt >= trace[0].config.outside_bounds_timeout && (n
            - 1) * dt < trace[0].config.outside_bounds_timeout,
{
    let step = dt as int;
    let timeout = trace[0].config.outside_bounds_timeout as int;
    assert forall|k: int| 0 <= k < n implies (#[trigger] trace[k]).flow_particles.len() == 1
        && trace[k].flow_particles[0].time_outside_bounds == p.time_outside_bounds + k
        * dt by {
        lemma_outside_state(trace, dt, p, n, k as nat);
    }
    lemma_reaches_lifetime(p.time_outside_bounds as int, step, timeout, 0);
    assert(n >= 1);
    lemma_outside_state(trace, dt, p, n, (n - 1) as nat);
    let before = trace[n - 1];
    assert(ticked(before, trace[n - 1 + 1], dt));
    let stepped = before.stepped(before.flow_particles[0], dt);
    assert((n - 1) * step + step == n * step) by (nonlinear_arith);
    assert(stepped.time_outside_bounds == p.time_outside_bounds + n * step);
    lemma_reaches_lifetime(p.time_outside_bounds as int, step, timeout, n as int);
    lemma_reaches_lifetime(p.time_outside_bounds as int, step, timeout, n - 1);
    lemma_lone_survivor(before, dt);
}

/// Steps every particle once.
fn step_all(model: &Model, dt: i64) -> (r: Vec<FlowParticle>)
    requires
        model.wf(),
    ensures
        r@ == model@.all_stepped(dt),
{
    let n: usize = model.flow_particles.len();
    let mut out: Vec<FlowParticle> = Vec::new();
    let mut index: usize = 0;
    while index < n
        invariant
            model.wf(),
            n == model@.flow_particles.len(),
            index <= n,
            out@.len() == index,
            forall|j: int| 0 <= j < index ==> out@[j] == model@.all_stepped(dt)[j],
        decreases n - index,
    {
        let mut particle: FlowParticle = model.flow_particles[index];
        let nearest_angle: i64 = nearest_angle_in_grid(particle.xy, model);
        particle.update(nearest_angle, model.config.particle_step_length, &model.trig);
        let is_outside: bool = !model.window_rect.contains(particle.xy);
        particle.update_bounds_time(dt, is_outside);
        assert(particle == model@.stepped(model@.flow_particles[index as int], dt));
        out.push(particle);
        index = index + 1;
    }
    assert(out@ =~= model@.all_stepped(dt));
    out
}

/// Keeps, in their order, the particles that have neither reached
/// `lifetime` nor been outside for `timeout`.
pub fn retain_live(particles: &Vec<FlowParticle>, lifetime: i64, timeout: i64) -> (r: Vec<
    FlowParticle,
>)
    ensures
        r@ == particles@.filter(live(lifetime, timeout)),
{
    let n: usize = particles.len();
    let mut kept: Vec<FlowParticle> = Vec::new();
    let mut index: usize = 0;
    proof {
        reveal(Seq::filter);
        assert(particles@.take(0).filter(live(lifetime, timeout)) =~= Seq::<FlowParticle>::empty());
    }
    while index < n
        invariant
            n == particles.len(),
            index <= n,
            kept@ == particles@.take(index as int).filter(live(lifetime, timeout)),
        decreases n - index,
    {
        let particle: FlowParticle = particles[index];
        proof {
            reveal(Seq::filter);
            let longer = particles@.take(index + 1);
            assert(longer.drop_last() =~= particles@.take(index as int));
            assert(longer.last() == particle);
        }
        if !particle.is_expired(lifetime, timeout) {
            kept.push(particle);
        }
        index = index + 1;
    }
    assert(particles@.take(n as int) =~= particles@);
    kept
}

/// Advances the model by one tick of length `dt`.
pub fn update(model: &mut Model, dt: i64)
    requires
        old(model).wf(),
    ensures
        final(model).wf(),
        ticked(old(model)@, final(model)@, dt),
{
    let stepped: Vec<FlowParticle> = step_all(model, dt);
    let kept: Vec<FlowParticle> = retain_live(
        &stepped,
        model.config.particle_lifetime,
        model.config.outside_bounds_timeout,
    );
    model.flow_particles = kept;
    if model.redraw_background != RedrawBackground::Complete {
        model.redraw_background = model.redraw_background.next();
    }
    assert(model@ == old(model)@.settled(dt));
    if model.config.automatically_spawn_particles && model.flow_particles.len()
        < model.config.particle_auto_spawn_limit {
        let ghost before = old(model)@;
        let ghost settled = model@;
        let _index: usize = model.spawn_random_particle();
        assert forall|u: i64, v: i64, d: SpawnDraws|
            #[trigger] settled.spawned(settled.point_at(u, v), d) == before.spawned(
                before.point_at(u, v),
                d,
            ) by {}
    }
}

/// A button of the pointer.
#[derive(Clone, Copy, Debug, PartialEq, Eq, Structural)]
pub enum MouseButton {
    Left,
    Right,
    Middle,
    Other,
}

/// Whether a button or key went down or came up.
#[derive(Clone, Copy, Debug, PartialEq, Eq, Structural)]
pub enum ElementState {
    Pressed,
    Released,
}

/// The keys the simulation reacts to, and all others.
#[derive(Clone, Copy, Debug, PartialEq, Eq, Structural)]
pub enum Key {
    Space,
    Escape,
    Slash,
    QuestionMark,
    Other,
}

/// Records where the pointer is.
pub fn mouse_moved(model: &mut Model, pos: Point2)
    requires
        old(model).wf(),
    ensures
        final(model).wf(),
        final(model)@ == (ModelView { mouse_xy: pos, ..old(model)@ }),
{
    model.set_mouse_xy(pos);
}

/// Reacts to a button going down: the left one spawns a particle at the
/// pointer, the right one turns spawning at the pointer on. Anything else
/// changes nothing.
pub fn mouse_pressed(model: &mut Model, button: MouseButton, state: ElementState)
    requires
        old(model).wf(),
    ensures
        final(model).wf(),
        state == ElementState::Pressed && button == MouseButton::Left ==> exists|d: SpawnDraws|
            d.valid() && final(model)@ == (ModelView {
                flow_particles: old(model)@.flow_particles.push(
                    #[trigger] old(model)@.spawned(old(model)@.mouse_xy, d),
                ),
                ..old(model)@
            }),
        state == ElementState::Pressed && button == MouseButton::Right ==> final(model)@ == (
        ModelView { draw_particle_mode: true, ..old(model)@ }),
        state != ElementState::Pressed || (button != MouseButton::Left && button
            != MouseButton::Right) ==> final(model)@ == old(model)@,
{
    if state == ElementState::Pressed {
        match button {
            MouseButton::Left => {
                let xy: Point2 = model.mouse_xy();
                let _index: usize = model.spawn_new_particle(xy);
            },
            MouseButton::Right => {
                model.set_draw_particle_mode(true);
            },
            _ => {},
        }
    }
}

/// Reacts to a button coming up: the right one turns spawning at the
/// pointer off.
pub fn mouse_released(model: &mut Model, button: MouseButton)
    requires
        old(model).wf(),
    ensures
        final(model).wf(),
        button == MouseButton::Right ==> final(model)@ == (ModelView {
            draw_particle_mode: false,
            ..old(model)@
        }),
        button != MouseButton::Right ==> final(model)@ == old(model)@,
{
    if button == MouseButton::Right {
        model.set_draw_particle_mode(false);
    }
}

/// Reacts to a key going down and says whether the host is to quit: space
/// spawns a particle at a random point of the viewport, escape asks to
/// quit, and the slash or the question mark shows or hides the controls.
pub fn key_pressed(model: &mut Model, key: Key, state: ElementState) -> (quit: bool)
    requires
        old(model).wf(),
    ensures
        final(model).wf(),
        quit <==> state == ElementState::Pressed && key == Key::Escape,
        state == ElementState::Pressed && key == Key::Space ==> exists|
            u: i64,
            v: i64,
            d: SpawnDraws,
        |
            {
                &&& 0 <= u < UNIT
                &&& 0 <= v < UNIT
                &&& d.valid()
                &&& final(model)@ == (ModelView {
                    flow_particles: old(model)@.flow_particles.push(
                        #[trigger] old(model)@.spawned(old(model)@.point_at(u, v), d),
                    ),
                    ..old(model)@
                })
            },
        state == ElementState::Pressed && (key == Key::Slash || key == Key::QuestionMark)
            ==> final(model)@ == (ModelView { show_ui: !old(model)@.show_ui, ..old(model)@ }),
        state != ElementState::Pressed || key == Key::Escape || key == Key::Other ==> final(model)@ == old(model)@,
{
    if state == ElementState::Pressed {
        match key {
            Key::Space => {
                let _index: usize = model.spawn_random_particle();
                false
            },
            Key::Escape => true,
            Key::Slash | Key::QuestionMark => {
                let shown: bool = model.show_ui();
                model.set_show_ui(!shown);
                false
            },
            Key::Other => false,
        }
    } else {
        false
    }
}

/// Reacts to a change of the window's size: the background is due for a
/// redraw.
pub fn resized(model: &mut Model)
    requires
        old(model).wf(),
    ensures
        final(model).wf(),
        final(model)@ == (ModelView {
            redraw_background: RedrawBackground::Pending,
            ..old(model)@
        }),
{
    model.request_redraw();
}

} // verus!
