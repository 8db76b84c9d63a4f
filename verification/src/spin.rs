use vstd::prelude::*;
use crate::angle::Turns;
use crate::wheel::Wheel;
use crate::render::{DrawCmd, plan_ok, render_wheel};

verus! {

/// Opaque token for one registered repeating callback.  The controller owns
/// at most one live handle; a handle leaves it exactly once, through the
/// return value of `stop`, `start` or `on_tick`, and the caller then cancels
/// the underlying timer.  The type is deliberately neither `Clone` nor
/// `Copy`, so a released handle cannot be released again.
pub struct TimerHandle {
    token: i32,
}

impl TimerHandle {
    pub closed spec fn id(self) -> int {
        self.token as int
    }

    /// Wraps the token the host returned when the repeating callback was
    /// registered.
    pub fn new(token: i32) -> (r: TimerHandle)
        ensures
            r.id() == token as int,
    {
        TimerHandle { token }
    }

    /// The host token, needed to cancel the registration.
    pub fn token(&self) -> (t: i32)
        ensures
            t as int == self.id(),
    {
        self.token
    }
}

/// Everything one live spin carries: the owned timer handle, the wheel being
/// drawn, the tick counter with its budget, the speed factor as an exact
/// fraction, and the timer period it was registered with.
struct ActiveSpin {
    handle: TimerHandle,
    wheel: Wheel,
    tick: u32,
    tick_budget: u32,
    speed_num: u32,
    speed_den: u32,
    period_millis: u32,
}

/// The animation controller: `Idle` when it owns no timer, `Spinning` while
/// one repeating callback is registered and the tick budget is not yet
/// exhausted.
pub struct SpinController {
    active: Option<ActiveSpin>,
}

/// The rotation drawn at a given tick: `tick * speed / 100` of a full turn,
/// which is `tick * speed / 100 * 2 * pi` radians, with the speed factor
/// `speed_num / speed_den` kept exact.
pub open spec fn rotation_at(tick: int, speed_num: int, speed_den: int) -> Turns {
    Turns {
        num: (tick * speed_num) as i128,
        den: (100 * speed_den) as i128,
    }
}

/// What the controller fires back on one timer tick.
pub enum TickStep {
    /// The budget allows another frame: redraw with this plan, computed at
    /// this rotation.
    Draw { rotation: Turns, cmds: Vec<DrawCmd> },
    /// The budget is exhausted: the spin ends and the caller must cancel
    /// the returned handle's registration.
    Finish { released: TimerHandle },
    /// A stale firing after the spin already ended: do nothing.
    Inert,
}

impl SpinController {
    pub closed spec fn spinning(self) -> bool {
        self.active is Some
    }

    pub closed spec fn tick(self) -> int {
        self.active->Some_0.tick as int
    }

    pub closed spec fn budget(self) -> int {
        self.active->Some_0.tick_budget as int
    }

    pub closed spec fn speed_num(self) -> int {
        self.active->Some_0.speed_num as int
    }

    pub closed spec fn speed_den(self) -> int {
        self.active->Some_0.speed_den as int
    }

    pub closed spec fn period(self) -> int {
        self.active->Some_0.period_millis as int
    }

    pub closed spec fn wheel(self) -> Wheel {
        self.active->Some_0.wheel
    }

    pub closed spec fn handle_id(self) -> int {
        self.active->Some_0.handle.id()
    }

    /// A spinning controller never outruns its budget, carries a positive
    /// speed fraction, and holds a usable wheel.
    pub open spec fn wf(self) -> bool {
        self.spinning() ==> {
            &&& self.tick() <= self.budget()
            &&& self.speed_num() >= 1
            &&& self.speed_den() >= 1
            &&& self.wheel().wf()
        }
    }

    /// Whether the next firing would draw a frame.
    pub open spec fn draws_next(self) -> bool {
        self.spinning() && self.tick() < self.budget()
    }

    /// A fresh controller, owning no timer.
    pub fn new() -> (r: SpinController)
        ensures
            !r.spinning(),
            r.wf(),
    {
        SpinController { active: None }
    }

    pub fn is_spinning(&self) -> (r: bool)
        ensures
            r == self.spinning(),
    {
        self.active.is_some()
    }

    /// Ends the current spin, if any.  The released handle is handed back so
    /// the caller can cancel its registration; while idle this is a no-op
    /// and cannot fail.
    pub fn stop(&mut self) -> (released: Option<TimerHandle>)
        ensures
            !final(self).spinning(),
            final(self).wf(),
            old(self).spinning() ==> (released matches Some(h) && h.id() == old(self).handle_id()),
            !old(self).spinning() ==> released is None && *final(self) == *old(self),
    {
        match self.active.take() {
            Some(s) => Some(s.handle),
            None => None,
        }
    }

    /// Begins a new spin with a freshly registered timer handle.  If a spin
    /// is still active it is preempted: exactly its handle comes back in
    /// `released`, and afterwards the controller owns exactly the new
    /// handle, with the tick counter reset to zero.
    pub fn start(
        &mut self,
        handle: TimerHandle,
        wheel: Wheel,
        tick_budget: u32,
        speed_num: u32,
        speed_den: u32,
        period_millis: u32,
    ) -> (released: Option<TimerHandle>)
        requires
            wheel.wf(),
            speed_num >= 1,
            speed_den >= 1,
        ensures
            old(self).spinning() ==> (released matches Some(h) && h.id() == old(self).handle_id()),
            !old(self).spinning() ==> released is None,
            final(self).spinning(),
            final(self).wf(),
            final(self).tick() == 0,
            final(self).budget() == tick_budget,
            final(self).speed_num() == speed_num,
            final(self).speed_den() == speed_den,
            final(self).period() == period_millis,
            final(self).wheel() == wheel,
            final(self).handle_id() == handle.id(),
    {
        let released = self.stop();
        self.active = Some(ActiveSpin {
            handle,
            wheel,
            tick: 0,
            tick_budget,
            speed_num,
            speed_den,
            period_millis,
        });
        released
    }

    /// Handles one firing of the repeating timer.
    ///
    /// While the budget allows it, the firing computes the rotation for the
    /// current tick, plans a full redraw, and advances the tick counter.
    /// The firing that finds the budget exhausted draws nothing and ends the
    /// spin, releasing the handle; any firing after that is ignored.
    pub fn on_tick(&mut self) -> (step: TickStep)
        requires
            old(self).wf(),
        ensures
            final(self).wf(),
            *final(self) == next_state(*old(self)),
            old(self).draws_next() ==> (step matches TickStep::Draw { rotation, cmds }
                && rotation == rotation_at(old(self).tick(), old(self).speed_num(), old(self).speed_den())
                && plan_ok(old(self).wheel(), rotation, cmds@)),
            old(self).draws_next() ==> {
                &&& final(self).spinning()
                &&& final(self).tick() == old(self).tick() + 1
                &&& final(self).budget() == old(self).budget()
                &&& final(self).speed_num() == old(self).speed_num()
                &&& final(self).speed_den() == old(self).speed_den()
                &&& final(self).period() == old(self).period()
                &&& final(self).wheel() == old(self).wheel()
                &&& final(self).handle_id() == old(self).handle_id()
            },
            old(self).spinning() && !old(self).draws_next() ==> (step matches TickStep::Finish { released }
                && released.id() == old(self).handle_id()
                && !final(self).spinning()),
            !old(self).spinning() ==> step is Inert && *final(self) == *old(self),
    {
        match self.active.take() {
            None => TickStep::Inert,
            Some(mut s) => {
                if s.tick < s.tick_budget {
                    proof {
                        assert(0 <= (s.tick as int) * (s.speed_num as int) < 0x1_0000_0000 * 0x1_0000_0000)
                            by (nonlinear_arith)
                            requires
                                0 <= s.tick < 0x1_0000_0000,
                                0 <= s.speed_num < 0x1_0000_0000,
                        ;
                    }
                    let num: u64 = (s.tick as u64) * (s.speed_num as u64);
                    let den: u64 = 100u64 * (s.speed_den as u64);
                    let rotation = Turns { num: num as i128, den: den as i128 };
                    let cmds = render_wheel(&s.wheel, rotation);
                    s.tick = s.tick + 1;
                    self.active = Some(s);
                    TickStep::Draw { rotation, cmds }
                } else {
                    TickStep::Finish { released: s.handle }
                }
            },
        }
    }
}

/// The controller state after one timer firing: a frame advances the tick,
/// an exhausted budget ends the spin, and a stale firing changes nothing.
pub closed spec fn next_state(c: SpinController) -> SpinController {
    match c.active {
        Some(s) => if s.tick < s.tick_budget {
            SpinController { active: Some(ActiveSpin { tick: (s.tick + 1) as u32, ..s }) }
        } else {
            SpinController { active: None }
        },
        None => c,
    }
}

/// The controller state after `k` further timer firings.
pub open spec fn run_ticks(c: SpinController, k: nat) -> SpinController
    decreases k,
{
    if k == 0 {
        c
    } else {
        next_state(run_ticks(c, (k - 1) as nat))
    }
}

/// Once the tick budget is exhausted (or the controller is already idle),
/// no later firing ever draws a frame again, and the timer handle is out of
/// the controller from the first further firing on.
pub proof fn lemma_budget_quiescence(c: SpinController, k: nat)
    requires
        c.wf(),
        c.spinning() ==> c.tick() >= c.budget(),
    ensures
        !run_ticks(c, k).draws_next(),
        k >= 1 ==> !run_ticks(c, k).spinning(),
    decreases k,
{
    if k >= 1 {
        lemma_budget_quiescence(c, (k - 1) as nat);
    }
}

} // verus!
