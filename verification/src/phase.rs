use vstd::prelude::*;

verus! {

/// The coarse application mode that gates which systems run.
#[derive(Clone, Copy, PartialEq, Eq, Structural, Debug)]
pub enum Phase {
    Menu,
    Playing,
}

/// The phase state machine. A transition requested during one tick takes
/// effect at the start of the next tick; requesting the current phase is a
/// silent no-op, so a pending request always differs from the current phase.
#[derive(Clone, Copy, PartialEq, Eq, Structural, Debug)]
pub struct PhaseController {
    pub current: Phase,
    pub pending: Option<Phase>,
}

impl PhaseController {
    /// A pending request, if any, never names the current phase.
    pub open spec fn wf(self) -> bool {
        self.pending matches Some(p) ==> p != self.current
    }

    /// The controller the application starts with: in `Menu`, nothing pending.
    pub fn new() -> (r: PhaseController)
        ensures
            r.current == Phase::Menu,
            r.pending is None,
            r.wf(),
    {
        PhaseController { current: Phase::Menu, pending: None }
    }

    /// Ask for a transition. A request for the current phase is dropped;
    /// any other request replaces whatever was pending.
    pub fn request(&mut self, target: Phase)
        ensures
            final(self).current == old(self).current,
            target == old(self).current ==> final(self).pending == old(self).pending,
            target != old(self).current ==> final(self).pending == Some(target),
            old(self).wf() ==> final(self).wf(),
    {
        if target != self.current {
            self.pending = Some(target);
        }
    }

    /// Start a tick: apply the transition requested last tick, if any.
    /// Returns the exited and entered phases when a transition ran, so the
    /// caller can dispatch the exit hooks of the old phase before the enter
    /// hooks of the new one.
    pub fn begin_tick(&mut self) -> (r: Option<(Phase, Phase)>)
        requires
            old(self).wf(),
        ensures
            final(self).pending is None,
            final(self).wf(),
            match old(self).pending {
                Some(target) => {
                    &&& final(self).current == target
                    &&& r == Some((old(self).current, target))
                },
                None => {
                    &&& final(self).current == old(self).current
                    &&& r is None
                },
            },
    {
        match self.pending {
            Some(target) => {
                let exited = self.current;
                self.current = target;
                self.pending = None;
                Some((exited, target))
            },
            None => None,
        }
    }
}

} // verus!
