//! The autoscaler: from the requests of the last seconds to the number of
//! replicas that a function should run on.
use crate::windowed_max::{max_of, min_of, pushed, WindowedMax};
use vstd::prelude::*;

verus! {

/// The least count of replicas that, at `rate` requests each, take `load`
/// requests.
pub open spec fn replicas_for(load: int, rate: int) -> int {
    if load % rate == 0 {
        load / rate
    } else {
        load / rate + 1
    }
}

/// The target for `load` requests in a tick: `replicas_for`, but no fewer
/// than one replica and no more than `max_replicas`.
pub open spec fn target_replicas(load: int, rate: int, max_replicas: int) -> int {
    let wanted = replicas_for(load, rate);
    if wanted < 1 {
        1
    } else if wanted > max_replicas {
        max_replicas
    } else {
        wanted
    }
}

/// `replicas_for` is the ceiling of `load / rate`: that many replicas take
/// the load, and one fewer do not.
pub proof fn lemma_replicas_for_is_ceiling(load: int, rate: int)
    requires
        load >= 0,
        rate > 0,
    ensures
        replicas_for(load, rate) * rate >= load,
        (replicas_for(load, rate) - 1) * rate < load || load == 0,
        replicas_for(load, rate) >= 0,
{
    let q = load / rate;
    let r = load % rate;
    assert(load == rate * q + r) by {
        vstd::arithmetic::div_mod::lemma_fundamental_div_mod(load, rate);
    }
    assert(0 <= r < rate) by {
        vstd::arithmetic::div_mod::lemma_mod_pos_bound(load, rate);
    }
    assert(q >= 0) by {
        vstd::arithmetic::div_mod::lemma_div_pos_is_pos(load, rate);
    }
    assert(q * rate == rate * q) by (nonlinear_arith);
    assert((q + 1) * rate == q * rate + rate) by (nonlinear_arith);
    assert((q - 1) * rate == q * rate - rate) by (nonlinear_arith);
}

/// The autoscaler of one function.
pub struct Autoscaler {
    window: WindowedMax,
    rate_per_replica: usize,
    max_replicas: usize,
}

/// The autoscaler as contracts see it.
pub struct AutoscalerState {
    /// The samples in the window, oldest first.
    pub samples: Seq<usize>,
    /// How many samples the window holds at most.
    pub width: usize,
    /// How many requests a replica is meant to take in a tick.
    pub rate_per_replica: usize,
    /// The greatest number of replicas that the autoscaler asks for.
    pub max_replicas: usize,
}

impl AutoscalerState {
    /// The number of replicas that the samples in the window call for.
    pub open spec fn target(self) -> int {
        target_replicas(
            max_of(self.samples) as int,
            self.rate_per_replica as int,
            self.max_replicas as int,
        )
    }

    /// Whether the load is steady at `replicas`: the window looks back over
    /// its whole width, and the least of its samples calls for `replicas`
    /// as the greatest does.
    pub open spec fn is_steady(self, replicas: usize) -> bool {
        &&& self.samples.len() == self.width
        &&& self.target() == replicas
        &&& target_replicas(
            min_of(self.samples) as int,
            self.rate_per_replica as int,
            self.max_replicas as int,
        ) == replicas
    }

    /// The state after a tick in which `completed` requests ended.
    pub open spec fn sampled(self, completed: usize) -> AutoscalerState {
        AutoscalerState { samples: pushed(self.samples, self.width, completed), ..self }
    }
}

impl View for Autoscaler {
    type V = AutoscalerState;

    closed spec fn view(&self) -> AutoscalerState {
        AutoscalerState {
            samples: self.window@,
            width: self.window.capacity(),
            rate_per_replica: self.rate_per_replica,
            max_replicas: self.max_replicas,
        }
    }
}

impl Autoscaler {
    /// Every autoscaler that this module hands out is well formed.
    pub closed spec fn wf(&self) -> bool {
        &&& self.window.wf()
        &&& self.rate_per_replica > 0
        &&& self.max_replicas >= 1
    }

    /// An autoscaler with an empty window of `width` ticks.
    pub fn new(width: usize, rate_per_replica: usize, max_replicas: usize) -> (res: Autoscaler)
        requires
            width > 0,
            rate_per_replica > 0,
            max_replicas >= 1,
        ensures
            res.wf(),
            res@ == (AutoscalerState {
                samples: Seq::empty(),
                width,
                rate_per_replica,
                max_replicas,
            }),
    {
        Autoscaler { window: WindowedMax::new(width), rate_per_replica, max_replicas }
    }

    /// The number of replicas that the samples in the window call for.
    pub fn target(&self) -> (res: usize)
        requires
            self.wf(),
        ensures
            res == self@.target(),
            1 <= res <= self@.max_replicas,
    {
        self.target_for(self.window.max())
    }

    fn target_for(&self, load: usize) -> (res: usize)
        requires
            self.wf(),
        ensures
            res == target_replicas(
                load as int,
                self.rate_per_replica as int,
                self.max_replicas as int,
            ),
            1 <= res <= self.max_replicas,
    {
        let whole = load / self.rate_per_replica;
        let wanted = if load % self.rate_per_replica == 0 {
            whole
        } else {
            proof {
                lemma_replicas_for_is_ceiling(load as int, self.rate_per_replica as int);
                assert(whole < load) by {
                    let q = load as int / self.rate_per_replica as int;
                    let r = load as int % self.rate_per_replica as int;
                    vstd::arithmetic::div_mod::lemma_fundamental_div_mod(
                        load as int,
                        self.rate_per_replica as int,
                    );
                    assert(q * self.rate_per_replica >= q) by (nonlinear_arith)
                        requires
                            q >= 0,
                            self.rate_per_replica >= 1,
                    ;
                    assert(self.rate_per_replica * q == q * self.rate_per_replica)
                        by (nonlinear_arith);
                }
            }
            whole + 1
        };
        if wanted < 1 {
            1
        } else if wanted > self.max_replicas {
            self.max_replicas
        } else {
            wanted
        }
    }

    /// Whether the load is steady at `replicas`.
    pub fn is_steady(&self, replicas: usize) -> (res: bool)
        requires
            self.wf(),
        ensures
            res == self@.is_steady(replicas),
    {
        self.window.is_full() && self.target() == replicas && self.target_for(self.window.min())
            == replicas
    }

    /// One tick: takes the number of requests that ended in it as a sample,
    /// and returns the new target where it differs from `current`.
    pub fn tick(&mut self, completed: usize, current: usize) -> (res: Option<usize>)
        requires
            old(self).wf(),
        ensures
            final(self).wf(),
            final(self)@ == old(self)@.sampled(completed),
            res == if final(self)@.target() != current {
                Some(final(self)@.target() as usize)
            } else {
                None::<usize>
            },
    {
        self.window.push(completed);
        let target = self.target();
        if target != current {
            Some(target)
        } else {
            None
        }
    }
}

} // verus!
