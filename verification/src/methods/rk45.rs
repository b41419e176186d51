//! The adaptive embedded Runge-Kutta-Fehlberg 4(5) method.
//!
//! Each request evaluates the six Fehlberg stages twice over: a
//! fourth-order estimate and a fifth-order estimate share them, and the
//! magnitude of their difference estimates the local error.  A step whose
//! error stays within the configured tolerance is accepted and emitted; a
//! step whose error exceeds it is rejected, the step size is rescaled by
//! the control factor `0.9 * (tolerance / error)^(1/5)` and the step is
//! retried from the same state.  Retries are bounded by
//! [`RETRY_LIMIT`]; a request that exhausts them emits nothing and marks
//! the integrator as stalled rather than looping forever.  The sequence
//! ends for good once the state's time slot runs past the configured
//! maximum time.

use crate::methods::{seq_norm, soe_step};
use crate::scalar::Num;
use crate::soe::Soe;
use crate::vector::{seq_add, seq_div, seq_scale, seq_sub, Vector};
use vstd::prelude::*;

verus! {

/// The largest number of rejected attempts a single request may make
/// before it reports the integrator as stalled.
pub const RETRY_LIMIT: usize = 64;

/// The step-size control factor `0.9 * (tol / err)^(1/5)`.
pub open spec fn sigma_of<E: Num>(tol: E, err: E) -> E {
    tol.div_spec(err).pow_spec(E::from_u64_spec(2).div_spec(E::from_u64_spec(10))).mul_spec(
        E::from_u64_spec(9).div_spec(E::from_u64_spec(10)),
    )
}

/// One six-stage Fehlberg evaluation from state `st` with step size `h`:
/// `next` is the fourth-order estimate and `next_cap` the fifth-order one,
/// both with a zeroed time slot.  The stage derivatives carry forced unit
/// time slots and are scaled by `h`; the intermediate states after the
/// second carry explicit evaluation times in their time slot.
pub open spec fn rk45_attempt<E: Num, S: Soe<Elem = E, Args = Vector<E, N>>, const N: usize>(
    s: S,
    st: Vector<E, N>,
    h: E,
    next: Seq<E>,
    next_cap: Seq<E>,
) -> bool {
    exists|
        d1: Seq<E>,
        p2: Vector<E, N>,
        d2: Seq<E>,
        p3: Vector<E, N>,
        d3: Seq<E>,
        p4: Vector<E, N>,
        d4: Seq<E>,
        p5: Vector<E, N>,
        d5: Seq<E>,
        p6: Vector<E, N>,
        d6: Seq<E>,
    |
        #![trigger soe_step(s, st, d1), soe_step(s, p2, d2), soe_step(s, p3, d3),
            soe_step(s, p4, d4), soe_step(s, p5, d5), soe_step(s, p6, d6)]
        {
            let k1 = seq_scale(d1, h);
            let k2 = seq_scale(d2, h);
            let k3 = seq_scale(d3, h);
            let k4 = seq_scale(d4, h);
            let k5 = seq_scale(d5, h);
            let k6 = seq_scale(d6, h);
            let t0 = st@[0];
            &&& soe_step(s, st, d1)
            &&& p2@ == seq_add(st@, seq_div(k1, E::from_u64_spec(4)))
            &&& soe_step(s, p2, d2)
            &&& p3@ == seq_add(
                seq_add(st@, seq_div(seq_scale(k1, E::from_u64_spec(3)), E::from_u64_spec(32))),
                seq_div(seq_scale(k2, E::from_u64_spec(9)), E::from_u64_spec(32)),
            ).update(0, t0.add_spec(h.mul_spec(E::from_u64_spec(3)).div_spec(E::from_u64_spec(8))))
            &&& soe_step(s, p3, d3)
            &&& p4@ == seq_add(
                seq_sub(
                    seq_add(
                        st@,
                        seq_div(seq_scale(k1, E::from_u64_spec(1932)), E::from_u64_spec(2197)),
                    ),
                    seq_div(seq_scale(k2, E::from_u64_spec(7200)), E::from_u64_spec(2197)),
                ),
                seq_div(seq_scale(k3, E::from_u64_spec(7296)), E::from_u64_spec(2197)),
            ).update(
                0,
                t0.add_spec(h.mul_spec(E::from_u64_spec(12)).div_spec(E::from_u64_spec(13))),
            )
            &&& soe_step(s, p4, d4)
            &&& p5@ == seq_sub(
                seq_add(
                    seq_sub(
                        seq_add(
                            st@,
                            seq_div(seq_scale(k1, E::from_u64_spec(439)), E::from_u64_spec(216)),
                        ),
                        seq_scale(k2, E::from_u64_spec(8)),
                    ),
                    seq_div(seq_scale(k3, E::from_u64_spec(3680)), E::from_u64_spec(513)),
                ),
                seq_div(seq_scale(k4, E::from_u64_spec(845)), E::from_u64_spec(4104)),
            ).update(0, t0.add_spec(h))
            &&& soe_step(s, p5, d5)
            &&& p6@ == seq_sub(
                seq_add(
                    seq_sub(
                        seq_add(
                            seq_sub(
                                st@,
                                seq_div(seq_scale(k1, E::from_u64_spec(8)), E::from_u64_spec(27)),
                            ),
                            seq_scale(k2, E::from_u64_spec(2)),
                        ),
                        seq_div(seq_scale(k3, E::from_u64_spec(3544)), E::from_u64_spec(2565)),
                    ),
                    seq_div(seq_scale(k4, E::from_u64_spec(1859)), E::from_u64_spec(4104)),
                ),
                seq_div(seq_scale(k5, E::from_u64_spec(11)), E::from_u64_spec(40)),
            ).update(0, t0.add_spec(h.div_spec(E::from_u64_spec(2))))
            &&& soe_step(s, p6, d6)
            &&& next == seq_sub(
                seq_add(
                    seq_add(
                        seq_add(
                            st@,
                            seq_div(seq_scale(k1, E::from_u64_spec(25)), E::from_u64_spec(216)),
                        ),
                        seq_div(seq_scale(k3, E::from_u64_spec(1408)), E::from_u64_spec(2565)),
                    ),
                    seq_div(seq_scale(k4, E::from_u64_spec(2197)), E::from_u64_spec(4104)),
                ),
                seq_div(k5, E::from_u64_spec(5)),
            ).update(0, E::zero_spec())
            &&& next_cap == seq_add(
                seq_sub(
                    seq_add(
                        seq_add(
                            seq_add(
                                st@,
                                seq_div(seq_scale(k1, E::from_u64_spec(16)), E::from_u64_spec(135)),
                            ),
                            seq_div(
                                seq_scale(k3, E::from_u64_spec(6656)),
                                E::from_u64_spec(12825),
                            ),
                        ),
                        seq_div(
                            seq_scale(k4, E::from_u64_spec(28561)),
                            E::from_u64_spec(56430),
                        ),
                    ),
                    seq_div(seq_scale(k5, E::from_u64_spec(9)), E::from_u64_spec(50)),
                ),
                seq_div(seq_scale(k6, E::from_u64_spec(2)), E::from_u64_spec(55)),
            ).update(0, E::zero_spec())
        }
}

/// The accept-reject search that one request performs: attempts from state
/// `st` with step size `h`, rescaling by the control factor after every
/// attempt.  `emitted` is the view of the accepted state (its time slot set
/// to `st`'s time plus the accepted step size), or nothing when `tries`
/// attempts were all rejected; `h_after` is the step size left behind.
pub open spec fn rk45_seek<E: Num, S: Soe<Elem = E, Args = Vector<E, N>>, const N: usize>(
    s: S,
    st: Vector<E, N>,
    h: E,
    tol: E,
    tries: nat,
    emitted: Option<Seq<E>>,
    h_after: E,
) -> bool
    decreases tries,
{
    exists|next: Seq<E>, next_cap: Seq<E>|
        #![trigger rk45_attempt(s, st, h, next, next_cap)]
        {
            let err = seq_norm(seq_sub(next_cap, next));
            let hnew = h.mul_spec(sigma_of(tol, err));
            &&& rk45_attempt(s, st, h, next, next_cap)
            &&& if err.le_spec(tol) {
                emitted == Some(next.update(0, st@[0].add_spec(h))) && h_after == hnew
            } else if tries <= 1 {
                emitted is None && h_after == hnew
            } else {
                rk45_seek(s, st, hnew, tol, (tries - 1) as nat, emitted, h_after)
            }
        }
}

/// Whatever the accept-reject search emits was accepted on its merits: an
/// emitted state always stems from an attempt whose estimated local error
/// stays within the tolerance, and its time slot is the starting time plus
/// exactly the step size of that accepted attempt.
pub proof fn lemma_rk45_emitted_within_tolerance<
    E: Num,
    S: Soe<Elem = E, Args = Vector<E, N>>,
    const N: usize,
>(s: S, st: Vector<E, N>, h: E, tol: E, tries: nat, v: Seq<E>, h_after: E)
    requires
        rk45_seek(s, st, h, tol, tries, Some(v), h_after),
    ensures
        exists|hu: E, next: Seq<E>, next_cap: Seq<E>|
            #![trigger rk45_attempt(s, st, hu, next, next_cap)]
            {
                &&& rk45_attempt(s, st, hu, next, next_cap)
                &&& seq_norm(seq_sub(next_cap, next)).le_spec(tol)
                &&& v == next.update(0, st@[0].add_spec(hu))
            },
    decreases tries,
{
    let (next, next_cap) = choose|next: Seq<E>, next_cap: Seq<E>|
        #![trigger rk45_attempt(s, st, h, next, next_cap)]
        {
            let err = seq_norm(seq_sub(next_cap, next));
            let hnew = h.mul_spec(sigma_of(tol, err));
            &&& rk45_attempt(s, st, h, next, next_cap)
            &&& if err.le_spec(tol) {
                Some(v) == Some(next.update(0, st@[0].add_spec(h))) && h_after == hnew
            } else if tries <= 1 {
                Some(v) is None && h_after == hnew
            } else {
                rk45_seek(s, st, hnew, tol, (tries - 1) as nat, Some(v), h_after)
            }
        };
    let err = seq_norm(seq_sub(next_cap, next));
    if err.le_spec(tol) {
        assert(rk45_attempt(s, st, h, next, next_cap) && seq_norm(seq_sub(next_cap, next)).le_spec(
            tol,
        ) && v == next.update(0, st@[0].add_spec(h)));
    } else {
        let hnew = h.mul_spec(sigma_of(tol, err));
        lemma_rk45_emitted_within_tolerance(
            s,
            st,
            hnew,
            tol,
            (tries - 1) as nat,
            v,
            h_after,
        );
    }
}

/// The adaptive Runge-Kutta-Fehlberg integrator.
#[verifier::reject_recursive_types(E)]
#[verifier::reject_recursive_types(N)]
pub struct Rk45<E: Num, S: Soe<Elem = E, Args = Vector<E, N>>, const N: usize> {
    /// The state the next step starts from.
    pub init: Vector<E, N>,
    /// The system of equations being integrated.
    pub soe: S,
    /// The current step size; acceptance and rejection both rescale it.
    pub h: E,
    /// The local error tolerance.
    pub e: E,
    /// The maximum time: the sequence ends once the time slot exceeds it.
    pub max: E,
    /// Set once a request exhausted its retries without an accepted step.
    pub stalled: bool,
}

impl<E: Num, S: Soe<Elem = E, Args = Vector<E, N>>, const N: usize> Rk45<E, S, N> {
    /// A new integrator starting from `init` with step size `h`, error
    /// tolerance `e` and maximum time `max`.
    pub fn new(init: Vector<E, N>, soe: S, h: E, e: E, max: E) -> (r: Self)
        ensures
            r.init == init,
            r.soe == soe,
            r.h == h,
            r.e == e,
            r.max == max,
            !r.stalled,
    {
        Self { init, soe, h, e, max, stalled: false }
    }

    /// Attempts one adaptive step.
    ///
    /// Nothing is emitted, and nothing changes, once the time slot of the
    /// current state exceeds the maximum time or the integrator has
    /// stalled.  Otherwise the accept-reject search of [`rk45_seek`] runs:
    /// an accepted state is emitted and becomes the current state, its
    /// time slot advanced by exactly the step size of the accepted
    /// attempt; exhausted retries emit nothing and stall the integrator.
    /// A step is accepted only if its estimated local error is within the
    /// tolerance.
    #[verifier::rlimit(100)]
    pub fn next(&mut self) -> (r: Option<Vector<E, N>>)
        requires
            N >= 1,
            forall|a: Vector<E, N>| #[trigger] old(self).soe.accepts(a),
        ensures
            final(self).soe == old(self).soe,
            final(self).e == old(self).e,
            final(self).max == old(self).max,
            old(self).stalled || old(self).max.lt_spec(old(self).init@[0]) ==> r is None
                && *final(self) == *old(self),
            !(old(self).stalled || old(self).max.lt_spec(old(self).init@[0])) ==> match r {
                Some(v) => {
                    &&& final(self).init == v
                    &&& final(self).stalled == old(self).stalled
                    &&& rk45_seek(
                        old(self).soe,
                        old(self).init,
                        old(self).h,
                        old(self).e,
                        RETRY_LIMIT as nat,
                        Some(v@),
                        final(self).h,
                    )
                },
                None => {
                    &&& final(self).init == old(self).init
                    &&& final(self).stalled
                    &&& rk45_seek(
                        old(self).soe,
                        old(self).init,
                        old(self).h,
                        old(self).e,
                        RETRY_LIMIT as nat,
                        None::<Seq<E>>,
                        final(self).h,
                    )
                },
            },
    {
        if self.stalled {
            return None;
        }
        if self.max.lt(self.init.data[0]) {
            return None;
        }

        let mut tries: usize = 0;

        loop
            invariant
                N >= 1,
                tries < RETRY_LIMIT,
                self.init == old(self).init,
                self.soe == old(self).soe,
                self.e == old(self).e,
                self.max == old(self).max,
                self.stalled == old(self).stalled,
                !self.stalled,
                !old(self).max.lt_spec(old(self).init@[0]),
                forall|a: Vector<E, N>| #[trigger] self.soe.accepts(a),
                forall|em: Option<Seq<E>>, ha: E|
                    rk45_seek(
                        old(self).soe,
                        old(self).init,
                        self.h,
                        old(self).e,
                        (RETRY_LIMIT - tries) as nat,
                        em,
                        ha,
                    ) ==> rk45_seek(
                        old(self).soe,
                        old(self).init,
                        old(self).h,
                        old(self).e,
                        RETRY_LIMIT as nat,
                        em,
                        ha,
                    ),
            decreases RETRY_LIMIT - tries,
        {
            let ghost h_it = self.h;
            let ghost tries_left = (RETRY_LIMIT - tries) as nat;

            let d1 = crate::methods::call_soe(&mut self.soe, &self.init);
            let k1 = d1.mul(self.h);

            let next_params = self.init.add(k1.div(E::from_u64(4)));

            let ghost p2 = next_params;
            let d2 = crate::methods::call_soe(&mut self.soe, &next_params);
            let k2 = d2.mul(self.h);

            let mut next_params = self.init.add(
                k1.mul(E::from_u64(3)).div(E::from_u64(32)),
            ).add(k2.mul(E::from_u64(9)).div(E::from_u64(32)));
            let t3 = self.init.data[0].add(self.h.mul(E::from_u64(3)).div(E::from_u64(8)));
            next_params.data[0] = t3;

            let ghost p3 = next_params;
            let d3 = crate::methods::call_soe(&mut self.soe, &next_params);
            let k3 = d3.mul(self.h);

            let mut next_params = self.init.add(
                k1.mul(E::from_u64(1932)).div(E::from_u64(2197)),
            ).sub(k2.mul(E::from_u64(7200)).div(E::from_u64(2197))).add(
                k3.mul(E::from_u64(7296)).div(E::from_u64(2197)),
            );
            let t4 = self.init.data[0].add(self.h.mul(E::from_u64(12)).div(E::from_u64(13)));
            next_params.data[0] = t4;

            let ghost p4 = next_params;
            let d4 = crate::methods::call_soe(&mut self.soe, &next_params);
            let k4 = d4.mul(self.h);

            let mut next_params = self.init.add(
                k1.mul(E::from_u64(439)).div(E::from_u64(216)),
            ).sub(k2.mul(E::from_u64(8))).add(k3.mul(E::from_u64(3680)).div(E::from_u64(513))).sub(
                k4.mul(E::from_u64(845)).div(E::from_u64(4104)),
            );
            let t5 = self.init.data[0].add(self.h);
            next_params.data[0] = t5;

            let ghost p5 = next_params;
            let d5 = crate::methods::call_soe(&mut self.soe, &next_params);
            let k5 = d5.mul(self.h);

            let mut next_params = self.init.sub(
                k1.mul(E::from_u64(8)).div(E::from_u64(27)),
            ).add(k2.mul(E::from_u64(2))).sub(k3.mul(E::from_u64(3544)).div(E::from_u64(2565))).add(
                k4.mul(E::from_u64(1859)).div(E::from_u64(4104)),
            ).sub(k5.mul(E::from_u64(11)).div(E::from_u64(40)));
            let t6 = self.init.data[0].add(self.h.div(E::from_u64(2)));
            next_params.data[0] = t6;

            let ghost p6 = next_params;
            let d6 = crate::methods::call_soe(&mut self.soe, &next_params);
            let k6 = d6.mul(self.h);

            let mut next = self.init.add(k1.mul(E::from_u64(25)).div(E::from_u64(216))).add(
                k3.mul(E::from_u64(1408)).div(E::from_u64(2565)),
            ).add(k4.mul(E::from_u64(2197)).div(E::from_u64(4104))).sub(k5.div(E::from_u64(5)));
            next.data[0] = E::zero();

            let mut next_cap = self.init.add(k1.mul(E::from_u64(16)).div(E::from_u64(135))).add(
                k3.mul(E::from_u64(6656)).div(E::from_u64(12825)),
            ).add(k4.mul(E::from_u64(28561)).div(E::from_u64(56430))).sub(
                k5.mul(E::from_u64(9)).div(E::from_u64(50)),
            ).add(k6.mul(E::from_u64(2)).div(E::from_u64(55)));
            next_cap.data[0] = E::zero();

            let ghost next_v = next@;
            let ghost cap_v = next_cap@;

            let err = crate::methods::abs(&next_cap.sub(next));

            let sigma = self.e.div(err).pow(E::from_u64(2).div(E::from_u64(10))).mul(
                E::from_u64(9).div(E::from_u64(10)),
            );

            proof {
                assert(soe_step(old(self).soe, old(self).init, d1@) && soe_step(
                    old(self).soe,
                    p2,
                    d2@,
                ) && soe_step(old(self).soe, p3, d3@) && soe_step(old(self).soe, p4, d4@)
                    && soe_step(old(self).soe, p5, d5@) && soe_step(old(self).soe, p6, d6@));
                assert(rk45_attempt(old(self).soe, old(self).init, h_it, next@, next_cap@));
            }

            if err.le(self.e) {
                let time = self.init.data[0].add(self.h);
                next.data[0] = time;

                proof {
                    assert(rk45_seek(
                        old(self).soe,
                        old(self).init,
                        h_it,
                        old(self).e,
                        tries_left,
                        Some(next@),
                        h_it.mul_spec(sigma_of(old(self).e, seq_norm(seq_sub(cap_v, next_v)))),
                    ));
                }

                self.init = next;
                self.h = self.h.mul(sigma);
                return Some(next);
            } else {
                let ghost h_new = h_it.mul_spec(
                    sigma_of(old(self).e, seq_norm(seq_sub(cap_v, next_v))),
                );
                self.h = self.h.mul(sigma);
                tries = tries + 1;
                if tries == RETRY_LIMIT {
                    proof {
                        assert(rk45_seek(
                            old(self).soe,
                            old(self).init,
                            h_it,
                            old(self).e,
                            1nat,
                            None::<Seq<E>>,
                            h_new,
                        ));
                    }
                    self.stalled = true;
                    return None;
                }
                proof {
                    assert forall|em: Option<Seq<E>>, ha: E|
                        rk45_seek(
                            old(self).soe,
                            old(self).init,
                            self.h,
                            old(self).e,
                            (RETRY_LIMIT - tries) as nat,
                            em,
                            ha,
                        ) implies rk45_seek(
                        old(self).soe,
                        old(self).init,
                        old(self).h,
                        old(self).e,
                        RETRY_LIMIT as nat,
                        em,
                        ha,
                    ) by {
                        assert(rk45_seek(
                            old(self).soe,
                            old(self).init,
                            h_it,
                            old(self).e,
                            (RETRY_LIMIT - tries + 1) as nat,
                            em,
                            ha,
                        ));
                    }
                }
            }
        }
    }
}

} // verus!
