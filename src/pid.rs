//! Fixed-point PID controller with per-term limits.
use vstd::prelude::*;

use crate::fixed::{apply_limit, fmul, fmul_spec, limit_spec, within, MAG};

verus! {

/// The terms of one controller step.
#[derive(Clone, Copy, Debug, PartialEq, Eq)]
pub struct ControlOutput {
    pub p: i64,
    pub i: i64,
    pub d: i64,
    pub output: i64,
}

/// A PID controller. Gains and limits are fixed-point quantities; the
/// derivative term acts on the measurement, not on the error, so a change
/// of setpoint causes no spike.
#[derive(Clone, Copy, Debug)]
pub struct Pid {
    pub kp: i64,
    pub ki: i64,
    pub kd: i64,
    pub p_limit: i64,
    pub i_limit: i64,
    pub d_limit: i64,
    pub output_limit: i64,
    pub setpoint: i64,
    pub prev_measurement: Option<i64>,
    pub integral_term: i64,
}

pub open spec fn limit_ok(l: i64) -> bool {
    0 <= l <= MAG
}

impl Pid {
    pub open spec fn wf(&self) -> bool {
        &&& within(self.kp as int)
        &&& within(self.ki as int)
        &&& within(self.kd as int)
        &&& limit_ok(self.p_limit)
        &&& limit_ok(self.i_limit)
        &&& limit_ok(self.d_limit)
        &&& limit_ok(self.output_limit)
        &&& within(self.setpoint as int)
        &&& -self.i_limit <= self.integral_term <= self.i_limit
        &&& match self.prev_measurement {
            Some(p) => within(p as int),
            None => true,
        }
    }

    pub open spec fn error_spec(&self, m: int) -> int {
        self.setpoint - m
    }

    pub open spec fn p_spec(&self, m: int) -> int {
        limit_spec(self.p_limit as int, fmul_spec(self.error_spec(m), self.kp as int))
    }

    pub open spec fn i_spec(&self, m: int) -> int {
        limit_spec(
            self.i_limit as int,
            self.integral_term + fmul_spec(self.error_spec(m), self.ki as int),
        )
    }

    pub open spec fn d_spec(&self, m: int) -> int {
        limit_spec(
            self.d_limit as int,
            match self.prev_measurement {
                Some(prev) => fmul_spec(prev - m, self.kd as int),
                None => 0,
            },
        )
    }

    /// The controller's output for measurement `m`.
    pub open spec fn output_spec(&self, m: int) -> int {
        limit_spec(self.output_limit as int, self.p_spec(m) + self.i_spec(m) + self.d_spec(m))
    }

    /// The controller after a step with measurement `m`.
    pub open spec fn after(&self, m: i64) -> Pid {
        Pid { integral_term: self.i_spec(m as int) as i64, prev_measurement: Some(m), ..*self }
    }

    pub fn new(
        kp: i64,
        ki: i64,
        kd: i64,
        p_limit: i64,
        i_limit: i64,
        d_limit: i64,
        output_limit: i64,
        setpoint: i64,
    ) -> (r: Pid)
        requires
            within(kp as int),
            within(ki as int),
            within(kd as int),
            limit_ok(p_limit),
            limit_ok(i_limit),
            limit_ok(d_limit),
            limit_ok(output_limit),
            within(setpoint as int),
        ensures
            r.wf(),
            r == (Pid {
                kp,
                ki,
                kd,
                p_limit,
                i_limit,
                d_limit,
                output_limit,
                setpoint,
                prev_measurement: None,
                integral_term: 0,
            }),
    {
        Pid {
            kp,
            ki,
            kd,
            p_limit,
            i_limit,
            d_limit,
            output_limit,
            setpoint,
            prev_measurement: None,
            integral_term: 0,
        }
    }

    /// Clears the accumulated integral.
    pub fn reset_integral_term(&mut self)
        requires
            old(self).wf(),
        ensures
            final(self).wf(),
            *final(self) == (Pid { integral_term: 0, ..*old(self) }),
    {
        self.integral_term = 0;
    }

    /// One controller step on measurement `m`.
    pub fn next_control_output(&mut self, m: i64) -> (r: ControlOutput)
        requires
            old(self).wf(),
            within(m as int),
        ensures
            final(self).wf(),
            *final(self) == old(self).after(m),
            r == (ControlOutput {
                p: old(self).p_spec(m as int) as i64,
                i: old(self).i_spec(m as int) as i64,
                d: old(self).d_spec(m as int) as i64,
                output: old(self).output_spec(m as int) as i64,
            }),
            -old(self).output_limit <= r.output <= old(self).output_limit,
    {
        let error = self.setpoint - m;
        let p = apply_limit(self.p_limit, fmul(error, self.kp));
        let integral = apply_limit(self.i_limit, self.integral_term + fmul(error, self.ki));
        self.integral_term = integral;
        let d_unbounded = match self.prev_measurement {
            Some(prev) => fmul(prev - m, self.kd),
            None => 0,
        };
        self.prev_measurement = Some(m);
        let d = apply_limit(self.d_limit, d_unbounded);
        let output = apply_limit(self.output_limit, p + integral + d);
        ControlOutput { p, i: integral, d, output }
    }
}

} // verus!
