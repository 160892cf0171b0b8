//! The six slider-controlled scalars that a frame is rendered from.

use vstd::prelude::*;

verus! {

/// The circle constant pi, rounded to micro units. The camera angles are
/// bounded by it, as the sliders that feed them are.
pub const PI_MICRO: i64 = 3_141_593;

/// Largest magnitude of a mean, in micro units (the means range over
/// [-10.0, 10.0]).
pub const MEAN_LIMIT: i64 = 10_000_000;

/// Largest standard deviation, in micro units (the deviations range over
/// [0.0, 10.0]; a deviation of exactly 0 leaves the density undefined).
pub const STD_LIMIT: i64 = 10_000_000;

/// One snapshot of the plot's parameters, in micro units: the camera angles
/// and the mean and standard deviation of the density along each axis.
///
/// The front end mutates one such value from its slider callbacks and hands
/// the renderer a copy per frame; nothing here outlives a render call.
#[derive(Clone, Copy, Debug, PartialEq, Eq, Structural)]
pub struct PlotParams {
    /// Camera tilt, in [-PI_MICRO, PI_MICRO].
    pub pitch: i64,
    /// Camera rotation, in [0, PI_MICRO].
    pub yaw: i64,
    /// Mean of the density along the horizontal axis, in [-MEAN_LIMIT, MEAN_LIMIT].
    pub mean_x: i64,
    /// Mean of the density along the depth axis, in [-MEAN_LIMIT, MEAN_LIMIT].
    pub mean_y: i64,
    /// Standard deviation along the horizontal axis, in [0, STD_LIMIT].
    pub std_x: i64,
    /// Standard deviation along the depth axis, in [0, STD_LIMIT].
    pub std_y: i64,
}

impl PlotParams {
    /// Every field lies in its slider's range.
    pub open spec fn wf(self) -> bool {
        &&& -PI_MICRO <= self.pitch <= PI_MICRO
        &&& 0 <= self.yaw <= PI_MICRO
        &&& -MEAN_LIMIT <= self.mean_x <= MEAN_LIMIT
        &&& -MEAN_LIMIT <= self.mean_y <= MEAN_LIMIT
        &&& 0 <= self.std_x <= STD_LIMIT
        &&& 0 <= self.std_y <= STD_LIMIT
    }

    /// The density is a well-defined finite function of the parameters:
    /// both standard deviations are strictly positive.
    pub open spec fn density_defined(self) -> bool {
        self.std_x > 0 && self.std_y > 0
    }

    /// Builds a snapshot, accepting exactly the values the sliders can
    /// produce and rejecting everything else.
    pub fn new(
        pitch: i64,
        yaw: i64,
        mean_x: i64,
        mean_y: i64,
        std_x: i64,
        std_y: i64,
    ) -> (r: Option<PlotParams>)
        ensures
            r is Some <==> (PlotParams { pitch, yaw, mean_x, mean_y, std_x, std_y }).wf(),
            r matches Some(p) ==> p == (PlotParams { pitch, yaw, mean_x, mean_y, std_x, std_y }),
    {
        let p = PlotParams { pitch, yaw, mean_x, mean_y, std_x, std_y };
        if -PI_MICRO <= pitch && pitch <= PI_MICRO && 0 <= yaw && yaw <= PI_MICRO
            && -MEAN_LIMIT <= mean_x && mean_x <= MEAN_LIMIT
            && -MEAN_LIMIT <= mean_y && mean_y <= MEAN_LIMIT
            && 0 <= std_x && std_x <= STD_LIMIT
            && 0 <= std_y && std_y <= STD_LIMIT
        {
            Some(p)
        } else {
            None
        }
    }

    /// True exactly when the density is undefined (a zero standard
    /// deviation): such a snapshot must not be handed to the evaluator.
    pub fn degenerate(&self) -> (d: bool)
        ensures
            d == !self.density_defined(),
    {
        self.std_x <= 0 || self.std_y <= 0
    }

    /// Replaces the camera tilt if the new value is in range; reports
    /// whether it was accepted, so the caller can request a redraw.
    pub fn set_pitch(&mut self, value: i64) -> (accepted: bool)
        ensures
            accepted <==> -PI_MICRO <= value <= PI_MICRO,
            accepted ==> *final(self) == (PlotParams { pitch: value, ..*old(self) }),
            !accepted ==> *final(self) == *old(self),
    {
        if -PI_MICRO <= value && value <= PI_MICRO {
            self.pitch = value;
            true
        } else {
            false
        }
    }

    /// Replaces the camera rotation if the new value is in range.
    pub fn set_yaw(&mut self, value: i64) -> (accepted: bool)
        ensures
            accepted <==> 0 <= value <= PI_MICRO,
            accepted ==> *final(self) == (PlotParams { yaw: value, ..*old(self) }),
            !accepted ==> *final(self) == *old(self),
    {
        if 0 <= value && value <= PI_MICRO {
            self.yaw = value;
            true
        } else {
            false
        }
    }

    /// Replaces the horizontal mean if the new value is in range.
    pub fn set_mean_x(&mut self, value: i64) -> (accepted: bool)
        ensures
            accepted <==> -MEAN_LIMIT <= value <= MEAN_LIMIT,
            accepted ==> *final(self) == (PlotParams { mean_x: value, ..*old(self) }),
            !accepted ==> *final(self) == *old(self),
    {
        if -MEAN_LIMIT <= value && value <= MEAN_LIMIT {
            self.mean_x = value;
            true
        } else {
            false
        }
    }

    /// Replaces the depth mean if the new value is in range.
    pub fn set_mean_y(&mut self, value: i64) -> (accepted: bool)
        ensures
            accepted <==> -MEAN_LIMIT <= value <= MEAN_LIMIT,
            accepted ==> *final(self) == (PlotParams { mean_y: value, ..*old(self) }),
            !accepted ==> *final(self) == *old(self),
    {
        if -MEAN_LIMIT <= value && value <= MEAN_LIMIT {
            self.mean_y = value;
            true
        } else {
            false
        }
    }

    /// Replaces the horizontal standard deviation if the new value is in
    /// range.
    pub fn set_std_x(&mut self, value: i64) -> (accepted: bool)
        ensures
            accepted <==> 0 <= value <= STD_LIMIT,
            accepted ==> *final(self) == (PlotParams { std_x: value, ..*old(self) }),
            !accepted ==> *final(self) == *old(self),
    {
        if 0 <= value && value <= STD_LIMIT {
            self.std_x = value;
            true
        } else {
            false
        }
    }

    /// Replaces the depth standard deviation if the new value is in range.
    pub fn set_std_y(&mut self, value: i64) -> (accepted: bool)
        ensures
            accepted <==> 0 <= value <= STD_LIMIT,
            accepted ==> *final(self) == (PlotParams { std_y: value, ..*old(self) }),
            !accepted ==> *final(self) == *old(self),
    {
        if 0 <= value && value <= STD_LIMIT {
            self.std_y = value;
            true
        } else {
            false
        }
    }
}

impl Default for PlotParams {
    /// The all-zero snapshot the front end starts from before any slider
    /// has reported a value. It is in range but degenerate: both standard
    /// deviations are 0, so no density can be evaluated from it.
    fn default() -> (p: Self)
        ensures
            p == (PlotParams {
                pitch: 0i64,
                yaw: 0i64,
                mean_x: 0i64,
                mean_y: 0i64,
                std_x: 0i64,
                std_y: 0i64,
            }),
            p.wf(),
            !p.density_defined(),
    {
        PlotParams { pitch: 0, yaw: 0, mean_x: 0, mean_y: 0, std_x: 0, std_y: 0 }
    }
}

/// Accepted setter calls preserve well-formedness: a snapshot built by
/// `new` stays in range however the sliders move it.
pub proof fn lemma_setters_preserve_wf(before: PlotParams, after: PlotParams)
    requires
        before.wf(),
        ({
            ||| after == (PlotParams { pitch: after.pitch, ..before }) && -PI_MICRO <= after.pitch <= PI_MICRO
            ||| after == (PlotParams { yaw: after.yaw, ..before }) && 0 <= after.yaw <= PI_MICRO
            ||| after == (PlotParams { mean_x: after.mean_x, ..before }) && -MEAN_LIMIT <= after.mean_x <= MEAN_LIMIT
            ||| after == (PlotParams { mean_y: after.mean_y, ..before }) && -MEAN_LIMIT <= after.mean_y <= MEAN_LIMIT
            ||| after == (PlotParams { std_x: after.std_x, ..before }) && 0 <= after.std_x <= STD_LIMIT
            ||| after == (PlotParams { std_y: after.std_y, ..before }) && 0 <= after.std_y <= STD_LIMIT
        }),
    ensures
        after.wf(),
{
}

} // verus!
