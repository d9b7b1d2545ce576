//! Integer sensor readings the behaviour modifiers read.
use vstd::prelude::*;

verus! {

/// Back-of-head three-zone touch strip reading. Each zone carries a
/// contact intensity.
#[derive(Debug, Default, Clone, Copy, PartialEq, Eq, Structural)]
pub struct BodyTouch {
    /// Left-zone intensity.
    pub left: u8,
    /// Centre-zone intensity.
    pub centre: u8,
    /// Right-zone intensity.
    pub right: u8,
}

impl BodyTouch {
    /// Whether any zone is in contact.
    pub open spec fn spec_any(self) -> bool {
        self.left > 0 || self.centre > 0 || self.right > 0
    }

    /// Touch centroid on a -100 (left) ..= 100 (right) axis; 0 with no touch.
    pub open spec fn spec_position(self) -> i16 {
        let total = self.left + self.centre + self.right;
        if total == 0 {
            0
        } else if self.right >= self.left {
            ((100 * (self.right - self.left)) / total) as i16
        } else {
            (-((100 * (self.left - self.right)) / total)) as i16
        }
    }

    /// `true` iff any zone is in contact.
    pub fn any(&self) -> (r: bool)
        ensures
            r == self.spec_any(),
    {
        self.left > 0 || self.centre > 0 || self.right > 0
    }

    /// Intensity-weighted centroid of the touch on a -100 (left) ..= 100
    /// (right) axis; 0 with no touch.
    pub fn position(&self) -> (r: i16)
        ensures
            r == self.spec_position(),
            -100 <= r <= 100,
    {
        let total: u32 = self.left as u32 + self.centre as u32 + self.right as u32;
        if total == 0 {
            0
        } else if self.right >= self.left {
            let num: u32 = 100 * (self.right as u32 - self.left as u32);
            proof {
                let t = total as int;
                let n = num as int;
                assert(n <= 100 * t);
                assert(n / t <= 100) by (nonlinear_arith)
                    requires t > 0, 0 <= n, n <= 100 * t;
            }
            (num / total) as i16
        } else {
            let num: u32 = 100 * (self.left as u32 - self.right as u32);
            proof {
                let t = total as int;
                let n = num as int;
                assert(n <= 100 * t);
                assert(n / t <= 100) by (nonlinear_arith)
                    requires t > 0, 0 <= n, n <= 100 * t;
            }
            -((num / total) as i16)
        }
    }
}

/// Motion classification of the camera tracker.
#[derive(Debug, Default, Clone, Copy, PartialEq, Eq, Structural)]
pub enum TrackingMotion {
    /// Tracker still warming up.
    #[default]
    Warmup,
    /// A subject is being followed.
    Tracking,
    /// The tracker holds the last target.
    Holding,
    /// The tracker is returning to centre.
    Returning,
    /// A frame-global change (lighting, camera move).
    GlobalEvent,
}

/// One tracker observation (its classification).
#[derive(Debug, Default, Clone, Copy, PartialEq, Eq, Structural)]
pub struct TrackingObservation {
    /// Motion classification.
    pub motion: TrackingMotion,
}

/// Integer sensor readings.
/// Ambient brightness, classified against the sleepy hysteresis band: below
/// the enter threshold, inside the band, or above the exit threshold.
#[derive(Debug, Clone, Copy, PartialEq, Eq, Structural)]
pub enum AmbientLight {
    /// Below the enter threshold (about 20 lux).
    Dark,
    /// Between the two thresholds.
    Dim,
    /// Above the exit threshold (about 50 lux).
    Bright,
}

#[derive(Debug, Default, Clone, Copy, PartialEq, Eq, Structural)]
pub struct Perception {
    /// Battery charge percent, once a reading has landed.
    pub battery_percent: Option<u8>,
    /// USB power presence, once a reading has landed.
    pub usb_power_present: Option<bool>,
    /// Body-touch strip reading, once one has landed.
    pub body_touch: Option<BodyTouch>,
    /// Latest tracker observation.
    pub tracking: Option<TrackingObservation>,
    /// Latest ambient-light reading, classified; `None` before the first.
    pub ambient: Option<AmbientLight>,
}

} // verus!
