//! Time-tagged coordinate types.

use vstd::prelude::*;

use crate::frames::{CelestialFrame, Coordinate};
use crate::time_scales::UtcInstant;

verus! {

/// A velocity vector tagged with the celestial frame `F` it is expressed
/// in, in millimetres per second.
#[derive(Clone, Copy, Debug)]
pub struct VelocityVector<F: CelestialFrame> {
    /// X component, in millimetres per second.
    pub x_mm_per_s: i64,
    /// Y component, in millimetres per second.
    pub y_mm_per_s: i64,
    /// Z component, in millimetres per second.
    pub z_mm_per_s: i64,
    /// The frame marker, with no runtime representation.
    pub frame: core::marker::PhantomData<F>,
}

impl<F: CelestialFrame> VelocityVector<F> {
    /// Build a velocity vector of frame `F` from Cartesian components in
    /// millimetres per second.
    pub fn build(x_mm_per_s: i64, y_mm_per_s: i64, z_mm_per_s: i64) -> (r: VelocityVector<F>)
        ensures
            r.x_mm_per_s == x_mm_per_s,
            r.y_mm_per_s == y_mm_per_s,
            r.z_mm_per_s == z_mm_per_s,
    {
        VelocityVector {
            x_mm_per_s,
            y_mm_per_s,
            z_mm_per_s,
            frame: core::marker::PhantomData,
        }
    }
}

/// A coordinate with an associated timestamp (epoch): a position at a
/// specific moment, as celestial mechanics needs when frame orientations
/// change over time.
#[derive(Clone, Copy, Debug)]
pub struct TimedCoordinate<F: CelestialFrame> {
    /// The position.
    pub position: Coordinate<F>,
    /// The epoch at which the position is valid.
    pub epoch: UtcInstant,
}

impl<F: CelestialFrame> TimedCoordinate<F> {
    /// Create a new time-tagged coordinate.
    pub fn new(position: Coordinate<F>, epoch: UtcInstant) -> (r: TimedCoordinate<F>)
        ensures
            r.position == position,
            r.epoch == epoch,
    {
        TimedCoordinate { position, epoch }
    }

    /// The position.
    pub fn position(&self) -> (r: &Coordinate<F>)
        ensures
            r == self.position,
    {
        &self.position
    }

    /// The epoch.
    pub fn epoch(&self) -> (r: UtcInstant)
        ensures
            r == self.epoch,
    {
        self.epoch
    }

    /// Destructure into position and epoch.
    pub fn into_parts(self) -> (r: (Coordinate<F>, UtcInstant))
        ensures
            r.0 == self.position,
            r.1 == self.epoch,
    {
        (self.position, self.epoch)
    }

    /// Update the position while keeping the same epoch.
    pub fn with_position(self, position: Coordinate<F>) -> (r: TimedCoordinate<F>)
        ensures
            r.position == position,
            r.epoch == self.epoch,
    {
        TimedCoordinate { position, epoch: self.epoch }
    }

    /// Update the epoch while keeping the same position.
    pub fn with_epoch(self, epoch: UtcInstant) -> (r: TimedCoordinate<F>)
        ensures
            r.position == self.position,
            r.epoch == epoch,
    {
        TimedCoordinate { position: self.position, epoch }
    }
}

/// A complete ephemeris state: position, velocity, and epoch.
#[derive(Clone, Copy, Debug)]
pub struct EphemerisState<F: CelestialFrame> {
    /// The position.
    pub position: Coordinate<F>,
    /// The velocity.
    pub velocity: VelocityVector<F>,
    /// The epoch at which the state is valid.
    pub epoch: UtcInstant,
}

impl<F: CelestialFrame> EphemerisState<F> {
    /// Create a new ephemeris state.
    pub fn new(position: Coordinate<F>, velocity: VelocityVector<F>, epoch: UtcInstant) -> (r:
        EphemerisState<F>)
        ensures
            r.position == position,
            r.velocity == velocity,
            r.epoch == epoch,
    {
        EphemerisState { position, velocity, epoch }
    }

    /// The position.
    pub fn position(&self) -> (r: &Coordinate<F>)
        ensures
            r == self.position,
    {
        &self.position
    }

    /// The velocity.
    pub fn velocity(&self) -> (r: &VelocityVector<F>)
        ensures
            r == self.velocity,
    {
        &self.velocity
    }

    /// The epoch.
    pub fn epoch(&self) -> (r: UtcInstant)
        ensures
            r == self.epoch,
    {
        self.epoch
    }

    /// Destructure into position, velocity, and epoch.
    pub fn into_parts(self) -> (r: (Coordinate<F>, VelocityVector<F>, UtcInstant))
        ensures
            r.0 == self.position,
            r.1 == self.velocity,
            r.2 == self.epoch,
    {
        (self.position, self.velocity, self.epoch)
    }

    /// Update the position while keeping velocity and epoch.
    pub fn with_position(self, position: Coordinate<F>) -> (r: EphemerisState<F>)
        ensures
            r.position == position,
            r.velocity == self.velocity,
            r.epoch == self.epoch,
    {
        EphemerisState { position, velocity: self.velocity, epoch: self.epoch }
    }

    /// Update the velocity while keeping position and epoch.
    pub fn with_velocity(self, velocity: VelocityVector<F>) -> (r: EphemerisState<F>)
        ensures
            r.position == self.position,
            r.velocity == velocity,
            r.epoch == self.epoch,
    {
        EphemerisState { position: self.position, velocity, epoch: self.epoch }
    }

    /// Update the epoch while keeping position and velocity.
    pub fn with_epoch(self, epoch: UtcInstant) -> (r: EphemerisState<F>)
        ensures
            r.position == self.position,
            r.velocity == self.velocity,
            r.epoch == epoch,
    {
        EphemerisState { position: self.position, velocity: self.velocity, epoch }
    }
}

} // verus!
