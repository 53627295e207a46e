use vstd::prelude::*;

verus! {

/// Which angle sensor the firmware reads the shaft with.
#[derive(Debug, Clone, Copy, PartialEq, Eq, Structural)]
pub enum AngleSensorConfig {
    OpenLoop,
    As5600,
}

/// The sense in which the sensor counts when the motor turns forward.
#[derive(Debug, Clone, Copy, PartialEq, Eq, Structural)]
pub enum NaturalDirection {
    Clockwise,
    CounterClockwise,
}

/// A known calibration of the shaft sensor.
#[derive(Debug, Clone, Copy, PartialEq, Eq, Structural)]
pub struct Config {
    pub offset: u16,
    pub pole_pairs: u8,
    pub natural_direction: NaturalDirection,
}

/// Why the shaft could not be read or initialized.
#[derive(Debug, Clone, Copy, PartialEq, Eq, Structural)]
pub enum Error<E> {
    NotInitialized,
    NoMovement,
    UnknownCountOfPolePairs,
    AngleSensorError(E),
}

/// The motor shaft: its angle sensor and, once known, its calibration.
pub struct Shaft<S> {
    sensor: S,
    config: Option<Config>,
}

impl<S> Shaft<S> {
    pub closed spec fn config(&self) -> Option<Config> {
        self.config
    }

    /// A shaft that is not calibrated yet.
    pub fn new(sensor: S) -> (r: Self)
        ensures
            r.config() is None,
    {
        Shaft { sensor, config: None }
    }

    /// Sets a calibration that is known in advance.
    pub fn init_with_config(&mut self, config: Config)
        ensures
            final(self).config() == Some(config),
    {
        self.config = Some(config);
    }

    /// The calibration, if any.
    pub fn current_config(&self) -> (r: Option<Config>)
        ensures
            r == self.config(),
    {
        self.config
    }
}

} // verus!
