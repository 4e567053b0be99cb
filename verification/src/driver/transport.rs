//! The transport abstraction: something that reads and writes whole frames,
//! and a factory that opens one, used to reconnect.

use vstd::prelude::*;
use crate::driver::error::DriverError;

verus! {

/// A link to the board that carries whole frames.
pub trait Transport: Send + 'static {
    /// Reads one frame, blocking.
    fn read_frame(&mut self) -> Result<Vec<u8>, DriverError>;

    /// Writes one frame.
    fn write_frame(&mut self, frame: &[u8]) -> Result<(), DriverError>;

    /// Closes the link.
    fn close(&mut self) -> Result<(), DriverError>;
}

/// Opens new transports, for reconnecting.
pub trait TransportFactory: Send + Sync + 'static {
    /// Opens a new transport.
    fn create(&self) -> Result<Box<dyn Transport>, DriverError>;
}

/// A factory made of a closure.
pub struct FnTransportFactory<F> where
    F: Fn() -> Result<Box<dyn Transport>, DriverError> + Send + Sync + 'static,
 {
    factory: F,
}

impl<F> FnTransportFactory<F> where
    F: Fn() -> Result<Box<dyn Transport>, DriverError> + Send + Sync + 'static,
 {
    /// The closure may always be called.
    #[verifier::type_invariant]
    spec fn callable(self) -> bool {
        call_requires(self.factory, ())
    }

    /// The closure that opens transports.
    pub closed spec fn factory(&self) -> F {
        self.factory
    }

    /// Wraps `factory`.
    pub fn new(factory: F) -> (f: FnTransportFactory<F>)
        requires
            call_requires(factory, ()),
        ensures
            f.factory() == factory,
    {
        FnTransportFactory { factory }
    }
}

impl<F> TransportFactory for FnTransportFactory<F> where
    F: Fn() -> Result<Box<dyn Transport>, DriverError> + Send + Sync + 'static,
 {
    /// Calls the closure and returns what it returns.
    fn create(&self) -> (r: Result<Box<dyn Transport>, DriverError>)
        ensures
            call_ensures(self.factory(), (), r),
    {
        proof {
            use_type_invariant(self);
        }
        (self.factory)()
    }
}

} // verus!
