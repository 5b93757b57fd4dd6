//! The adapter as a driver uses it: a digital output pin whose `set_high`
//! fails, a driver error composed on top, and the cause-chain walk down to
//! the classification.

use embedded_hal::digital;
use embedded_hal::digital::Error as _;
use embedded_hal::digital::OutputPin;
use hal_error::hal::from_digital;
use hal_error::kind_source;
use hal_error::Error;

#[derive(Debug, PartialEq)]
pub struct HalError;

impl digital::Error for HalError {
    fn kind(&self) -> digital::ErrorKind {
        digital::ErrorKind::Other
    }
}

pub struct Pin;

impl digital::ErrorType for Pin {
    type Error = HalError;
}

impl digital::OutputPin for Pin {
    fn set_high(&mut self) -> Result<(), Self::Error> {
        Err(HalError)
    }

    fn set_low(&mut self) -> Result<(), Self::Error> {
        Ok(())
    }
}

pub enum DriverError<E> {
    Hal(Error<E, digital::ErrorKind>),
}

impl<E: digital::Error> From<E> for DriverError<E> {
    fn from(value: E) -> Self {
        DriverError::Hal(from_digital(value))
    }
}

pub fn action<P: OutputPin>(pin: &mut P) -> Result<(), DriverError<P::Error>> {
    Ok(pin.set_high()?)
}

#[test]
fn it_works() {
    let driver_err = action(&mut Pin).unwrap_err();
    let DriverError::Hal(err) = &driver_err;
    let hal_err: &HalError = err.inner();
    assert!(matches!(hal_err.kind(), digital::ErrorKind::Other));
    let kind = err.source().unwrap();
    assert!(matches!(kind, digital::ErrorKind::Other));
    assert!(kind_source(kind).is_none());
}

#[test]
fn chain_walk_scenario() {
    let mut pin = Pin;
    let first_failure = pin.set_high().unwrap_err();
    let driver_err: DriverError<HalError> = DriverError::from(first_failure);
    assert!(pin.set_low().is_ok());

    // Walking the chain from the driver error: first the adapter, whose
    // stored classification is Other ...
    let DriverError::Hal(adapter) = &driver_err;
    assert_eq!(*adapter.kind(), digital::ErrorKind::Other);
    // ... then the classification itself ...
    let cause = adapter.source().unwrap();
    assert_eq!(*cause, digital::ErrorKind::Other);
    // ... and then nothing: the chain is exactly this long.
    assert!(kind_source(cause).is_none());
}

#[test]
fn round_trip_identity() {
    let original_rendering = format!("{:?}", HalError);
    let wrapped = from_digital(HalError);
    let back = wrapped.into_inner();
    assert_eq!(format!("{:?}", back), original_rendering);
    assert!(matches!(back.kind(), digital::ErrorKind::Other));
}

#[test]
fn classification_consistency() {
    let e = HalError;
    let k = e.kind();
    let w = from_digital(e);
    assert_eq!(*w.kind(), k);
}

#[test]
fn rendering_delegation() {
    let w = from_digital(HalError);
    let inner_rendering = format!("{:?}", w.inner());
    assert_eq!(w.display_string(), inner_rendering);
    assert_eq!(w.debug_string(), inner_rendering);
}

#[test]
fn transparent_forwarding() {
    let direct = HalError.kind();
    let w = from_digital(HalError);
    let through = w.inner().kind();
    assert_eq!(through, direct);
    assert_eq!(w.inner(), &HalError);
}

#[test]
fn new_stores_both_values() {
    let w: Error<u8, u16> = Error::new(7, 9);
    assert_eq!(*w.inner(), 7);
    assert_eq!(*w.kind(), 9);
    assert_eq!(w.source(), Some(&9));
    assert_eq!(w.into_inner(), 7);
}
