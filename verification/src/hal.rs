//! Wrap operations, one per peripheral error family.
//!
//! Every hardware-abstraction error family exposes a classification method on
//! its error trait; each conversion here queries it once and pairs the error
//! with the answer.  The classification enumerations are carried through
//! opaquely: the adapter never inspects them, it only stores and reports
//! them.

use vstd::prelude::*;
use crate::Error;

verus! {

#[verifier::external_type_specification]
#[verifier::external_body]
pub struct ExDigitalErrorKind(embedded_hal::digital::ErrorKind);

/// Relies on `embedded_hal::digital::Error::kind`: the classification the
/// peripheral error reports at this moment.
#[verifier::external_body]
fn digital_kind<E: embedded_hal::digital::Error>(e: &E) -> embedded_hal::digital::ErrorKind {
    e.kind()
}

/// Wrap a digital I/O error together with the classification it reports.
///
/// Total and infallible: the error itself is stored unchanged, and the
/// stored classification is the one the error reported during this call.
pub fn from_digital<E: embedded_hal::digital::Error>(inner: E) -> (r: Error<
    E,
    embedded_hal::digital::ErrorKind,
>)
    ensures
        r.spec_inner() == inner,
{
    let kind = digital_kind(&inner);
    Error::new(inner, kind)
}

#[verifier::external_type_specification]
#[verifier::external_body]
pub struct ExI2cErrorKind(embedded_hal::i2c::ErrorKind);

/// Relies on `embedded_hal::i2c::Error::kind`: the classification the
/// peripheral error reports at this moment.
#[verifier::external_body]
fn i2c_kind<E: embedded_hal::i2c::Error>(e: &E) -> embedded_hal::i2c::ErrorKind {
    e.kind()
}

/// Wrap an I2C error together with the classification it reports.
///
/// Total and infallible: the error itself is stored unchanged, and the
/// stored classification is the one the error reported during this call.
pub fn from_i2c<E: embedded_hal::i2c::Error>(inner: E) -> (r: Error<
    E,
    embedded_hal::i2c::ErrorKind,
>)
    ensures
        r.spec_inner() == inner,
{
    let kind = i2c_kind(&inner);
    Error::new(inner, kind)
}

#[verifier::external_type_specification]
#[verifier::external_body]
pub struct ExPwmErrorKind(embedded_hal::pwm::ErrorKind);

/// Relies on `embedded_hal::pwm::Error::kind`: the classification the
/// peripheral error reports at this moment.
#[verifier::external_body]
fn pwm_kind<E: embedded_hal::pwm::Error>(e: &E) -> embedded_hal::pwm::ErrorKind {
    e.kind()
}

/// Wrap a PWM error together with the classification it reports.
///
/// Total and infallible: the error itself is stored unchanged, and the
/// stored classification is the one the error reported during this call.
pub fn from_pwm<E: embedded_hal::pwm::Error>(inner: E) -> (r: Error<
    E,
    embedded_hal::pwm::ErrorKind,
>)
    ensures
        r.spec_inner() == inner,
{
    let kind = pwm_kind(&inner);
    Error::new(inner, kind)
}

#[verifier::external_type_specification]
#[verifier::external_body]
pub struct ExSpiErrorKind(embedded_hal::spi::ErrorKind);

/// Relies on `embedded_hal::spi::Error::kind`: the classification the
/// peripheral error reports at this moment.
#[verifier::external_body]
fn spi_kind<E: embedded_hal::spi::Error>(e: &E) -> embedded_hal::spi::ErrorKind {
    e.kind()
}

/// Wrap an SPI error together with the classification it reports.
///
/// Total and infallible: the error itself is stored unchanged, and the
/// stored classification is the one the error reported during this call.
pub fn from_spi<E: embedded_hal::spi::Error>(inner: E) -> (r: Error<
    E,
    embedded_hal::spi::ErrorKind,
>)
    ensures
        r.spec_inner() == inner,
{
    let kind = spi_kind(&inner);
    Error::new(inner, kind)
}

#[verifier::external_type_specification]
#[verifier::external_body]
pub struct ExCanErrorKind(embedded_can::ErrorKind);

/// Relies on `embedded_can::Error::kind`: the classification the peripheral
/// error reports at this moment.
#[verifier::external_body]
fn can_kind<E: embedded_can::Error>(e: &E) -> embedded_can::ErrorKind {
    e.kind()
}

/// Wrap a CAN error together with the classification it reports.
///
/// Total and infallible: the error itself is stored unchanged, and the
/// stored classification is the one the error reported during this call.
pub fn from_can<E: embedded_can::Error>(inner: E) -> (r: Error<E, embedded_can::ErrorKind>)
    ensures
        r.spec_inner() == inner,
{
    let kind = can_kind(&inner);
    Error::new(inner, kind)
}

#[verifier::external_type_specification]
#[verifier::external_body]
pub struct ExSerialErrorKind(embedded_hal_nb::serial::ErrorKind);

/// Relies on `embedded_hal_nb::serial::Error::kind`: the classification the
/// peripheral error reports at this moment.
#[verifier::external_body]
fn serial_kind<E: embedded_hal_nb::serial::Error>(e: &E) -> embedded_hal_nb::serial::ErrorKind {
    e.kind()
}

/// Wrap a non-blocking serial error together with the classification it
/// reports.
///
/// Total and infallible: the error itself is stored unchanged, and the
/// stored classification is the one the error reported during this call.
pub fn from_serial<E: embedded_hal_nb::serial::Error>(inner: E) -> (r: Error<
    E,
    embedded_hal_nb::serial::ErrorKind,
>)
    ensures
        r.spec_inner() == inner,
{
    let kind = serial_kind(&inner);
    Error::new(inner, kind)
}

#[verifier::external_type_specification]
#[verifier::external_body]
pub struct ExIoErrorKind(embedded_io::ErrorKind);

/// Relies on `embedded_io::Error::kind`: the classification the peripheral
/// error reports at this moment.
#[verifier::external_body]
fn io_kind<E: embedded_io::Error>(e: &E) -> embedded_io::ErrorKind {
    e.kind()
}

/// Wrap a generic I/O error together with the classification it reports.
///
/// Total and infallible: the error itself is stored unchanged, and the
/// stored classification is the one the error reported during this call.
pub fn from_io<E: embedded_io::Error>(inner: E) -> (r: Error<E, embedded_io::ErrorKind>)
    ensures
        r.spec_inner() == inner,
{
    let kind = io_kind(&inner);
    Error::new(inner, kind)
}

} // verus!
