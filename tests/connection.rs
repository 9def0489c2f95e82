use trouble_host::codec::CodecError;
use trouble_host::connection::{ConnectParams, Connection, Duration};
use trouble_host::error::AdvertisementDataError;
use trouble_host::{AdapterError, Error};

#[test]
fn connect_params_defaults() {
    let p = ConnectParams::default();
    assert_eq!(p.min_connection_interval, Duration::from_millis(80));
    assert_eq!(p.max_connection_interval.as_micros(), 80_000);
    assert_eq!(p.max_latency, 0);
    assert_eq!(p.event_length.as_micros(), 0);
    assert_eq!(p.supervision_timeout, Duration::from_secs(8));
}

#[test]
fn connection_commands() {
    let c = Connection::new(0x0040);
    assert_eq!(c.handle(), 0x0040);
    let d = c.disconnect_params();
    assert_eq!(d.handle, 0x0040);
    assert_eq!(d.reason, 0x13);
    let mut p = ConnectParams::default();
    p.max_latency = 4;
    p.max_connection_interval = Duration::from_millis(100);
    let u = c.conn_update_params(&p);
    assert_eq!(u.handle, 0x0040);
    assert_eq!(u.interval_min, Duration::from_micros(80_000));
    assert_eq!(u.interval_max, Duration::from_millis(100));
    assert_eq!(u.max_latency, 4);
    assert_eq!(u.supervision_timeout.as_micros(), 8_000_000);
    assert_eq!(u.min_ce_length.as_micros(), 0);
    assert_eq!(u.max_ce_length.as_micros(), 0);
}

#[test]
fn error_conversions() {
    assert_eq!(Error::from(CodecError::InsufficientSpace), Error::InsufficientSpace);
    assert_eq!(Error::from(CodecError::InvalidValue), Error::InvalidValue);
    let a: AdapterError<u8> = AdapterError::from(Error::NotFound);
    assert_eq!(a, AdapterError::Adapter(Error::NotFound));
    let b: AdapterError<u8> = AdapterError::from(CodecError::InvalidValue);
    assert_eq!(b, AdapterError::Adapter(Error::InvalidValue));
    let c = Error::Advertisement(AdvertisementDataError::TooLong);
    assert_ne!(c, Error::Other);
}
