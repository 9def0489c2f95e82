use vstd::prelude::*;

verus! {

/// HCI reason code: the remote user terminated the connection.
pub const REMOTE_USER_TERMINATED_CONN: u8 = 0x13;

/// A span of time, in microseconds.
#[derive(Debug, Clone, Copy, PartialEq, Eq, Structural)]
pub struct Duration {
    pub micros: u64,
}

impl Duration {
    pub fn from_micros(micros: u64) -> (r: Duration)
        ensures
            r.micros == micros,
    {
        Duration { micros }
    }

    pub fn from_millis(millis: u32) -> (r: Duration)
        ensures
            r.micros == millis * 1000,
    {
        Duration { micros: millis as u64 * 1000 }
    }

    pub fn from_secs(secs: u32) -> (r: Duration)
        ensures
            r.micros == secs * 1_000_000,
    {
        Duration { micros: secs as u64 * 1_000_000 }
    }

    pub fn as_micros(&self) -> (r: u64)
        ensures
            r == self.micros,
    {
        self.micros
    }
}

/// Connection parameters a central asks for.
#[derive(Debug, Clone, Copy, PartialEq, Eq, Structural)]
pub struct ConnectParams {
    pub min_connection_interval: Duration,
    pub max_connection_interval: Duration,
    pub max_latency: u16,
    pub event_length: Duration,
    pub supervision_timeout: Duration,
}

impl Default for ConnectParams {
    /// Intervals of 80 ms, no latency, no event length and a supervision
    /// timeout of 8 s.
    fn default() -> (r: ConnectParams)
        ensures
            r.min_connection_interval.micros == 80_000,
            r.max_connection_interval.micros == 80_000,
            r.max_latency == 0,
            r.event_length.micros == 0,
            r.supervision_timeout.micros == 8_000_000,
    {
        ConnectParams {
            min_connection_interval: Duration::from_millis(80),
            max_connection_interval: Duration::from_millis(80),
            max_latency: 0,
            event_length: Duration::from_secs(0),
            supervision_timeout: Duration::from_secs(8),
        }
    }
}

/// Parameters of an HCI Disconnect command.
#[derive(Debug, Clone, Copy, PartialEq, Eq, Structural)]
pub struct DisconnectParams {
    pub handle: u16,
    pub reason: u8,
}

/// Parameters of an HCI LE Connection Update command.
#[derive(Debug, Clone, Copy, PartialEq, Eq, Structural)]
pub struct ConnUpdateParams {
    pub handle: u16,
    pub interval_min: Duration,
    pub interval_max: Duration,
    pub max_latency: u16,
    pub supervision_timeout: Duration,
    pub min_ce_length: Duration,
    pub max_ce_length: Duration,
}

/// A connection, known by the handle the controller gave it.
#[derive(Debug, Clone, Copy, PartialEq, Eq, Structural)]
pub struct Connection {
    handle: u16,
}

impl Connection {
    pub closed spec fn spec_handle(&self) -> u16 {
        self.handle
    }

    pub fn new(handle: u16) -> (r: Connection)
        ensures
            r.spec_handle() == handle,
    {
        Connection { handle }
    }

    pub fn handle(&self) -> (r: u16)
        ensures
            r == self.spec_handle(),
    {
        self.handle
    }

    /// The command that ends this connection, as its remote user would.
    pub fn disconnect_params(&self) -> (r: DisconnectParams)
        ensures
            r == (DisconnectParams {
                handle: self.spec_handle(),
                reason: REMOTE_USER_TERMINATED_CONN,
            }),
    {
        DisconnectParams { handle: self.handle, reason: REMOTE_USER_TERMINATED_CONN }
    }

    /// The command that asks for `params` on this connection; connection
    /// event lengths are left to the controller.
    pub fn conn_update_params(&self, params: &ConnectParams) -> (r: ConnUpdateParams)
        ensures
            r == (ConnUpdateParams {
                handle: self.spec_handle(),
                interval_min: params.min_connection_interval,
                interval_max: params.max_connection_interval,
                max_latency: params.max_latency,
                supervision_timeout: params.supervision_timeout,
                min_ce_length: Duration { micros: 0 },
                max_ce_length: Duration { micros: 0 },
            }),
    {
        ConnUpdateParams {
            handle: self.handle,
            interval_min: params.min_connection_interval,
            interval_max: params.max_connection_interval,
            max_latency: params.max_latency,
            supervision_timeout: params.supervision_timeout,
            min_ce_length: Duration { micros: 0 },
            max_ce_length: Duration { micros: 0 },
        }
    }
}

} // verus!
