//! Transport tuning: idle timeout and keep-alive interval.
use crate::engine::{
    configured_idle_timeout, configured_keep_alive, default_transport, set_idle_timeout,
    set_keep_alive, MAX_ENGINE_MILLIS,
};
use crate::peer_config::ConfigError;
use vstd::prelude::*;

verus! {

/// Transport tuning shared by the connect side and the listen side.
///
/// A value is made by `build_transport` and does not change afterwards.
/// Both durations are in milliseconds; an idle timeout, where there is one,
/// is never zero.
#[derive(Clone, Copy, Debug, PartialEq, Eq)]
pub struct TransportParameters {
    idle_timeout: Option<u64>,
    keep_alive_interval: u64,
}

/// Transport tuning as plain values.
pub struct TransportView {
    /// Longest silence a connection survives; `None` lets it idle for ever.
    pub idle_timeout: Option<u64>,
    /// Silence after which a keep-alive packet is sent.
    pub keep_alive_interval: u64,
}

impl View for TransportParameters {
    type V = TransportView;

    closed spec fn view(&self) -> TransportView {
        TransportView {
            idle_timeout: self.idle_timeout,
            keep_alive_interval: self.keep_alive_interval,
        }
    }
}

impl TransportView {
    /// What `build_transport` makes of its two arguments: an idle timeout of
    /// zero stands for no timeout, and the keep-alive interval is always set.
    pub open spec fn of(idle_timeout_ms: u64, keep_alive_ms: u32) -> TransportView {
        TransportView {
            idle_timeout: if idle_timeout_ms > 0 {
                Some(idle_timeout_ms)
            } else {
                None
            },
            keep_alive_interval: keep_alive_ms as u64,
        }
    }

    /// A keep-alive can be sent before the connection is reaped: the idle
    /// timeout, where there is one, exceeds the keep-alive interval.
    pub open spec fn consistent(self) -> bool {
        self.idle_timeout matches Some(t) ==> self.keep_alive_interval < t
    }

    /// The engine takes the idle timeout.
    pub open spec fn within_engine_bounds(self) -> bool {
        self.idle_timeout matches Some(t) ==> t <= MAX_ENGINE_MILLIS
    }
}

impl TransportParameters {
    #[verifier::type_invariant]
    spec fn timeout_is_not_zero(self) -> bool {
        self.idle_timeout != Some(0u64)
    }

    /// Longest silence, in milliseconds, that a connection survives; `None`
    /// where connections never idle out. Never `Some(0)`.
    pub fn idle_timeout(&self) -> (idle_timeout: Option<u64>)
        ensures
            idle_timeout == self@.idle_timeout,
            idle_timeout != Some(0u64),
    {
        proof {
            use_type_invariant(self);
        }
        self.idle_timeout
    }

    /// Silence, in milliseconds, after which a keep-alive packet is sent.
    pub fn keep_alive_interval(&self) -> (interval: u64)
        ensures
            interval == self@.keep_alive_interval,
    {
        self.keep_alive_interval
    }

    /// Tells whether the parameters are consistent. Nothing enforces this:
    /// the caller who wants keep-alives to hold a connection open checks it.
    pub fn is_consistent(&self) -> (ok: bool)
        ensures
            ok == self@.consistent(),
    {
        match self.idle_timeout {
            Some(t) => self.keep_alive_interval < t,
            None => true,
        }
    }
}

/// Builds the transport parameters from an idle timeout and a keep-alive
/// interval in milliseconds. An idle timeout of zero disables the timeout;
/// the keep-alive interval is always set.
pub fn build_transport(idle_timeout_ms: u64, keep_alive_ms: u32) -> (params: TransportParameters)
    ensures
        params@ == TransportView::of(idle_timeout_ms, keep_alive_ms),
{
    let idle_timeout = if idle_timeout_ms > 0 {
        Some(idle_timeout_ms)
    } else {
        None
    };
    TransportParameters { idle_timeout, keep_alive_interval: keep_alive_ms as u64 }
}

/// Hands the parameters to the engine. The engine refuses an idle timeout
/// beyond its bound, and nothing else. The configuration that comes back
/// holds the idle timeout and the keep-alive interval of the parameters;
/// the rest of it is the engine's own tuning.
pub fn engine_transport(params: &TransportParameters) -> (r: Result<
    quinn::TransportConfig,
    ConfigError,
>)
    ensures
        r is Ok <==> params@.within_engine_bounds(),
        r matches Err(e) ==> e == ConfigError::InvalidTransport,
        r matches Ok(config) ==> {
            &&& configured_idle_timeout(config) == params@.idle_timeout
            &&& configured_keep_alive(config) == Some(params@.keep_alive_interval)
        },
{
    let mut config = default_transport();
    if !set_idle_timeout(&mut config, params.idle_timeout) {
        return Err(ConfigError::InvalidTransport);
    }
    set_keep_alive(&mut config, params.keep_alive_interval);
    Ok(config)
}

} // verus!
