//! How a session uses the connection: one shared unit or one unit per
//! message, duplex or simplex units, how replies are found, what happens to
//! a payload that does not decode, and the limits on size and concurrency.

use vstd::prelude::*;

verus! {

/// Largest payload that one unit may carry, in bytes.
pub const MAX_MESSAGE_SIZE: usize = 10485760;

/// Default cap on the exchanges that a responder serves at once.
pub const DEFAULT_MAX_IN_FLIGHT: usize = 64;

#[derive(Debug, Clone, Copy, PartialEq, Eq, Structural)]
pub enum StreamStrategy {
    /// One duplex unit carries the session; one exchange at a time.
    SharedStream,
    /// Every message gets a unit of its own.
    StreamPerMessage,
}

#[derive(Debug, Clone, Copy, PartialEq, Eq, Structural)]
pub enum Direction {
    Bidirectional,
    Unidirectional,
}

#[derive(Debug, Clone, Copy, PartialEq, Eq, Structural)]
pub enum Correlation {
    /// The reply comes back on a unit that the responder opens; the n-th
    /// reply unit answers the n-th request.
    Positional,
    /// The reply comes back on the request's own unit.
    PerUnit,
}

#[derive(Debug, Clone, Copy, PartialEq, Eq, Structural)]
pub enum ErrorPolicy {
    /// A payload that does not decode fails its exchange.
    Strict,
    /// A payload that does not decode is replaced by the default message.
    Lenient,
}

/// Where the responder sends its reply.
#[derive(Debug, Clone, Copy, PartialEq, Eq, Structural)]
pub enum ReplyRoute {
    SameUnit,
    NewUnit,
    NoReply,
}

#[derive(Debug, Clone, Copy, PartialEq, Eq, Structural)]
pub enum ConfigError {
    /// A shared unit must carry replies, so it cannot be simplex.
    SharedSimplex,
    /// The size limit must admit at least one byte.
    ZeroSizeLimit,
    /// At least one exchange must be allowed in flight.
    ZeroConcurrency,
}

#[derive(Debug, Clone, Copy, PartialEq, Eq, Structural)]
pub struct SessionConfig {
    pub strategy: StreamStrategy,
    pub direction: Direction,
    pub correlation: Correlation,
    pub policy: ErrorPolicy,
    pub max_bytes: usize,
    pub max_in_flight: usize,
}

/// The first rule that a combination of settings breaks, if any.
pub open spec fn config_fault(
    strategy: StreamStrategy,
    direction: Direction,
    max_bytes: usize,
    max_in_flight: usize,
) -> Option<ConfigError> {
    if strategy == StreamStrategy::SharedStream && direction == Direction::Unidirectional {
        Some(ConfigError::SharedSimplex)
    } else if max_bytes == 0 {
        Some(ConfigError::ZeroSizeLimit)
    } else if max_in_flight == 0 {
        Some(ConfigError::ZeroConcurrency)
    } else {
        None
    }
}

/// Where replies go under a configuration: nowhere on simplex units, on the
/// shared unit, and per message on the request's unit or on a new one.
pub open spec fn route_of(cfg: SessionConfig) -> ReplyRoute {
    if cfg.direction == Direction::Unidirectional {
        ReplyRoute::NoReply
    } else if cfg.strategy == StreamStrategy::SharedStream {
        ReplyRoute::SameUnit
    } else if cfg.correlation == Correlation::Positional {
        ReplyRoute::NewUnit
    } else {
        ReplyRoute::SameUnit
    }
}

impl SessionConfig {
    pub open spec fn is_valid(&self) -> bool {
        config_fault(self.strategy, self.direction, self.max_bytes, self.max_in_flight) is None
    }

    /// Builds a configuration, or names the first rule it breaks.
    pub fn new(
        strategy: StreamStrategy,
        direction: Direction,
        correlation: Correlation,
        policy: ErrorPolicy,
        max_bytes: usize,
        max_in_flight: usize,
    ) -> (r: Result<SessionConfig, ConfigError>)
        ensures
            match config_fault(strategy, direction, max_bytes, max_in_flight) {
                Some(e) => r == Err::<SessionConfig, ConfigError>(e),
                None => r == Ok::<SessionConfig, ConfigError>(
                    SessionConfig { strategy, direction, correlation, policy, max_bytes, max_in_flight },
                ),
            },
    {
        if matches!(strategy, StreamStrategy::SharedStream) && matches!(direction, Direction::Unidirectional) {
            Err(ConfigError::SharedSimplex)
        } else if max_bytes == 0 {
            Err(ConfigError::ZeroSizeLimit)
        } else if max_in_flight == 0 {
            Err(ConfigError::ZeroConcurrency)
        } else {
            Ok(SessionConfig { strategy, direction, correlation, policy, max_bytes, max_in_flight })
        }
    }

    /// One duplex unit per message, each reply on a unit of its own, strict
    /// decoding and the default limits.
    pub fn per_message_echo() -> (r: SessionConfig)
        ensures
            r.is_valid(),
            r == (SessionConfig {
                strategy: StreamStrategy::StreamPerMessage,
                direction: Direction::Bidirectional,
                correlation: Correlation::Positional,
                policy: ErrorPolicy::Strict,
                max_bytes: MAX_MESSAGE_SIZE,
                max_in_flight: DEFAULT_MAX_IN_FLIGHT,
            }),
    {
        SessionConfig {
            strategy: StreamStrategy::StreamPerMessage,
            direction: Direction::Bidirectional,
            correlation: Correlation::Positional,
            policy: ErrorPolicy::Strict,
            max_bytes: MAX_MESSAGE_SIZE,
            max_in_flight: DEFAULT_MAX_IN_FLIGHT,
        }
    }

    /// Where the responder sends replies under this configuration.
    pub fn route(&self) -> (r: ReplyRoute)
        ensures
            r == route_of(*self),
    {
        if matches!(self.direction, Direction::Unidirectional) {
            ReplyRoute::NoReply
        } else if matches!(self.strategy, StreamStrategy::SharedStream) {
            ReplyRoute::SameUnit
        } else if matches!(self.correlation, Correlation::Positional) {
            ReplyRoute::NewUnit
        } else {
            ReplyRoute::SameUnit
        }
    }
}

} // verus!
