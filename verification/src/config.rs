//! Run configuration: the immutable parameters every worker shares, their
//! validation, and the defaults the benchmark starts from.

use vstd::prelude::*;

verus! {

/// Transport used to carry each request and its echo.
#[derive(Clone, Copy, PartialEq, Eq, Structural, Debug)]
pub enum Transport {
    Tcp,
    Udp,
}

/// How the payload bytes ahead of the terminator are chosen.
#[derive(Clone, Copy, PartialEq, Eq, Structural, Debug)]
pub enum PayloadKind {
    /// Every payload byte is zero.
    Zeroed,
    /// Every payload byte is drawn from the ASCII letters and digits.
    Random,
}

/// Why a configuration was rejected.
#[derive(Clone, Copy, PartialEq, Eq, Structural, Debug)]
pub enum ConfigError {
    ZeroMessageLength,
    ZeroWorkerCount,
    ZeroIoTimeout,
    ZeroRetryLimit,
    DurationTooLarge,
}

pub const DEFAULT_MESSAGE_LENGTH: usize = 512;
pub const DEFAULT_WORKER_COUNT: u32 = 50;
pub const DEFAULT_DURATION_SECS: u64 = 60;
pub const DEFAULT_IO_TIMEOUT_MILLIS: u64 = 1000;
pub const DEFAULT_UDP_RETRY_LIMIT: u32 = 3;
pub const DEFAULT_PACING_MILLIS: u64 = 0;
pub const DEFAULT_GRACE_SECS: u64 = 5;

/// The parameters of one benchmark run. Built once before the run starts and
/// shared read-only by every worker.
pub struct BenchmarkConfig {
    /// Target echo server, as `host:port`.
    pub address: String,
    /// Exact byte length of every request, terminator included.
    pub message_length: usize,
    /// Number of independent connections to drive.
    pub worker_count: u32,
    /// Nominal run length in seconds.
    pub duration_secs: u64,
    pub transport: Transport,
    pub payload: PayloadKind,
    /// Upper bound on a single blocking send or receive, in milliseconds.
    pub io_timeout_millis: u64,
    /// Attempts allowed per message before it is counted lost (UDP only).
    pub udp_retry_limit: u32,
    /// Minimum delay between messages; zero means saturation testing.
    pub pacing_millis: u64,
    /// Extra wait granted after the stop signal for late workers.
    pub grace_secs: u64,
}

impl BenchmarkConfig {
    /// The outcome validation must produce, checked in declaration order.
    pub open spec fn spec_validate(self) -> Result<(), ConfigError> {
        if self.message_length == 0 {
            Err(ConfigError::ZeroMessageLength)
        } else if self.worker_count == 0 {
            Err(ConfigError::ZeroWorkerCount)
        } else if self.io_timeout_millis == 0 {
            Err(ConfigError::ZeroIoTimeout)
        } else if self.udp_retry_limit == 0 {
            Err(ConfigError::ZeroRetryLimit)
        } else if self.duration_secs > u64::MAX - self.grace_secs {
            Err(ConfigError::DurationTooLarge)
        } else {
            Ok(())
        }
    }

    /// A configuration the run may start from: at least one byte per message,
    /// at least one worker, bounded blocking, a positive retry budget, and a
    /// deadline that fits the clock arithmetic.
    pub open spec fn valid(self) -> bool {
        self.spec_validate() is Ok
    }

    /// Check the configuration; `Ok` exactly on valid configurations, and on a
    /// rejected one the first rule broken, in declaration order.
    pub fn validate(&self) -> (r: Result<(), ConfigError>)
        ensures
            r == self.spec_validate(),
            r is Ok <==> self.valid(),
    {
        if self.message_length == 0 {
            Err(ConfigError::ZeroMessageLength)
        } else if self.worker_count == 0 {
            Err(ConfigError::ZeroWorkerCount)
        } else if self.io_timeout_millis == 0 {
            Err(ConfigError::ZeroIoTimeout)
        } else if self.udp_retry_limit == 0 {
            Err(ConfigError::ZeroRetryLimit)
        } else if self.duration_secs > u64::MAX - self.grace_secs {
            Err(ConfigError::DurationTooLarge)
        } else {
            Ok(())
        }
    }
}

impl Default for BenchmarkConfig {
    /// The stock configuration: local echo server, 512-byte messages, 50
    /// workers, 60 seconds, TCP with zeroed payloads.
    fn default() -> (r: Self)
        ensures
            r.address@ == "127.0.0.1:12345"@,
            r.message_length == DEFAULT_MESSAGE_LENGTH,
            r.worker_count == DEFAULT_WORKER_COUNT,
            r.duration_secs == DEFAULT_DURATION_SECS,
            r.transport == Transport::Tcp,
            r.payload == PayloadKind::Zeroed,
            r.io_timeout_millis == DEFAULT_IO_TIMEOUT_MILLIS,
            r.udp_retry_limit == DEFAULT_UDP_RETRY_LIMIT,
            r.pacing_millis == DEFAULT_PACING_MILLIS,
            r.grace_secs == DEFAULT_GRACE_SECS,
            r.valid(),
    {
        BenchmarkConfig {
            address: "127.0.0.1:12345".to_owned(),
            message_length: DEFAULT_MESSAGE_LENGTH,
            worker_count: DEFAULT_WORKER_COUNT,
            duration_secs: DEFAULT_DURATION_SECS,
            transport: Transport::Tcp,
            payload: PayloadKind::Zeroed,
            io_timeout_millis: DEFAULT_IO_TIMEOUT_MILLIS,
            udp_retry_limit: DEFAULT_UDP_RETRY_LIMIT,
            pacing_millis: DEFAULT_PACING_MILLIS,
            grace_secs: DEFAULT_GRACE_SECS,
        }
    }
}

} // verus!
