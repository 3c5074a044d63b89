//! A verified SOCKS5 proxy pool: health-tracked proxy records, pluggable
//! selection strategies, per-proxy token-bucket rate limiting, and a
//! bounded-retry dispatch state machine.

pub mod config;
pub mod dispatch;
pub mod error;
pub mod limiter;
pub mod pool;
pub mod proxy;
pub mod select;
pub mod utils;

pub use config::ProxyPoolConfig;
pub use config::ProxyPoolConfigBuilder;
pub use config::ProxySelectionStrategy;
pub use dispatch::DispatchAction;
pub use dispatch::DispatchEvent;
pub use dispatch::DispatchPhase;
pub use dispatch::Dispatcher;
pub use error::AttemptFailure;
pub use error::DispatchError;
pub use error::NoProxyAvailable;
pub use limiter::AcquireDecision;
pub use limiter::TokenBucket;
pub use pool::ProbeResult;
pub use pool::ProxyPool;
pub use proxy::Proxy;
pub use proxy::ProxyStatus;
pub use utils::parse_proxy_list;
