//! A mix-network relay engine: packet processing, forwarding with retry and
//! backoff, a per-destination connection pool, throughput counters, the
//! startup collision guard, and the node lifecycle state machine.

pub mod backoff;
pub mod forwarder;
pub mod guard;
pub mod lifecycle;
pub mod metrics;
pub mod packet;
pub mod pool;
pub mod relay;
