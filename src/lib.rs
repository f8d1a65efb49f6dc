//! Continuous network-health prober: the decisions behind probing HTTP and TCP
//! endpoints, classifying outcomes, scheduling retries and aggregating metrics.

pub mod address;
pub mod config;
pub mod http_pinger;
pub mod metric;
pub mod resolver;
pub mod scheduler;
pub mod tcp_pinger;
