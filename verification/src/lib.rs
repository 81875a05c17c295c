//! Self-healing reconciler core for load-balancer service records whose
//! externally advertised hostname is registered by an out-of-cluster
//! DHCP/DNS agent.
//!
//! The crate holds the decision core of the reconciler: classifying
//! name-lookup outcomes, the bounded polling algorithm, the sanitization
//! rules that make a stored service record safe to recreate, and the
//! per-object repair state machine. All network work (resolver queries,
//! cluster list/delete/create) happens outside this crate; callers hand
//! the results in as plain values and this crate decides what to do next.

pub mod dns;
pub mod k8s;
pub mod repair;
pub mod settings;
