//! Orchestration core of a multi-tenant WebAssembly hosting platform: Cages
//! with a lifecycle state machine, replica pools, request routing, a
//! self-healing supervisor, canary rollouts and circuit breakers.
use vstd::prelude::*;

pub mod ai;
pub mod cage;
pub mod config;
pub mod health;
pub mod pool;
pub mod sites;
pub mod deployment;
pub mod router;
pub mod runtime;
pub mod services;
pub mod supervisor;
pub mod tenancy;

verus! {
} // verus!
