//! Planning and reconciliation rules of a controller that keeps the consumer
//! allow-lists of managed VPC endpoint services in step with the accounts of an
//! organization.
//!
//! The library decides; the program around it talks to the cloud. Every
//! decision is a function from plain values to plain values with a proved
//! contract.

pub mod text;
pub mod arn;
pub mod accounts;
pub mod cli;
pub mod plan;
pub mod controller;
pub mod runs;
pub mod cycle;
