//! A permissioned civic-administration ledger.
//!
//! The library tracks per-ward tax rates, tax payments into a custodial
//! treasury pool, citizen grievances, municipal projects, and post-completion
//! feedback, under a two-tier authority model: a government officer who
//! appoints and configures, and a municipal head who executes.
//!
//! Every operation is an authorization-gated transition of a [`ledger::Ledger`]
//! value; records are located by the deterministic addresses of [`addr`].

pub mod addr;
pub mod ledger;
pub mod types;
