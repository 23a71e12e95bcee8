//! Ledger core of a three-layer capital-allocation protocol: a DAO treasury
//! funds labels, a label lends to artists through revolving credit lines, and a
//! campaign sells tokens at a fixed price.
//!
//! The ledgers hold counters, never balances. Every operation reads its
//! context, validates, computes the new records and answers with the
//! instructions for the fungible asset service; on any error nothing has
//! changed.

pub mod asset;
pub mod error;
pub mod governance;
pub mod identity;
pub mod label_subdao;
pub mod superfan_dao;
pub mod superfan_presale;
pub mod text;
