//! Transaction-fee economics of the ledger: the per-signature fee, the split
//! of collected fees into a burned and a retained part, and the rendering of
//! native-token amounts from their smallest fractional unit.

pub mod fee_calculator;
pub mod message;
pub mod native_token;
