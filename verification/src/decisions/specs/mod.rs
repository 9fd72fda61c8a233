//! Concrete decision specification types.
//!
//! - `boolean`: Yes/no decisions (may, ward, miracle, etc.)
//! - `number`: Numeric selections (X value, choose number)
//! - `options`: Option selection (modes)
//! - `combat`: Combat decisions (attackers, blockers, ordering)

pub mod boolean;
pub mod combat;
pub mod number;
pub mod options;
