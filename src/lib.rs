//! Impact-risk assessment for near-Earth objects: validation of raw records,
//! the composition density table, the error taxonomy and the assembly of the
//! final result.

pub mod asteroid;
pub mod density;
pub mod error;
pub mod number;
pub mod risk;

pub use asteroid::{Asteroid, AsteroidDto};
pub use density::AsteroidDensity;
pub use error::{DomainError, ErrorCategory};
pub use number::Binary64;
pub use risk::RiskResult;
