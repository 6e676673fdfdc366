//! Building blocks for a networked service.
//!
//! - `failure` and `response`: a closed taxonomy of failures, its rendering,
//!   and the fixed mapping from each failure to a status code and a body.
//! - `collaborators`: where the errors of the storage and cache clients are
//!   wrapped into the taxonomy.
//! - `masked`: a wrapper that keeps a secret out of every display path.
//! - `number`: integers tagged with their parity.

mod clock;
pub mod collaborators;
pub mod failure;
pub mod masked;
pub mod number;
pub mod response;
