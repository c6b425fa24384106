//! Client-side model of the SpaceTraders game service: how a client is
//! configured, what it asks the service, and how it reads the answer.

pub mod cargo;
pub mod client;
pub mod endpoint;
pub mod headers;
pub mod loan;
pub mod ship;
pub mod status;
pub mod timestamp;
pub mod transport;
pub mod user;

pub use cargo::Cargo;
pub use client::{Client, ConfigError};
pub use loan::Loan;
pub use ship::Ship;
pub use timestamp::Timestamp;
pub use user::User;
