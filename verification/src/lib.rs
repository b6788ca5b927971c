//! A registry of per-city circle rates with a single administrator.
//!
//! The registry stores, for each city, a regulator-set reference price
//! together with the time of its last write. One identity, fixed when the
//! registry is created, may add cities and change their rates; anyone may
//! read them.
//!
//! - [`contract`] holds the requests the registry answers.
//! - [`model`] says what the registry is as a mathematical value, and what
//!   each request makes of it.
//! - [`laws`] proves what holds of the registry whatever it is sent.
//! - [`state`], [`accounts`], [`identity`] and [`error`] hold the data the
//!   requests work on, [`guard`] the check of the caller, and [`clock`] the
//!   source of the timestamps.

pub mod accounts;
pub mod clock;
pub mod contract;
pub mod error;
pub mod guard;
pub mod identity;
pub mod laws;
pub mod model;
pub mod state;

pub use crate::accounts::{AdminAccount, Initialize, ViewRate};
pub use crate::contract::{
    add_city, add_city_at, get_circle_rate, get_city_list, initialize, update_city_rate,
    update_city_rate_at,
};
pub use crate::error::{OracleError, TransitionError};
pub use crate::identity::Identity;
pub use crate::state::{CircleInfo, OracleState};
