//! Decision logic of a small brokerage account inquiry program.
//!
//! The program reads a TOML configuration, opens a brokerage client and asks
//! two read-only questions about the account: the stock balance and the buying
//! power for one security. This crate holds everything the program decides:
//! how the configuration text becomes a typed record, what the client is
//! opened with, which parameters each inquiry carries, in which order the
//! steps run and what is written out. Reading files, talking to the network
//! and printing are left to the caller, which feeds the results back as
//! events.

pub mod config;
pub mod driver;
pub mod error;
pub mod request;
pub mod trace;

pub use config::{from_deserializer, get_config, parse_config, Config, Environment};
pub use driver::{on_config, result_line, step, Action, Event, State, Transition};
pub use error::RunError;
pub use request::{
    balance_query, buying_power_query, get_api, Account, BalanceQuery, BuyingPowerQuery,
    ClientRequest,
};
pub use trace::replay;
