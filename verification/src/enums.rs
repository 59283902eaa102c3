//! The enumerations and flag sets, grouped by the part of the stack they
//! configure.

mod addr;
mod adv;
mod adv_flag;
mod auth_req;
pub mod bitset;
mod filter;
mod gap;
mod io_cap;
mod pair_key_dist;
mod power;

pub use addr::OwnAddrType;
pub use adv::{AdvType, TryFromPrimitiveError};
pub use adv_flag::AdvFlag;
pub use auth_req::AuthReq;
pub use filter::{AdvFilterPolicy, ScanFilterPolicy};
pub use gap::{ConnMode, DiscMode};
pub use io_cap::SecurityIOCap;
pub use pair_key_dist::PairKeyDist;
pub use power::{PowerLevel, PowerType};
