//! Discovery and minimal control of Prologix GPIB-ETHERNET controllers: the
//! wire-protocol codec and the bookkeeping of one discovery, verified.
//!
//! Controllers speak a small UDP protocol on port 3040. A broadcast
//! *identify* request makes each of them answer with a 76-byte status reply;
//! a unicast *reboot* request restarts one. This crate builds the two
//! requests ([`build_discovery`], [`build_reboot`]), decodes replies
//! ([`ControllerInfo::from_bytes`]) and decides, event by event, how a
//! discovery proceeds ([`Discovery::step`]). It opens no socket and reads no
//! clock: that is left to the caller.

pub mod discovery;
pub mod error;
pub mod header;
pub mod info;
pub mod ipv4;
pub mod mac;
pub mod request;
pub mod status;
pub mod text;
pub mod version;

pub use discovery::{Action, Discovery, Event};
pub use error::Error;
pub use header::MsgHeader;
pub use info::ControllerInfo;
pub use ipv4::Ipv4Address;
pub use mac::MacAddress;
pub use request::{build_discovery, build_reboot, RebootType};
pub use status::{ControllerAlert, ControllerIpType, ControllerMode};
pub use version::ControllerVersion;
