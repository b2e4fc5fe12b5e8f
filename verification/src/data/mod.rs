//! The objects that travel on data streams and in datagrams.

pub mod datagram;
pub mod extension;
pub mod laws;
pub mod stream;

pub use datagram::{Datagram, DatagramType};
pub use extension::ExtensionHeaders;
pub use stream::{
    ObjectStatus, StreamHeaderType, SubgroupHeader, SubgroupIdMode, SubgroupObject,
};
