//! Outbound-target classification model for a service-mesh control plane.
//!
//! An external resolver maps an outbound connection's destination to exactly
//! one [`OutboundDiscoverTarget`]: a known, policy-governed resource on a
//! declared port, unmanaged external traffic to be passed through under a
//! fallback policy, or a known Service whose requested port is not declared
//! in its specification. This crate defines that result type, its invariants
//! (a port is never zero; an egress network always carries its captured
//! original destination), and the derived accessors consumers rely on.

pub mod addr;
pub mod target;

pub use addr::Address;
pub use addr::IpAddr;
pub use target::InvalidPort;
pub use target::Kind;
pub use target::OutboundDiscoverTarget;
pub use target::Port;
pub use target::ResourceTarget;
