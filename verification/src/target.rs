//! The outbound policy-resolution outcome and its building blocks.

use crate::addr::Address;
use vstd::prelude::*;

verus! {

/// Rejection of an attempt to construct a target with a port of zero.
#[derive(Clone, Copy, Debug, PartialEq, Eq, Structural)]
pub struct InvalidPort;

/// A destination port, restricted at construction to `1..=65535`.
///
/// Zero is rejected when a port is made, not merely discouraged: every
/// `Port` value that exists carries a non-zero number.
#[derive(Clone, Copy, Debug)]
pub struct Port {
    value: u16,
}

impl Port {
    #[verifier::type_invariant]
    spec fn inv(self) -> bool {
        self.value != 0
    }

    /// The number this port stands for.
    pub closed spec fn spec_value(self) -> u16 {
        self.value
    }

    /// Accepts exactly the non-zero port numbers; zero is rejected.
    pub fn new(value: u16) -> (r: Result<Port, InvalidPort>)
        ensures
            r is Ok <==> value != 0,
            r matches Ok(p) ==> p.spec_value() == value,
            value == 0 ==> r == Err::<Port, InvalidPort>(InvalidPort),
    {
        if value == 0 {
            Err(InvalidPort)
        } else {
            Ok(Port { value })
        }
    }

    /// The numeric value, always within `1..=65535`.
    pub fn value(self) -> (r: u16)
        ensures
            r == self.spec_value(),
            1 <= r <= 65535,
    {
        proof {
            use_type_invariant(self);
        }
        self.value
    }
}

/// The category of policy-governed resource a target belongs to.
///
/// The union is closed: every consumer must handle both variants, and the
/// two identifying strings per variant are part of the external contract
/// with API-serialization collaborators and never change.
#[derive(Clone, Copy, Debug, Hash, PartialEq, Eq, Structural)]
pub enum Kind {
    /// An egress-network resource. It carries the literal original
    /// destination captured before any redirection, because egress policy
    /// is evaluated against the true destination, not a cluster-internal
    /// virtual IP.
    EgressNetwork(Address),
    /// A cluster-local Service. Its address is derivable from service
    /// discovery, so no captured destination is carried.
    Service,
}

impl Kind {
    /// The original destination this kind carries: the captured address for
    /// an egress network, nothing for a Service.
    pub open spec fn spec_original_dst(self) -> Option<Address> {
        match self {
            Kind::EgressNetwork(original_dst) => Some(original_dst),
            Kind::Service => None,
        }
    }

    /// The fixed API group identifying this kind.
    pub open spec fn spec_group(self) -> Seq<char> {
        match self {
            Kind::EgressNetwork(_) => "policy.linkerd.io"@,
            Kind::Service => "core"@,
        }
    }

    /// The fixed API kind name identifying this kind.
    pub open spec fn spec_kind(self) -> Seq<char> {
        match self {
            Kind::EgressNetwork(_) => "EgressNetwork"@,
            Kind::Service => "Service"@,
        }
    }

    /// The API group of the resource category, a fixed string per variant.
    pub fn group(&self) -> (r: &'static str)
        ensures
            r@ == self.spec_group(),
    {
        match self {
            Kind::EgressNetwork(_) => "policy.linkerd.io",
            Kind::Service => "core",
        }
    }

    /// The API kind name of the resource category, a fixed string per
    /// variant.
    pub fn kind(&self) -> (r: &'static str)
        ensures
            r@ == self.spec_kind(),
    {
        match self {
            Kind::EgressNetwork(_) => "EgressNetwork",
            Kind::Service => "Service",
        }
    }
}

/// Identifies a specific policy-governed resource and the destination port
/// of the connection being resolved.
///
/// `namespace` is the resource's own namespace; `source_namespace` is the
/// namespace of the client that initiated the connection, kept separately
/// because namespace-scoped policy lookups are relative to the caller.
#[derive(Clone, Debug)]
pub struct ResourceTarget {
    pub name: String,
    pub namespace: String,
    pub port: Port,
    pub source_namespace: String,
    pub kind: Kind,
}

impl ResourceTarget {
    /// Builds a target after validating the port: a zero port is rejected,
    /// never coerced; any other port yields the target with exactly the
    /// given fields.
    pub fn new(
        name: String,
        namespace: String,
        port: u16,
        source_namespace: String,
        kind: Kind,
    ) -> (r: Result<ResourceTarget, InvalidPort>)
        ensures
            r is Ok <==> port != 0,
            r matches Ok(rt) ==> rt.name == name && rt.namespace == namespace
                && rt.port.spec_value() == port && rt.source_namespace == source_namespace
                && rt.kind == kind,
            port == 0 ==> r == Err::<ResourceTarget, InvalidPort>(InvalidPort),
    {
        match Port::new(port) {
            Ok(p) => Ok(
                ResourceTarget { name, namespace, port: p, source_namespace, kind },
            ),
            Err(e) => Err(e),
        }
    }

    /// The captured original destination, present if and only if the target
    /// is an egress network; a Service has no independent original
    /// destination in this model, so `None` there is not an error.
    pub fn original_dst(&self) -> (r: Option<Address>)
        ensures
            r == self.kind.spec_original_dst(),
    {
        match self.kind {
            Kind::EgressNetwork(original_dst) => Some(original_dst),
            Kind::Service => None,
        }
    }
}

/// The outcome of resolving an outbound connection's destination: exactly
/// one of three cases holds, and the union is closed, so a consumer
/// branching on it must handle every case.
#[derive(Clone, Debug)]
pub enum OutboundDiscoverTarget {
    /// The destination is a known, policy-governed resource on a valid,
    /// declared port.
    Resource(ResourceTarget),
    /// The destination is outside any known resource; the carried address
    /// is the literal socket address traffic should be forwarded to,
    /// unmodified, under a fallback policy.
    External(Address),
    /// The destination is a known Service, but the requested port is not
    /// declared in the Service's specification: the same identity as
    /// `Resource`, with the tag alone signalling that fallback
    /// authorization applies instead of port-specific policy.
    UndefinedPort(ResourceTarget),
}

/// On a target whose kind is an egress network, the original destination is
/// exactly the carried address, unchanged.
pub proof fn lemma_egress_original_dst(rt: ResourceTarget, a: Address)
    requires
        rt.kind == Kind::EgressNetwork(a),
    ensures
        rt.kind.spec_original_dst() == Some(a),
{
}

/// On a target whose kind is Service, the original destination is always
/// absent.
pub proof fn lemma_service_original_dst(rt: ResourceTarget)
    requires
        rt.kind is Service,
    ensures
        rt.kind.spec_original_dst() is None,
{
}

/// The group and kind name of an egress network are the fixed identifiers,
/// whatever address it carries.
pub proof fn lemma_egress_group_kind_fixed(a: Address)
    ensures
        Kind::EgressNetwork(a).spec_group() == "policy.linkerd.io"@,
        Kind::EgressNetwork(a).spec_kind() == "EgressNetwork"@,
{
}

/// The group and kind name of a Service are the fixed identifiers.
pub proof fn lemma_service_group_kind_fixed()
    ensures
        Kind::Service.spec_group() == "core"@,
        Kind::Service.spec_kind() == "Service"@,
{
}

/// Two egress-network kinds are equal exactly when their carried addresses
/// are, and an egress-network kind never equals Service.
pub proof fn lemma_kind_equality(a1: Address, a2: Address)
    ensures
        (Kind::EgressNetwork(a1) == Kind::EgressNetwork(a2)) <==> a1 == a2,
        Kind::EgressNetwork(a1) != Kind::Service,
{
}

} // verus!
