//! Which values are Kubernetes objects and which decoder group reads them.
//! Kubernetes stores its objects under "/registry" as a 4-byte magic header
//! followed by a protobuf `Unknown` envelope naming the object's API version.

use vstd::prelude::*;
use crate::namespace::bytes_from;
use crate::text::{text_equals, text_starts_with};

verus! {

/// The length of the magic header before the envelope.
pub const PROTO_PREFIX_LEN: usize = 4;

/// The groups of Kubernetes types that have a decoder.
#[derive(Clone, Copy, Debug, PartialEq, Eq, Structural)]
pub enum ApiGroup {
    CoreV1,
    AppsV1,
    RbacV1,
    StorageV1,
    DiscoveryV1,
    DiscoveryV1beta1,
    FlowcontrolV1,
    CoordinationV1,
    SchedulingV1,
    BatchV1,
    NetworkingV1,
    AdmissionregistrationV1,
}

/// `s` begins with `p`.
pub open spec fn begins(s: Seq<char>, p: Seq<char>) -> bool {
    p.len() <= s.len() && s.subrange(0, p.len() as int) == p
}

/// The decoder group of an API version. Versions whose later revisions stay
/// compatible are matched by their prefix; the others exactly.
pub open spec fn api_group_of(v: Seq<char>) -> Option<ApiGroup> {
    if v == "v1"@ {
        Some(ApiGroup::CoreV1)
    } else if v == "apps/v1"@ {
        Some(ApiGroup::AppsV1)
    } else if v == "rbac.authorization.k8s.io/v1"@ {
        Some(ApiGroup::RbacV1)
    } else if v == "storage.k8s.io/v1"@ {
        Some(ApiGroup::StorageV1)
    } else if v == "discovery.k8s.io/v1"@ {
        Some(ApiGroup::DiscoveryV1)
    } else if v == "discovery.k8s.io/v1beta1"@ {
        Some(ApiGroup::DiscoveryV1beta1)
    } else if begins(v, "flowcontrol.apiserver.k8s.io/v1"@) {
        Some(ApiGroup::FlowcontrolV1)
    } else if v == "coordination.k8s.io/v1"@ {
        Some(ApiGroup::CoordinationV1)
    } else if v == "scheduling.k8s.io/v1"@ {
        Some(ApiGroup::SchedulingV1)
    } else if begins(v, "batch/v1"@) {
        Some(ApiGroup::BatchV1)
    } else if begins(v, "networking.k8s.io/v1"@) {
        Some(ApiGroup::NetworkingV1)
    } else if begins(v, "admissionregistration.k8s.io/v1"@) {
        Some(ApiGroup::AdmissionregistrationV1)
    } else {
        None
    }
}

/// Picks the decoder group of an API version.
pub fn api_group(version: &str) -> (r: Option<ApiGroup>)
    ensures
        r == api_group_of(version@),
{
    if text_equals(version, "v1") {
        Some(ApiGroup::CoreV1)
    } else if text_equals(version, "apps/v1") {
        Some(ApiGroup::AppsV1)
    } else if text_equals(version, "rbac.authorization.k8s.io/v1") {
        Some(ApiGroup::RbacV1)
    } else if text_equals(version, "storage.k8s.io/v1") {
        Some(ApiGroup::StorageV1)
    } else if text_equals(version, "discovery.k8s.io/v1") {
        Some(ApiGroup::DiscoveryV1)
    } else if text_equals(version, "discovery.k8s.io/v1beta1") {
        Some(ApiGroup::DiscoveryV1beta1)
    } else if text_starts_with(version, "flowcontrol.apiserver.k8s.io/v1") {
        Some(ApiGroup::FlowcontrolV1)
    } else if text_equals(version, "coordination.k8s.io/v1") {
        Some(ApiGroup::CoordinationV1)
    } else if text_equals(version, "scheduling.k8s.io/v1") {
        Some(ApiGroup::SchedulingV1)
    } else if text_starts_with(version, "batch/v1") {
        Some(ApiGroup::BatchV1)
    } else if text_starts_with(version, "networking.k8s.io/v1") {
        Some(ApiGroup::NetworkingV1)
    } else if text_starts_with(version, "admissionregistration.k8s.io/v1") {
        Some(ApiGroup::AdmissionregistrationV1)
    } else {
        None
    }
}

/// The envelope bytes of a value stored under "/registry", when the value is
/// longer than the magic header; `None` for anything else.
pub fn registry_payload(key: &str, value: &[u8]) -> (r: Option<Vec<u8>>)
    ensures
        r.is_some() == (begins(key@, "/registry"@) && value@.len() > PROTO_PREFIX_LEN),
        r.is_some() ==> r.unwrap()@ == value@.subrange(PROTO_PREFIX_LEN as int, value@.len() as int),
{
    if text_starts_with(key, "/registry") && value.len() > PROTO_PREFIX_LEN {
        Some(bytes_from(value, PROTO_PREFIX_LEN))
    } else {
        None
    }
}

} // verus!
