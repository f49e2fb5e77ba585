//! The parts of Kubernetes objects that the operator fills in, held as
//! plain values. The binary converts them into API objects.

use vstd::prelude::*;

use crate::string_map::StringMap;
use crate::text::views;

verus! {

/// A reference from a child object to the object that owns it.
#[derive(Debug)]
pub struct OwnerReference {
    pub api_version: String,
    pub kind: String,
    pub name: String,
    pub uid: String,
    pub controller: Option<bool>,
    pub block_owner_deletion: Option<bool>,
}

impl OwnerReference {
    /// Both references hold the same values.
    pub open spec fn same(self, other: OwnerReference) -> bool {
        &&& self.api_version@ == other.api_version@
        &&& self.kind@ == other.kind@
        &&& self.name@ == other.name@
        &&& self.uid@ == other.uid@
        &&& self.controller == other.controller
        &&& self.block_owner_deletion == other.block_owner_deletion
    }
}

impl Clone for OwnerReference {
    fn clone(&self) -> (r: Self)
        ensures
            r.same(*self),
    {
        OwnerReference {
            api_version: self.api_version.clone(),
            kind: self.kind.clone(),
            name: self.name.clone(),
            uid: self.uid.clone(),
            controller: self.controller,
            block_owner_deletion: self.block_owner_deletion,
        }
    }
}

/// An environment variable of a container.
#[derive(Debug)]
pub struct EnvVar {
    pub name: String,
    pub value: Option<String>,
}

/// The resource requests of a container.
#[derive(Debug)]
pub struct ResourceRequests {
    pub cpu: String,
    pub memory: String,
}

/// A container of a pod.
#[derive(Debug)]
pub struct Container {
    pub name: String,
    pub image: String,
    pub image_pull_policy: String,
    pub command: Vec<String>,
    pub args: Vec<String>,
    pub env: Vec<EnvVar>,
    pub resources: ResourceRequests,
}

/// A pod, with the fields the operator sets.
#[derive(Debug)]
pub struct PodManifest {
    pub name: String,
    pub namespace: String,
    pub labels: StringMap,
    pub annotations: StringMap,
    pub owner_references: Vec<OwnerReference>,
    pub service_account_name: String,
    pub restart_policy: String,
    pub containers: Vec<Container>,
}

/// Appends a string to a vector of strings.
pub fn push_string(v: &mut Vec<String>, s: String)
    ensures
        views(final(v)@) == views(old(v)@).push(s@),
{
    let ghost before = v@;
    v.push(s);
    assert(views(v@) =~= views(before).push(s@));
}

/// Appends a copy of a string slice to a vector of strings.
pub fn push_str(v: &mut Vec<String>, s: &str)
    ensures
        views(final(v)@) == views(old(v)@).push(s@),
{
    push_string(v, String::from_str(s));
}

} // verus!
