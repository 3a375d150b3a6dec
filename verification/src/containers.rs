//! Container identity heuristics: recognizing the container runtime from
//! cgroup paths, or from ancestor process images.

use vstd::prelude::*;

use crate::text::{any_contains, spec_any_contains};

verus! {

/// Container runtime a task was found to run under.
#[derive(Clone, Copy, Debug, PartialEq, Eq, Structural)]
pub enum Container {
    Docker,
    Lxc,
    Containerd,
    Podman,
}

impl Container {
    pub open spec fn spec_name(self) -> Seq<char> {
        match self {
            Container::Docker => "docker"@,
            Container::Lxc => "lxc"@,
            Container::Containerd => "containerd"@,
            Container::Podman => "podman"@,
        }
    }

    /// See [`Self::spec_name`].
    pub fn name(&self) -> (r: &'static str)
        ensures
            r@ == self.spec_name(),
    {
        match self {
            Container::Docker => "docker",
            Container::Lxc => "lxc",
            Container::Containerd => "containerd",
            Container::Podman => "podman",
        }
    }

    /// Runtime recognized from cgroup path substrings, first match wins.
    pub open spec fn spec_from_cgroups(cgroups: Seq<Seq<char>>) -> Option<Container> {
        if spec_any_contains(cgroups, "docker"@) {
            Some(Container::Docker)
        } else if spec_any_contains(cgroups, "libpod"@) {
            Some(Container::Podman)
        } else if spec_any_contains(cgroups, "lxc"@) {
            Some(Container::Lxc)
        } else if spec_any_contains(cgroups, "containerd"@) {
            Some(Container::Containerd)
        } else {
            None
        }
    }

    /// See [`Self::spec_from_cgroups`].
    pub fn from_cgroups(cgroups: &Vec<String>) -> (r: Option<Container>)
        ensures
            r == Self::spec_from_cgroups(cgroups@.map_values(|p: String| p@)),
    {
        if any_contains(cgroups, "docker") {
            Some(Container::Docker)
        } else if any_contains(cgroups, "libpod") {
            Some(Container::Podman)
        } else if any_contains(cgroups, "lxc") {
            Some(Container::Lxc)
        } else if any_contains(cgroups, "containerd") {
            Some(Container::Containerd)
        } else {
            None
        }
    }

    /// Runtime recognized from ancestor images: an ancestor named after a
    /// runtime shim or daemon implies that runtime.
    pub open spec fn spec_from_ancestors(images: Seq<Seq<char>>) -> Option<Container> {
        if spec_any_contains(images, "containerd-shim"@) {
            Some(Container::Containerd)
        } else if spec_any_contains(images, "dockerd"@) {
            Some(Container::Docker)
        } else if spec_any_contains(images, "podman"@) || spec_any_contains(images, "conmon"@) {
            Some(Container::Podman)
        } else if spec_any_contains(images, "lxc"@) {
            Some(Container::Lxc)
        } else {
            None
        }
    }

    /// See [`Self::spec_from_ancestors`].
    pub fn from_ancestors(images: &Vec<String>) -> (r: Option<Container>)
        ensures
            r == Self::spec_from_ancestors(images@.map_values(|p: String| p@)),
    {
        if any_contains(images, "containerd-shim") {
            Some(Container::Containerd)
        } else if any_contains(images, "dockerd") {
            Some(Container::Docker)
        } else if any_contains(images, "podman") || any_contains(images, "conmon") {
            Some(Container::Podman)
        } else if any_contains(images, "lxc") {
            Some(Container::Lxc)
        } else {
            None
        }
    }
}

} // verus!
