use vstd::prelude::*;

verus! {

/// What the library needs to know of a container that Docker reported.
#[derive(Debug)]
pub struct ContainerEventInfo {
    /// The container's name as Docker gives it, usually with a leading `/`.
    pub name: String,
    /// Whether the container runs in host network mode.
    pub is_host_networking: bool,
}

} // verus!
