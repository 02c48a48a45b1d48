//! Storage backends: the systems whose disks the service adds and removes.
use vstd::prelude::*;
use vstd::string::StringExecFns;

verus! {

/// Which storage system the service manages disks for; chosen once at start.
#[derive(Clone, Copy, Debug, PartialEq, Eq, Structural)]
pub enum BackendKind {
    Gluster,
}

pub open spec fn gluster_name() -> Seq<char> {
    seq!['g', 'l', 'u', 's', 't', 'e', 'r']
}

impl BackendKind {
    /// The backend kind a configuration names, if any.
    pub fn from_name(name: &String) -> (r: Option<BackendKind>)
        ensures
            r == (if name@ == gluster_name() {
                Some(BackendKind::Gluster)
            } else {
                None
            }),
    {
        let gluster = String::from_str("gluster");
        proof {
            reveal_strlit("gluster");
        }
        assert("gluster"@ =~= gluster_name());
        if *name == gluster {
            Some(BackendKind::Gluster)
        } else {
            None
        }
    }
}

/// A failure reported by a backend, with a message for the caller.
#[derive(Clone, Debug)]
pub struct BackendError {
    pub message: String,
}

/// The Gluster backend. Bricks need no preparation that this service
/// performs, so every request succeeds.
#[derive(Clone, Copy, Debug)]
pub struct GlusterBackend;

impl GlusterBackend {
    /// Adds a disk to the cluster; with `simulate`, takes no action.
    pub fn add_disk(
        &self,
        device: &String,
        id: Option<u64>,
        journal: &Option<String>,
        journal_partition: Option<u32>,
        simulate: bool,
    ) -> (r: Result<(), BackendError>)
        ensures
            r.is_ok(),
    {
        Ok(())
    }

    /// Removes a disk from the cluster; with `simulate`, takes no action.
    pub fn remove_disk(&self, device: &String, simulate: bool) -> (r: Result<(), BackendError>)
        ensures
            r.is_ok(),
    {
        Ok(())
    }

    /// Whether the disk can leave the cluster; with `simulate`, always true.
    pub fn safe_to_remove(&self, device: &String, simulate: bool) -> (r: Result<bool, BackendError>)
        ensures
            r == Ok::<bool, BackendError>(true),
    {
        Ok(true)
    }
}

/// The backend in use, one variant per supported storage system.
#[derive(Clone, Copy, Debug)]
pub enum Backend {
    Gluster(GlusterBackend),
}

/// Builds the backend of the given kind from its configuration directory.
pub fn load_backend(kind: BackendKind, config_dir: &String) -> (r: Result<Backend, BackendError>)
    ensures
        kind == BackendKind::Gluster ==> r matches Ok(Backend::Gluster(_)),
{
    match kind {
        BackendKind::Gluster => Ok(Backend::Gluster(GlusterBackend)),
    }
}

impl Backend {
    pub open spec fn kind(&self) -> BackendKind {
        match self {
            Backend::Gluster(_) => BackendKind::Gluster,
        }
    }

    /// Adds a disk; a simulated add always succeeds.
    pub fn add_disk(
        &self,
        device: &String,
        id: Option<u64>,
        journal: &Option<String>,
        journal_partition: Option<u32>,
        simulate: bool,
    ) -> (r: Result<(), BackendError>)
        ensures
            simulate ==> r.is_ok(),
            self.kind() == BackendKind::Gluster ==> r.is_ok(),
    {
        match self {
            Backend::Gluster(g) => g.add_disk(device, id, journal, journal_partition, simulate),
        }
    }

    /// Removes a disk; a simulated remove always succeeds.
    pub fn remove_disk(&self, device: &String, simulate: bool) -> (r: Result<(), BackendError>)
        ensures
            simulate ==> r.is_ok(),
            self.kind() == BackendKind::Gluster ==> r.is_ok(),
    {
        match self {
            Backend::Gluster(g) => g.remove_disk(device, simulate),
        }
    }

    /// Whether the disk can leave the cluster; a simulated check answers true.
    pub fn safe_to_remove(&self, device: &String, simulate: bool) -> (r: Result<bool, BackendError>)
        ensures
            simulate ==> r == Ok::<bool, BackendError>(true),
            self.kind() == BackendKind::Gluster ==> r == Ok::<bool, BackendError>(true),
    {
        match self {
            Backend::Gluster(g) => g.safe_to_remove(device, simulate),
        }
    }
}

} // verus!
