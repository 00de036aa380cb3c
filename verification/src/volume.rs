//! A named persistent volume and the reading of the engine's answers about it.

use crate::engine::{EngineReply, VolumeListing};
use vstd::prelude::*;

verus! {

/// A volume of the engine and the path at which the container mounts it.
#[derive(Clone, Copy, Debug, PartialEq, Eq)]
pub struct NepheliosVolume {
    pub name: &'static str,
    pub mount_path: &'static str,
}

/// A volume as two sequences of characters.
pub struct VolumeView {
    pub name: Seq<char>,
    pub mount_path: Seq<char>,
}

impl View for NepheliosVolume {
    type V = VolumeView;

    open spec fn view(&self) -> VolumeView {
        VolumeView { name: self.name@, mount_path: self.mount_path@ }
    }
}

impl VolumeView {
    /// The bind mount of the volume: its name, a colon, the mount path.
    pub open spec fn bind(self) -> Seq<char> {
        self.name + ":"@ + self.mount_path
    }
}

/// Whether the answer to a volume query holds a volume of the given name.
pub open spec fn listed(listing: VolumeListing, name: Seq<char>) -> bool {
    listing matches VolumeListing::Volumes(names) && exists|k: int|
        0 <= k < names@.len() && (#[trigger] names@[k])@ == name
}

impl NepheliosVolume {
    pub fn new(name: &'static str, mount_path: &'static str) -> (v: Self)
        ensures
            v.name == name,
            v.mount_path == mount_path,
            v@ == (VolumeView { name: name@, mount_path: mount_path@ }),
    {
        Self { name, mount_path }
    }

    /// The bind mount handed to the engine when the container is created.
    pub fn bind(&self) -> (r: String)
        ensures
            r@ == self@.bind(),
    {
        String::from_str(self.name).concat(":").concat(self.mount_path)
    }

    /// The value of the `name` filter of the query that looks for this volume.
    pub fn list_request(&self) -> (r: String)
        ensures
            r@ == self@.name,
    {
        String::from_str(self.name)
    }

    /// Whether the engine's answer to the query says that the volume exists:
    /// one of the volumes it returned has this volume's name. An empty answer
    /// and a failed query both count as absent.
    pub fn is_volume_created(&self, listing: &VolumeListing) -> (r: bool)
        ensures
            r == listed(*listing, self@.name),
    {
        match listing {
            VolumeListing::Volumes(names) => {
                let wanted = String::from_str(self.name);
                let mut found = false;
                let mut i: usize = 0;
                while i < names.len()
                    invariant
                        i <= names.len(),
                        wanted@ == self@.name,
                        found == exists|k: int| 0 <= k < i && (#[trigger] names@[k])@ == wanted@,
                    decreases names.len() - i,
                {
                    if names[i] == wanted {
                        found = true;
                    }
                    i += 1;
                }
                found
            },
            VolumeListing::Failed => false,
        }
    }

    /// The name under which the engine is asked to create the volume.
    pub fn create_request(&self) -> (r: String)
        ensures
            r@ == self@.name,
    {
        String::from_str(self.name)
    }

    /// Whether the engine created the volume.
    pub fn create_volume(&self, reply: &EngineReply) -> (r: bool)
        ensures
            r == (reply is Done),
    {
        match reply {
            EngineReply::Done => true,
            EngineReply::Failed(_) => false,
        }
    }
}

} // verus!
