use vstd::prelude::*;

verus! {

/// Where the data of an image comes from.
#[derive(Clone)]
pub enum Resource {
    /// A file on disk, by its path.
    Path(String),
}

/// A node that draws an image.
pub struct ImageNode {
    resource: Resource,
}

impl ImageNode {
    /// The image source of the node.
    pub closed spec fn source(self) -> Resource {
        self.resource
    }

    /// A node that draws the image from `resource`.
    pub fn new(resource: Resource) -> (r: Self)
        ensures
            r.source() == resource,
    {
        ImageNode { resource }
    }

    /// The image source of the node.
    pub fn resource(&self) -> (r: &Resource)
        ensures
            *r == self.source(),
    {
        &self.resource
    }
}

} // verus!
