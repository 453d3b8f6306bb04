use vstd::prelude::*;

verus! {

/// The system set in which XR spaces are synchronized.
#[derive(Clone, Copy, Debug, PartialEq, Eq, Structural, Hash)]
pub struct XrSpaceSyncSet;

/// A handle to an XR space. Any space is invalid after the owning session exits.
#[derive(Clone, Copy, Debug, PartialEq, Eq, Structural, Hash)]
pub struct XrSpace(u64);

impl XrSpace {
    /// The raw handle of the space.
    pub closed spec fn handle(&self) -> u64 {
        self.0
    }

    /// The space with the given raw handle; only call with known valid handles.
    pub fn from_raw(handle: u64) -> (s: XrSpace)
        ensures
            s.handle() == handle,
    {
        XrSpace(handle)
    }

    /// The raw handle of the space.
    pub fn as_raw(&self) -> (handle: u64)
        ensures
            handle == self.handle(),
    {
        self.0
    }
}

/// Two spaces are the same space exactly when their raw handles are equal.
pub proof fn law_space_identity(a: XrSpace, b: XrSpace)
    ensures
        a == b <==> a.handle() == b.handle(),
{
}

/// A request to destroy a space.
#[derive(Clone, Copy, Debug)]
pub struct XrDestroySpace(pub XrSpace);

/// A space used as a reference space.
#[derive(Clone, Copy, Debug, PartialEq, Eq, Structural, Hash)]
pub struct XrReferenceSpace(pub XrSpace);

/// The primary reference space of the session.
#[derive(Clone, Copy, Debug, PartialEq, Eq, Structural, Hash)]
pub struct XrPrimaryReferenceSpace(pub XrReferenceSpace);

/// Whether position and rotation of a located space are tracked.
#[derive(Clone, Copy, Debug, PartialEq, Eq, Structural, Hash, Default)]
pub struct XrSpaceLocationFlags {
    pub position_tracked: bool,
    pub rotation_tracked: bool,
}

/// Whether the linear and angular velocities of a space are valid.
#[derive(Clone, Copy, Debug, PartialEq, Eq, Structural, Hash, Default)]
pub struct XrSpaceVelocityFlags {
    pub linear_valid: bool,
    pub angular_valid: bool,
}

} // verus!
