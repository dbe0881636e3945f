//! What can go wrong while commands are recorded.

use vstd::prelude::*;
use vstd::string::StringExecFns;

verus! {

/// The failures that the renderer itself detects. Failures of the graphics
/// device show when the host carries out the recorded commands, and are the
/// host's to report.
#[derive(Clone, Copy, Debug, PartialEq, Eq, Structural)]
pub enum Error {
    /// The context has no identifier left for a new resource.
    OutOfHandles,
    /// The program reads uv coordinates and the mesh has none.
    MissingUvCoordinates,
    /// The program reads normals and the mesh has none.
    MissingNormals,
    /// The program reads per-vertex colours and the mesh has none.
    MissingColors,
    /// A mesh that is to be lit was described without normals.
    MeshWithoutNormals,
}

/// The message of [`Error::OutOfHandles`].
pub const OUT_OF_HANDLES: &'static str = "The context has no identifier left for a new resource.";

/// The message of [`Error::MissingUvCoordinates`].
pub const MISSING_UV_COORDINATES: &'static str =
    "The mesh shader program needs uv coordinates, but the mesh does not have any.";

/// The message of [`Error::MissingNormals`].
pub const MISSING_NORMALS: &'static str =
    "The mesh shader program needs normals, but the mesh does not have any. Consider calculating the normals on the CPUMesh.";

/// The message of [`Error::MissingColors`].
pub const MISSING_COLORS: &'static str =
    "The mesh shader program needs per vertex colors, but the mesh does not have any.";

/// The message of [`Error::MeshWithoutNormals`].
pub const MESH_WITHOUT_NORMALS: &'static str =
    "Cannot create a mesh without normals. Consider calling compute_normals on the CPUMesh before creating the mesh.";

impl Error {
    /// Whether a program asked for an attribute that the mesh lacks.
    pub open spec fn spec_is_missing_attribute(self) -> bool {
        self == Error::MissingUvCoordinates || self == Error::MissingNormals || self
            == Error::MissingColors
    }

    /// The text of [`message`](Error::message).
    pub open spec fn spec_message(self) -> Seq<char> {
        match self {
            Error::OutOfHandles => OUT_OF_HANDLES@,
            Error::MissingUvCoordinates => MISSING_UV_COORDINATES@,
            Error::MissingNormals => MISSING_NORMALS@,
            Error::MissingColors => MISSING_COLORS@,
            Error::MeshWithoutNormals => MESH_WITHOUT_NORMALS@,
        }
    }

    /// Whether a program asked for an attribute that the mesh lacks.
    pub fn is_missing_attribute(&self) -> (missing: bool)
        ensures
            missing == self.spec_is_missing_attribute(),
    {
        match self {
            Error::MissingUvCoordinates => true,
            Error::MissingNormals => true,
            Error::MissingColors => true,
            _ => false,
        }
    }

    /// A description of the failure that names what is missing and, where
    /// there is one, the remedy.
    pub fn message(&self) -> (message: String)
        ensures
            message@ == self.spec_message(),
    {
        match self {
            Error::OutOfHandles => String::from_str(OUT_OF_HANDLES),
            Error::MissingUvCoordinates => String::from_str(MISSING_UV_COORDINATES),
            Error::MissingNormals => String::from_str(MISSING_NORMALS),
            Error::MissingColors => String::from_str(MISSING_COLORS),
            Error::MeshWithoutNormals => String::from_str(MESH_WITHOUT_NORMALS),
        }
    }
}

} // verus!
