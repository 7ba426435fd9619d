//! The OpenGL version that the renderer asks for.

use vstd::prelude::*;
use vstd::std_specs::convert::FromSpecImpl;
use crate::conf::Backend;

verus! {

/// The OpenGL backend, with the version of the interface to request.
#[derive(Debug, Copy, Clone, PartialEq, Eq, Structural, Hash)]
pub struct GlBackendSpec {
    /// The major version.
    pub major: u8,
    /// The minor version.
    pub minor: u8,
}

impl Default for GlBackendSpec {
    /// OpenGL 3.2.
    fn default() -> (spec: GlBackendSpec)
        ensures
            spec == (GlBackendSpec { major: 3, minor: 2 }),
    {
        GlBackendSpec { major: 3, minor: 2 }
    }
}

impl From<Backend> for GlBackendSpec {
    /// Takes over the version that the configuration names.
    fn from(c: Backend) -> (spec: GlBackendSpec) {
        match c {
            Backend::OpenGL { major, minor } => GlBackendSpec { major, minor },
        }
    }
}

impl FromSpecImpl<Backend> for GlBackendSpec {
    open spec fn obeys_from_spec() -> bool {
        true
    }

    open spec fn from_spec(c: Backend) -> GlBackendSpec {
        match c {
            Backend::OpenGL { major, minor } => GlBackendSpec { major, minor },
        }
    }
}

/// The OpenGL versions to probe, in the order in which they are tried: the
/// major versions 1 to 4, and for each the minor versions 5 down to 0.
pub open spec fn versions_to_try() -> Seq<GlBackendSpec> {
    Seq::new(24, |i: int| GlBackendSpec { major: (1 + i / 6) as u8, minor: (5 - i % 6) as u8 })
}

/// The OpenGL versions to probe, in the order in which they are tried.
pub fn opengl_versions() -> (versions: Vec<GlBackendSpec>)
    ensures
        versions@ == versions_to_try(),
{
    let mut versions: Vec<GlBackendSpec> = Vec::new();
    let mut major: u8 = 1;
    while major <= 4
        invariant
            1 <= major <= 5,
            versions@.len() == (major - 1) * 6,
            forall|i: int| 0 <= i < versions@.len() ==> versions@[i] == versions_to_try()[i],
        decreases 5 - major,
    {
        let mut k: u8 = 0;
        while k < 6
            invariant
                1 <= major <= 4,
                k <= 6,
                versions@.len() == (major - 1) * 6 + k,
                forall|i: int| 0 <= i < versions@.len() ==> versions@[i] == versions_to_try()[i],
            decreases 6 - k,
        {
            versions.push(GlBackendSpec { major, minor: 5 - k });
            k += 1;
        }
        major += 1;
    }
    assert(versions@ =~= versions_to_try());
    versions
}

} // verus!
