//! The error taxonomy of the engine: every failure of an invocation is one of
//! these kinds, and each aborts the remainder of the invocation.

use vstd::prelude::*;

verus! {

/// The kind of failure that ended an invocation.
///
/// `Usage` is a malformed image reference; `Auth`, `Manifest` and `LayerFetch`
/// are registry failures at the token, manifest and blob steps; `Decompress`
/// is a corrupt layer stream; `Extract` a malformed or escaping archive entry
/// or a failed write into the root; `Io` a local filesystem failure;
/// `Permission` a refused privilege-gated isolation call; `Spawn` a command
/// that could not be started inside the new root.
#[derive(Clone, Copy, Debug, PartialEq, Eq, Structural)]
pub enum RunError {
    Usage,
    Auth,
    Manifest,
    LayerFetch,
    Decompress,
    Extract,
    Io,
    Permission,
    Spawn,
}

impl RunError {
    /// The name of the failed step, for the human-readable report.
    pub fn step_name(&self) -> (r: &'static str)
        ensures
            self is Usage ==> r@ == "usage"@,
            self is Auth ==> r@ == "token fetch"@,
            self is Manifest ==> r@ == "manifest fetch"@,
            self is LayerFetch ==> r@ == "layer fetch"@,
            self is Decompress ==> r@ == "layer decompression"@,
            self is Extract ==> r@ == "layer extraction"@,
            self is Io ==> r@ == "filesystem"@,
            self is Permission ==> r@ == "privilege"@,
            self is Spawn ==> r@ == "spawn"@,
            r@.len() > 0,
    {
        let name: &'static str = match self {
            RunError::Usage => "usage",
            RunError::Auth => "token fetch",
            RunError::Manifest => "manifest fetch",
            RunError::LayerFetch => "layer fetch",
            RunError::Decompress => "layer decompression",
            RunError::Extract => "layer extraction",
            RunError::Io => "filesystem",
            RunError::Permission => "privilege",
            RunError::Spawn => "spawn",
        };
        proof {
            reveal_strlit("usage");
            reveal_strlit("token fetch");
            reveal_strlit("manifest fetch");
            reveal_strlit("layer fetch");
            reveal_strlit("layer decompression");
            reveal_strlit("layer extraction");
            reveal_strlit("filesystem");
            reveal_strlit("privilege");
            reveal_strlit("spawn");
        }
        name
    }
}

} // verus!
