use vstd::prelude::*;

verus! {

/// A framework plugin that the shell attaches before the application starts.
#[derive(Clone, Copy, Debug, PartialEq, Eq, Structural)]
pub enum Plugin {
    /// Persistent key-value store.
    Store,
    /// Local HTTP server that serves the application's assets on `port`.
    Localhost { port: u16 },
    /// Filesystem access.
    Fs,
    /// Native file dialogs.
    Dialog,
    /// Opening of external URLs.
    Opener,
}

} // verus!
