use vstd::prelude::*;
use crate::plugin::Plugin;

verus! {

/// Where the local asset server listens.
pub const LOCAL_SERVER_PORT: u16 = 9527;

/// The plugins of the shell, in the order in which they are attached.
pub open spec fn startup_plan() -> Seq<Plugin> {
    seq![
        Plugin::Store,
        Plugin::Localhost { port: LOCAL_SERVER_PORT },
        Plugin::Fs,
        Plugin::Dialog,
        Plugin::Opener,
    ]
}

/// Returns the plugins to attach, first to last.
pub fn startup_plugins() -> (plugins: Vec<Plugin>)
    ensures
        plugins@ == startup_plan(),
{
    let mut plugins: Vec<Plugin> = Vec::new();
    plugins.push(Plugin::Store);
    plugins.push(Plugin::Localhost { port: LOCAL_SERVER_PORT });
    plugins.push(Plugin::Fs);
    plugins.push(Plugin::Dialog);
    plugins.push(Plugin::Opener);
    plugins
}

} // verus!
