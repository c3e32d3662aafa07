//! The capability providers (plugins) the host is built with.
//!
//! The list is fixed and ordered: providers initialize in registration order
//! and are torn down in reverse order at shutdown, so the order is part of
//! the bootstrap contract. No provider appears twice.

use vstd::prelude::*;

verus! {

/// One capability provider attached to the host at build time. The
/// provider's own behaviour (storage, clipboard, ...) lives outside this
/// component; all the bootstrapper owes each one is its place in the
/// registration order.
#[derive(Clone, Copy, Debug, PartialEq, Eq, Structural)]
pub enum Plugin {
    /// Opens external links and files.
    Opener,
    /// Embedded SQL database access.
    Sql,
    /// Platform and version queries.
    OsInfo,
    /// Outbound HTTP requests.
    Http,
    /// System clipboard read/write.
    Clipboard,
    /// System notification dispatch.
    Notification,
    /// Native file and message dialogs.
    Dialog,
    /// Sandboxed file read/write.
    Fs,
}

/// The fixed registration order of the capability providers.
pub open spec fn spec_plugin_order() -> Seq<Plugin> {
    seq![
        Plugin::Opener,
        Plugin::Sql,
        Plugin::OsInfo,
        Plugin::Http,
        Plugin::Clipboard,
        Plugin::Notification,
        Plugin::Dialog,
        Plugin::Fs,
    ]
}

/// Builds the provider list in its fixed registration order.
pub fn plugin_order() -> (v: Vec<Plugin>)
    ensures
        v@ == spec_plugin_order(),
{
    let mut v: Vec<Plugin> = Vec::new();
    v.push(Plugin::Opener);
    v.push(Plugin::Sql);
    v.push(Plugin::OsInfo);
    v.push(Plugin::Http);
    v.push(Plugin::Clipboard);
    v.push(Plugin::Notification);
    v.push(Plugin::Dialog);
    v.push(Plugin::Fs);
    proof {
        assert(v@ =~= spec_plugin_order());
    }
    v
}

/// Law: the registration order names no provider twice, so the sequential
/// list cannot hide a circular initialization dependency of a provider on a
/// second registration of itself.
pub proof fn lemma_plugin_order_distinct()
    ensures
        forall|i: int, j: int|
            0 <= i < spec_plugin_order().len() && 0 <= j < spec_plugin_order().len() && i != j
                ==> spec_plugin_order()[i] != spec_plugin_order()[j],
{
    assert forall|i: int, j: int|
        0 <= i < spec_plugin_order().len() && 0 <= j < spec_plugin_order().len() && i
            != j implies spec_plugin_order()[i] != spec_plugin_order()[j] by {
        assert(spec_plugin_order().len() == 8);
    }
}

} // verus!
