//! The update decision: is what the server offers already installed?

use vstd::prelude::*;

use crate::marker::{LocalVersion, LocalVersionRecord};

verus! {

/// Whether an update is needed: `remote` is what the marker would record
/// once the offered build is installed, `local` what it records now. No
/// update is needed exactly where the two name the same server type, the
/// same game version and the same build.
pub open spec fn update_needed(local: LocalVersion, remote: LocalVersion) -> bool {
    !(local.server_type == remote.server_type && local.mc_version == remote.mc_version
        && local.build == remote.build)
}

/// Decides whether an update is needed: `true` unless `local` and `remote`
/// name the same server type, the same game version and the same build.
pub fn needs_update(local: &LocalVersionRecord, remote: &LocalVersionRecord) -> (r: bool)
    ensures
        r == update_needed(local@, remote@),
{
    !(local.server_type == remote.server_type && local.mc_version == remote.mc_version
        && local.build == remote.build)
}

/// What is installed needs no update to itself.
pub proof fn lemma_same_record_needs_no_update(x: LocalVersion)
    ensures
        !update_needed(x, x),
{
}

/// Another build is an update, whatever the game version.
pub proof fn lemma_other_build_needs_update(local: LocalVersion, remote: LocalVersion)
    requires
        local.build != remote.build,
    ensures
        update_needed(local, remote),
{
}

/// An update is needed exactly where the two records differ.
pub proof fn lemma_update_needed_iff_different(local: LocalVersion, remote: LocalVersion)
    ensures
        update_needed(local, remote) <==> local != remote,
{
}

} // verus!
