//! What a context and a configuration say, whatever is missing of them.

use vstd::prelude::*;

use crate::config;
use crate::config::{CshipConfig, ImpactConfig};
use crate::context::Context;

verus! {

/// The directory of the workspace goes before `cwd`, which stands in where the
/// workspace or its directory is missing.
pub proof fn workspace_directory_goes_first(ctx: Context)
    ensures
        ctx.workspace is Some && ctx.workspace->0.current_dir is Some ==> ctx.directory() == Some(
            ctx.workspace->0.current_dir->0@,
        ),
        ctx.workspace is None || ctx.workspace->0.current_dir is None ==> {
            &&& ctx.directory() is Some <==> ctx.cwd is Some
            &&& ctx.cwd is Some ==> ctx.directory()->0 == ctx.cwd->0@
        },
{
}

/// A session has the name it is given, and the empty one where it is given none.
pub proof fn session_has_its_name(ctx: Context)
    ensures
        ctx.session_id is Some ==> ctx.session() == ctx.session_id->0@,
        ctx.session_id is None ==> ctx.session().len() == 0,
{
}

/// The edited lines are the lines added and the lines removed, where a number that is
/// missing or negative adds nothing.
pub proof fn edited_lines_are_added_and_removed(ctx: Context)
    ensures
        ctx.cost is None ==> ctx.code_lines() == 0,
        ctx.cost matches Some(cost) ==> {
            let added = cost.total_lines_added.unwrap_or(0);
            let removed = cost.total_lines_removed.unwrap_or(0);
            &&& added >= 0 && removed >= 0 ==> ctx.code_lines() == added + removed
            &&& added < 0 && removed >= 0 ==> ctx.code_lines() == removed
            &&& added >= 0 && removed < 0 ==> ctx.code_lines() == added
            &&& added < 0 && removed < 0 ==> ctx.code_lines() == 0
        },
        ctx.code_lines() <= u64::MAX,
{
}

/// Nothing is set in the settings that leave everything at its default.
pub proof fn unset_settings_are_empty()
    ensures
        config::unset().disabled is None,
        config::unset().cache_ttl_secs is None,
        config::unset().style is None,
        config::unset().warn_threshold is None,
        config::unset().warn_style is None,
        config::unset().critical_threshold is None,
        config::unset().critical_style is None,
        config::unset().symbol is None,
        config::unset().label is None,
        config::unset().show_delta is None,
        config::unset().format is None,
{
}

/// The settings are those of the section, and none where it is missing.
pub proof fn section_holds_the_settings(cfg: CshipConfig, section: ImpactConfig)
    ensures
        cfg.impact == Some(section) ==> cfg.settings() == section,
        cfg.impact is None ==> cfg.settings() == config::unset(),
{
}

} // verus!
