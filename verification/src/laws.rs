//! The engine's guarantees, stated on their own. Each proof function here
//! pins down one rule a caller may rely on: how a target is resolved, that
//! the three operations share one dispatch, which entries a mask walk acts
//! on, and when a call is rejected.

use vstd::prelude::*;

use crate::engine::apply_error;
use crate::engine::fan_model;
use crate::engine::next_fan;
use crate::engine::step;
use crate::engine::stop_err;
use crate::engine::stop_ok;
use crate::engine::ActionModel;
use crate::engine::EngineModel;
use crate::engine::EntryModel;
use crate::engine::EventModel;
use crate::engine::FanModel;
use crate::engine::StateModel;
use crate::errors::ErrModel;
use crate::glob::glob_match;
use crate::glob::has_star;
use crate::glob::lemma_star_matches_all;
use crate::paths::base_name;
use crate::paths::joined;
use crate::paths::lemma_joined_splits;

verus! {

/// The walk leaves this entry untouched: it is no plain file, or its name is
/// text the pattern does not cover.
pub open spec fn passed_over(e: EntryModel, pattern: Seq<char>) -> bool {
    ||| !e.is_file
    ||| (e.name matches Some(n) && !glob_match(pattern, n))
}

/// This entry is acted on: a plain file whose name the pattern covers.
pub open spec fn matched_file(e: EntryModel, pattern: Seq<char>) -> bool {
    e.is_file && (e.name matches Some(n) && glob_match(pattern, n))
}

/// The name of an entry whose name is known.
pub open spec fn entry_name(e: EntryModel) -> Seq<char> {
    match e.name {
        Some(n) => n,
        None => Seq::empty(),
    }
}

/// A file copied or moved into an existing directory lands inside that
/// directory, under the source's own base name.
pub proof fn law_file_into_directory(m: EngineModel, n: Seq<char>)
    requires
        m.state is SingleProbe,
        base_name(m.source) == Some(n),
    ensures
        step(m, EventModel::TargetKind { is_dir: true }) == (
            StateModel::SingleApplying { from: m.source, to: joined(m.target, n) },
            ActionModel::Apply { source: m.source, target: joined(m.target, n) },
        ),
{
}

/// A file copied or moved to a target that is no existing directory uses the
/// target verbatim, whether the target names a fresh path or an existing file.
pub proof fn law_file_to_verbatim_target(m: EngineModel)
    requires
        m.state is SingleProbe,
    ensures
        step(m, EventModel::TargetKind { is_dir: false }) == (
            StateModel::SingleApplying { from: m.source, to: m.target },
            ActionModel::Apply { source: m.source, target: m.target },
        ),
{
}

/// Copy, move and delete share one traversal: engines that differ only in
/// their operation step identically, up to the moment one application of the
/// capability fails (only the blame in that final error differs).
pub proof fn law_operation_blind(a: EngineModel, b: EngineModel, ev: EventModel)
    requires
        a.source == b.source,
        a.target == b.target,
        a.state == b.state,
        !(ev matches EventModel::Applied { ok: false }),
    ensures
        step(a, ev) == step(b, ev),
{
}

/// A walk with nothing left to act on ends the whole call successfully: zero
/// matches are a success, not an error.
pub proof fn law_empty_walk_succeeds(target: Seq<char>, fan: FanModel)
    requires
        0 <= fan.idx,
        forall|k: int|
            fan.idx <= k < fan.entries.len() ==> passed_over(
                #[trigger] fan.entries[k],
                fan.pattern,
            ),
    ensures
        fan_model(target, fan) == (StateModel::Done, stop_ok()),
    decreases fan.entries.len() - fan.idx,
{
    if 0 <= fan.idx < fan.entries.len() {
        assert(passed_over(fan.entries[fan.idx], fan.pattern));
        law_empty_walk_succeeds(target, next_fan(fan));
    }
}

/// The walk acts on exactly the plain files whose decodable name the pattern
/// covers, in listing order: everything before the first such entry is passed
/// over, and the walk pauses on that entry to probe the target for it.
pub proof fn law_walk_stops_at_first_match(target: Seq<char>, fan: FanModel, k: int)
    requires
        0 <= fan.idx <= k < fan.entries.len(),
        forall|j: int| fan.idx <= j < k ==> passed_over(#[trigger] fan.entries[j], fan.pattern),
        matched_file(fan.entries[k], fan.pattern),
    ensures
        fan_model(target, fan) == (
            StateModel::FanProbe {
                fan: (FanModel { idx: k, ..fan }),
                name: entry_name(fan.entries[k]),
            },
            ActionModel::ProbeTarget { path: target },
        ),
    decreases k - fan.idx,
{
    if fan.idx == k {
    } else {
        assert(passed_over(fan.entries[fan.idx], fan.pattern));
        law_walk_stops_at_first_match(target, next_fan(fan), k);
    }
}

/// Acting on a directory demands a directory target: anything else — a plain
/// file, a missing path — stops the call with `InvalidTarget`.
pub proof fn law_dir_target_must_be_directory(m: EngineModel)
    requires
        m.state is DirTarget,
    ensures
        step(m, EventModel::TargetKind { is_dir: false }) == (
            StateModel::Done,
            stop_err(ErrModel::InvalidTarget(m.target)),
        ),
{
}

/// Acting on a directory with a directory target is the mask `*` over the
/// source's own listing: one level, every entry considered, and the pattern
/// `*` covers every decodable name. The source directory itself is never an
/// entry of its own listing, so it is never acted on.
pub proof fn law_dir_strategy_is_star_mask(m: EngineModel)
    requires
        m.state is DirTarget,
        m.source.len() > 0,
    ensures
        step(m, EventModel::TargetKind { is_dir: true }) == (
            StateModel::AwaitListing { parent: m.source, pattern: seq!['*'] },
            ActionModel::ListDir { path: m.source },
        ),
        forall|name: Seq<char>| #[trigger] glob_match(seq!['*'], name),
{
    let star = seq!['*'];
    assert(star[0] == '*');
    lemma_joined_splits(m.source, star);
    assert(has_star(star));
    assert forall|name: Seq<char>| #[trigger] glob_match(star, name) by {
        lemma_star_matches_all(name);
    }
}

/// A source that exists as neither file nor directory and whose final
/// segment holds no `*` (or has no final segment at all) is rejected as
/// `InvalidSource`.
pub proof fn law_plain_missing_source_rejected(m: EngineModel)
    requires
        m.state is Start,
        !(base_name(m.source) matches Some(n) && has_star(n)),
    ensures
        step(m, EventModel::SourceKind { is_file: false, is_dir: false }) == (
            StateModel::Done,
            stop_err(ErrModel::InvalidSource(m.source)),
        ),
{
}

/// A failed application blames the resolved pair for copy and move, and the
/// source alone for delete, whose target argument is meaningless.
pub proof fn law_first_failure_aborts(m: EngineModel, from: Seq<char>, to: Seq<char>)
    requires
        m.state == (StateModel::FanApplying { fan: m.state->FanApplying_fan, from, to }),
    ensures
        step(m, EventModel::Applied { ok: false }) == (
            StateModel::Done,
            stop_err(apply_error(m.op, from, to)),
        ),
{
}

} // verus!
