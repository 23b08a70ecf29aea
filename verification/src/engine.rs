//! The traversal engine. One top-level call (copy, move, or delete of a
//! source that may be a file, a directory, or a wildcard mask) is driven as a
//! state machine: the engine holds the call's state and, fed one observed
//! event at a time (an existence probe, a directory listing, the outcome of
//! one file operation), answers with the next action the driver should
//! perform. The engine itself never touches the filesystem.
//!
//! The classifier dispatches on the source's nature; the file strategy
//! resolves the target (verbatim, or target-directory joined with the
//! source's base name, re-checked per file); the directory strategy demands
//! an existing directory target and rewrites the call as the mask `*` over
//! the source; the mask strategy lists the parent and fans out over the
//! direct entries that are plain files whose name the pattern covers, first
//! failure aborting the walk.

use vstd::prelude::*;

use crate::errors::ErrModel;
use crate::errors::WildcardingError;
use crate::glob::contains_star;
use crate::glob::glob_match;
use crate::glob::has_star;
use crate::glob::wildcard_match;
use crate::paths::base_name;
use crate::paths::base_name_of;
use crate::paths::join_path;
use crate::paths::joined;
use crate::paths::parent_dir;
use crate::paths::parent_of;

verus! {

/// Which file-level operation capability the driver runs on each resolved
/// (source file, target file) pair. The engine never performs it; it only
/// decides where it is applied and what a failure of it means.
#[derive(Debug, Clone, Copy, PartialEq, Eq)]
pub enum OpKind {
    Copy,
    Move,
    Delete,
}

/// One direct entry of a directory listing, as the driver reports it: its
/// base name as text (`None` when the name cannot be decoded as text), and
/// whether the entry is a plain file.
#[derive(Debug, PartialEq, Eq)]
pub struct DirEntry {
    pub name: Option<String>,
    pub is_file: bool,
}

/// Mathematical shadow of [`DirEntry`].
pub ghost struct EntryModel {
    pub name: Option<Seq<char>>,
    pub is_file: bool,
}

impl View for DirEntry {
    type V = EntryModel;

    open spec fn view(&self) -> EntryModel {
        EntryModel {
            name: match self.name {
                Some(s) => Some(s@),
                None => None,
            },
            is_file: self.is_file,
        }
    }
}

/// The shadows of a whole listing, in listing order.
pub open spec fn entries_model(v: Seq<DirEntry>) -> Seq<EntryModel> {
    v.map_values(|e: DirEntry| e@)
}

/// What the driver observed, in answer to the engine's last action.
#[derive(Debug, PartialEq, Eq)]
pub enum Event {
    /// Answer to [`Action::ProbeSource`]: the two independent existence checks.
    SourceKind { is_file: bool, is_dir: bool },
    /// Answer to [`Action::ProbeTarget`]: whether the path is an existing directory.
    TargetKind { is_dir: bool },
    /// Answer to [`Action::ListDir`]: the direct entries, or `None` when the
    /// listing could not be started.
    Listing { entries: Option<Vec<DirEntry>> },
    /// Answer to [`Action::Apply`]: whether the operation capability succeeded.
    Applied { ok: bool },
}

/// Mathematical shadow of [`Event`].
pub ghost enum EventModel {
    SourceKind { is_file: bool, is_dir: bool },
    TargetKind { is_dir: bool },
    Listing { entries: Option<Seq<EntryModel>> },
    Applied { ok: bool },
}

impl View for Event {
    type V = EventModel;

    open spec fn view(&self) -> EventModel {
        match self {
            Event::SourceKind { is_file, is_dir } => EventModel::SourceKind {
                is_file: *is_file,
                is_dir: *is_dir,
            },
            Event::TargetKind { is_dir } => EventModel::TargetKind { is_dir: *is_dir },
            Event::Listing { entries } => EventModel::Listing {
                entries: match entries {
                    Some(v) => Some(entries_model(v@)),
                    None => None,
                },
            },
            Event::Applied { ok } => EventModel::Applied { ok: *ok },
        }
    }
}

/// What the driver should do next. Every action but `Stop` names the paths it
/// concerns; `Stop` carries the outcome of the whole call.
#[derive(Debug, PartialEq, Eq)]
pub enum Action {
    /// Check whether `path` is a file and whether it is a directory.
    ProbeSource { path: String },
    /// Check whether `path` is an existing directory.
    ProbeTarget { path: String },
    /// List the direct entries of the directory `path`.
    ListDir { path: String },
    /// Run the operation capability on `(source, target)`.
    Apply { source: String, target: String },
    /// The call is over, with this outcome.
    Stop { outcome: Result<(), WildcardingError> },
}

/// Mathematical shadow of [`Action`].
pub ghost enum ActionModel {
    ProbeSource { path: Seq<char> },
    ProbeTarget { path: Seq<char> },
    ListDir { path: Seq<char> },
    Apply { source: Seq<char>, target: Seq<char> },
    Stop { outcome: Result<(), ErrModel> },
}

impl View for Action {
    type V = ActionModel;

    open spec fn view(&self) -> ActionModel {
        match self {
            Action::ProbeSource { path } => ActionModel::ProbeSource { path: path@ },
            Action::ProbeTarget { path } => ActionModel::ProbeTarget { path: path@ },
            Action::ListDir { path } => ActionModel::ListDir { path: path@ },
            Action::Apply { source, target } => ActionModel::Apply {
                source: source@,
                target: target@,
            },
            Action::Stop { outcome } => ActionModel::Stop {
                outcome: match outcome {
                    Ok(u) => Ok(*u),
                    Err(e) => Err(e@),
                },
            },
        }
    }
}

/// The walk over a listing: the directory that was listed, the pattern of
/// the mask, the entries, and the index of the entry under consideration.
#[derive(Debug)]
pub struct FanState {
    pub parent: String,
    pub pattern: String,
    pub entries: Vec<DirEntry>,
    pub idx: usize,
}

/// Mathematical shadow of [`FanState`].
pub ghost struct FanModel {
    pub parent: Seq<char>,
    pub pattern: Seq<char>,
    pub entries: Seq<EntryModel>,
    pub idx: int,
}

impl View for FanState {
    type V = FanModel;

    open spec fn view(&self) -> FanModel {
        FanModel {
            parent: self.parent@,
            pattern: self.pattern@,
            entries: entries_model(self.entries@),
            idx: self.idx as int,
        }
    }
}

/// Where the engine stands within one call.
#[derive(Debug)]
pub enum State {
    /// Nothing observed yet; the source's nature is being probed.
    Start,
    /// The source is a single file; the target's nature is being probed.
    SingleProbe,
    /// The source is a directory; the target's nature is being probed.
    DirTarget,
    /// A mask was parsed; the parent's listing is awaited.
    AwaitListing { parent: String, pattern: String },
    /// A matching file was found; the target's nature is being probed for it.
    FanProbe { fan: FanState, name: String },
    /// The operation runs on the single source file.
    SingleApplying { from: String, to: String },
    /// The operation runs on one matched file of the walk.
    FanApplying { fan: FanState, from: String, to: String },
    /// The call is over.
    Done,
}

/// Mathematical shadow of [`State`].
pub ghost enum StateModel {
    Start,
    SingleProbe,
    DirTarget,
    AwaitListing { parent: Seq<char>, pattern: Seq<char> },
    FanProbe { fan: FanModel, name: Seq<char> },
    SingleApplying { from: Seq<char>, to: Seq<char> },
    FanApplying { fan: FanModel, from: Seq<char>, to: Seq<char> },
    Done,
}

impl View for State {
    type V = StateModel;

    open spec fn view(&self) -> StateModel {
        match self {
            State::Start => StateModel::Start,
            State::SingleProbe => StateModel::SingleProbe,
            State::DirTarget => StateModel::DirTarget,
            State::AwaitListing { parent, pattern } => StateModel::AwaitListing {
                parent: parent@,
                pattern: pattern@,
            },
            State::FanProbe { fan, name } => StateModel::FanProbe { fan: fan@, name: name@ },
            State::SingleApplying { from, to } => StateModel::SingleApplying {
                from: from@,
                to: to@,
            },
            State::FanApplying { fan, from, to } => StateModel::FanApplying {
                fan: fan@,
                from: from@,
                to: to@,
            },
            State::Done => StateModel::Done,
        }
    }
}

/// One top-level call in flight.
pub struct Engine {
    pub op: OpKind,
    pub source: String,
    pub target: String,
    pub state: State,
}

/// Mathematical shadow of [`Engine`].
pub ghost struct EngineModel {
    pub op: OpKind,
    pub source: Seq<char>,
    pub target: Seq<char>,
    pub state: StateModel,
}

impl View for Engine {
    type V = EngineModel;

    open spec fn view(&self) -> EngineModel {
        EngineModel {
            op: self.op,
            source: self.source@,
            target: self.target@,
            state: self.state@,
        }
    }
}

/// Which kind of event the engine waits for.
#[derive(Debug, Clone, Copy, PartialEq, Eq)]
pub enum Phase {
    WantsSourceKind,
    WantsTargetKind,
    WantsListing,
    WantsApplied,
    Finished,
}

/// The kind of event each state waits for.
pub open spec fn phase_of(state: StateModel) -> Phase {
    match state {
        StateModel::Start => Phase::WantsSourceKind,
        StateModel::SingleProbe => Phase::WantsTargetKind,
        StateModel::DirTarget => Phase::WantsTargetKind,
        StateModel::FanProbe { .. } => Phase::WantsTargetKind,
        StateModel::AwaitListing { .. } => Phase::WantsListing,
        StateModel::SingleApplying { .. } => Phase::WantsApplied,
        StateModel::FanApplying { .. } => Phase::WantsApplied,
        StateModel::Done => Phase::Finished,
    }
}

/// Whether `ev` is the event the state waits for.
pub open spec fn expects(state: StateModel, ev: EventModel) -> bool {
    match ev {
        EventModel::SourceKind { .. } => phase_of(state) == Phase::WantsSourceKind,
        EventModel::TargetKind { .. } => phase_of(state) == Phase::WantsTargetKind,
        EventModel::Listing { .. } => phase_of(state) == Phase::WantsListing,
        EventModel::Applied { .. } => phase_of(state) == Phase::WantsApplied,
    }
}

/// The whole call stops with this error.
pub open spec fn stop_err(e: ErrModel) -> ActionModel {
    ActionModel::Stop { outcome: Err(e) }
}

/// The whole call stops, successful.
pub open spec fn stop_ok() -> ActionModel {
    ActionModel::Stop { outcome: Ok(()) }
}

/// The error one failed application of the capability surfaces: for delete,
/// whose target argument is meaningless, the source alone is blamed.
pub open spec fn apply_error(op: OpKind, from: Seq<char>, to: Seq<char>) -> ErrModel {
    match op {
        OpKind::Delete => ErrModel::InvalidSource(from),
        _ => ErrModel::OperationFailed(from, to),
    }
}

/// Where a mask source leads: rejected when it has no final segment or the
/// segment holds no `*`; rejected when it has no parent directory to list;
/// otherwise the parent's listing is requested.
pub open spec fn mask_model(src: Seq<char>) -> (StateModel, ActionModel) {
    match base_name(src) {
        None => (StateModel::Done, stop_err(ErrModel::InvalidSource(src))),
        Some(name) => if !has_star(name) {
            (StateModel::Done, stop_err(ErrModel::InvalidSource(src)))
        } else {
            match parent_dir(src) {
                None => (StateModel::Done, stop_err(ErrModel::NoParent(src))),
                Some(par) => (
                    StateModel::AwaitListing { parent: par, pattern: name },
                    ActionModel::ListDir { path: par },
                ),
            }
        },
    }
}

/// The same walk, one entry further.
pub open spec fn next_fan(fan: FanModel) -> FanModel {
    FanModel { idx: fan.idx + 1, ..fan }
}

/// Walk the listing from `fan.idx` on: entries that are not plain files are
/// skipped, as are files whose name the pattern does not cover; a file whose
/// name cannot be decoded stops the call; the first match has the target
/// probed for it. Past the last entry the whole call has succeeded — zero
/// matches are a success, not an error.
pub open spec fn fan_model(target: Seq<char>, fan: FanModel) -> (StateModel, ActionModel)
    decreases fan.entries.len() - fan.idx,
{
    if !(0 <= fan.idx < fan.entries.len()) {
        (StateModel::Done, stop_ok())
    } else {
        let e = fan.entries[fan.idx];
        if e.is_file {
            match e.name {
                None => (StateModel::Done, stop_err(ErrModel::InvalidPath(fan.parent))),
                Some(n) => if glob_match(fan.pattern, n) {
                    (
                        StateModel::FanProbe { fan, name: n },
                        ActionModel::ProbeTarget { path: target },
                    )
                } else {
                    fan_model(target, next_fan(fan))
                },
            }
        } else {
            fan_model(target, next_fan(fan))
        }
    }
}

/// The transition of the whole machine: from the engine's state and one
/// expected event to the next state and the action the driver should take.
pub open spec fn step(m: EngineModel, ev: EventModel) -> (StateModel, ActionModel) {
    match (m.state, ev) {
        (StateModel::Start, EventModel::SourceKind { is_file, is_dir }) => {
            if is_file && is_dir {
                (StateModel::Done, stop_err(ErrModel::UnknownFormat(m.source)))
            } else if is_file {
                (StateModel::SingleProbe, ActionModel::ProbeTarget { path: m.target })
            } else if is_dir {
                (StateModel::DirTarget, ActionModel::ProbeTarget { path: m.target })
            } else {
                mask_model(m.source)
            }
        },
        (StateModel::SingleProbe, EventModel::TargetKind { is_dir }) => {
            if is_dir {
                match base_name(m.source) {
                    None => (StateModel::Done, stop_err(ErrModel::FilenameFail(m.source))),
                    Some(n) => (
                        StateModel::SingleApplying { from: m.source, to: joined(m.target, n) },
                        ActionModel::Apply { source: m.source, target: joined(m.target, n) },
                    ),
                }
            } else {
                (
                    StateModel::SingleApplying { from: m.source, to: m.target },
                    ActionModel::Apply { source: m.source, target: m.target },
                )
            }
        },
        (StateModel::DirTarget, EventModel::TargetKind { is_dir }) => {
            if !is_dir {
                (StateModel::Done, stop_err(ErrModel::InvalidTarget(m.target)))
            } else {
                mask_model(joined(m.source, seq!['*']))
            }
        },
        (StateModel::AwaitListing { parent, pattern }, EventModel::Listing { entries }) => {
            match entries {
                None => (StateModel::Done, stop_err(ErrModel::ReadError(parent))),
                Some(es) => fan_model(
                    m.target,
                    FanModel { parent, pattern, entries: es, idx: 0 },
                ),
            }
        },
        (StateModel::FanProbe { fan, name }, EventModel::TargetKind { is_dir }) => {
            let from = joined(fan.parent, name);
            let to = if is_dir {
                joined(m.target, name)
            } else {
                m.target
            };
            (
                StateModel::FanApplying { fan, from, to },
                ActionModel::Apply { source: from, target: to },
            )
        },
        (StateModel::SingleApplying { from, to }, EventModel::Applied { ok }) => {
            if ok {
                (StateModel::Done, stop_ok())
            } else {
                (StateModel::Done, stop_err(apply_error(m.op, from, to)))
            }
        },
        (StateModel::FanApplying { fan, from, to }, EventModel::Applied { ok }) => {
            if ok {
                fan_model(m.target, next_fan(fan))
            } else {
                (StateModel::Done, stop_err(apply_error(m.op, from, to)))
            }
        },
        _ => (m.state, stop_ok()),
    }
}

/// Parse a source as a mask, executable form.
fn mask_setup(src: &String) -> (r: (State, Action))
    ensures
        (r.0@, r.1@) == mask_model(src@),
{
    match base_name_of(src.as_str()) {
        None => (
            State::Done,
            Action::Stop { outcome: Err(WildcardingError::InvalidSource(src.clone())) },
        ),
        Some(name) => {
            if !contains_star(name.as_str()) {
                (
                    State::Done,
                    Action::Stop { outcome: Err(WildcardingError::InvalidSource(src.clone())) },
                )
            } else {
                match parent_of(src.as_str()) {
                    None => (
                        State::Done,
                        Action::Stop { outcome: Err(WildcardingError::NoParent(src.clone())) },
                    ),
                    Some(par) => {
                        let a = Action::ListDir { path: par.clone() };
                        (State::AwaitListing { parent: par, pattern: name }, a)
                    },
                }
            }
        },
    }
}

/// Walk the listing from `fan.idx` on, executable form.
fn fan_advance(target: &String, fan: FanState) -> (r: (State, Action))
    requires
        fan.idx <= fan.entries@.len(),
    ensures
        (r.0@, r.1@) == fan_model(target@, fan@),
{
    let ghost orig = fan@;
    let FanState { parent, pattern, entries, idx } = fan;
    let mut idx = idx;
    while idx < entries.len()
        invariant
            orig == fan@,
            idx <= entries.len(),
            fan_model(target@, orig) == fan_model(
                target@,
                (FanModel {
                    parent: parent@,
                    pattern: pattern@,
                    entries: entries_model(entries@),
                    idx: idx as int,
                }),
            ),
            orig.parent == parent@,
            orig.pattern == pattern@,
            orig.entries == entries_model(entries@),
        decreases entries.len() - idx,
    {
        let is_file = entries[idx].is_file;
        let name_opt: Option<String> = match &entries[idx].name {
            Some(n) => Some(n.clone()),
            None => None,
        };
        if is_file {
            match name_opt {
                None => {
                    return (
                        State::Done,
                        Action::Stop { outcome: Err(WildcardingError::InvalidPath(parent)) },
                    );
                },
                Some(n) => {
                    if wildcard_match(pattern.as_str(), n.as_str()) {
                        let a = Action::ProbeTarget { path: target.clone() };
                        return (
                            State::FanProbe {
                                fan: FanState { parent, pattern, entries, idx },
                                name: n,
                            },
                            a,
                        );
                    }
                },
            }
        }
        idx = idx + 1;
    }
    (State::Done, Action::Stop { outcome: Ok(()) })
}

/// The error one failed application surfaces, executable form.
fn apply_failure(op: OpKind, from: String, to: String) -> (e: WildcardingError)
    ensures
        e@ == apply_error(op, from@, to@),
{
    match op {
        OpKind::Delete => WildcardingError::InvalidSource(from),
        OpKind::Copy => WildcardingError::OperationFailed(from, to),
        OpKind::Move => WildcardingError::OperationFailed(from, to),
    }
}

impl Engine {
    /// A fresh engine for one top-level call. For a delete, `target` is the
    /// throwaway path the capability ignores (say, a scratch directory).
    pub fn new(op: OpKind, source: String, target: String) -> (e: Engine)
        ensures
            e@ == (EngineModel { op, source: source@, target: target@, state: StateModel::Start }),
    {
        Engine { op, source, target, state: State::Start }
    }

    /// The first action of every call: probe the source's nature.
    pub fn start(&self) -> (a: Action)
        ensures
            a@ == (ActionModel::ProbeSource { path: self@.source }),
    {
        Action::ProbeSource { path: self.source.clone() }
    }

    /// Which kind of event the engine waits for next.
    pub fn phase(&self) -> (p: Phase)
        ensures
            p == phase_of(self@.state),
    {
        match &self.state {
            State::Start => Phase::WantsSourceKind,
            State::SingleProbe => Phase::WantsTargetKind,
            State::DirTarget => Phase::WantsTargetKind,
            State::FanProbe { .. } => Phase::WantsTargetKind,
            State::AwaitListing { .. } => Phase::WantsListing,
            State::SingleApplying { .. } => Phase::WantsApplied,
            State::FanApplying { .. } => Phase::WantsApplied,
            State::Done => Phase::Finished,
        }
    }

    /// Feed the event the engine waits for; get the next action. The call's
    /// operation, source and target never change; the state advances exactly
    /// as [`step`] says.
    pub fn next(self, ev: Event) -> (r: (Engine, Action))
        requires
            expects(self@.state, ev@),
        ensures
            r.0@.op == self@.op,
            r.0@.source == self@.source,
            r.0@.target == self@.target,
            (r.0@.state, r.1@) == step(self@, ev@),
    {
        let ghost m = self@;
        let Engine { op, source, target, state } = self;
        match (state, ev) {
            (State::Start, Event::SourceKind { is_file, is_dir }) => {
                if is_file && is_dir {
                    let a = Action::Stop {
                        outcome: Err(WildcardingError::UnknownFormat(source.clone())),
                    };
                    (Engine { op, source, target, state: State::Done }, a)
                } else if is_file {
                    let a = Action::ProbeTarget { path: target.clone() };
                    (Engine { op, source, target, state: State::SingleProbe }, a)
                } else if is_dir {
                    let a = Action::ProbeTarget { path: target.clone() };
                    (Engine { op, source, target, state: State::DirTarget }, a)
                } else {
                    let (st, a) = mask_setup(&source);
                    (Engine { op, source, target, state: st }, a)
                }
            },
            (State::SingleProbe, Event::TargetKind { is_dir }) => {
                if is_dir {
                    match base_name_of(source.as_str()) {
                        None => {
                            let a = Action::Stop {
                                outcome: Err(WildcardingError::FilenameFail(source.clone())),
                            };
                            (Engine { op, source, target, state: State::Done }, a)
                        },
                        Some(n) => {
                            let to = join_path(target.as_str(), n.as_str());
                            let a = Action::Apply { source: source.clone(), target: to.clone() };
                            (
                                Engine {
                                    op,
                                    source: source.clone(),
                                    target,
                                    state: State::SingleApplying { from: source, to },
                                },
                                a,
                            )
                        },
                    }
                } else {
                    let a = Action::Apply { source: source.clone(), target: target.clone() };
                    (
                        Engine {
                            op,
                            source: source.clone(),
                            target: target.clone(),
                            state: State::SingleApplying { from: source, to: target },
                        },
                        a,
                    )
                }
            },
            (State::DirTarget, Event::TargetKind { is_dir }) => {
                if !is_dir {
                    let a = Action::Stop {
                        outcome: Err(WildcardingError::InvalidTarget(target.clone())),
                    };
                    (Engine { op, source, target, state: State::Done }, a)
                } else {
                    let star = String::from_str("*");
                    proof {
                        reveal_strlit("*");
                        assert(star@ =~= seq!['*']);
                    }
                    let synthetic = join_path(source.as_str(), star.as_str());
                    let (st, a) = mask_setup(&synthetic);
                    (Engine { op, source, target, state: st }, a)
                }
            },
            (State::AwaitListing { parent, pattern }, Event::Listing { entries }) => {
                match entries {
                    None => {
                        let a = Action::Stop {
                            outcome: Err(WildcardingError::ReadError(parent)),
                        };
                        (Engine { op, source, target, state: State::Done }, a)
                    },
                    Some(es) => {
                        let (st, a) = fan_advance(
                            &target,
                            FanState { parent, pattern, entries: es, idx: 0 },
                        );
                        (Engine { op, source, target, state: st }, a)
                    },
                }
            },
            (State::FanProbe { fan, name }, Event::TargetKind { is_dir }) => {
                let from = join_path(fan.parent.as_str(), name.as_str());
                let to = if is_dir {
                    join_path(target.as_str(), name.as_str())
                } else {
                    target.clone()
                };
                let a = Action::Apply { source: from.clone(), target: to.clone() };
                (
                    Engine { op, source, target, state: State::FanApplying { fan, from, to } },
                    a,
                )
            },
            (State::SingleApplying { from, to }, Event::Applied { ok }) => {
                if ok {
                    let a = Action::Stop { outcome: Ok(()) };
                    (Engine { op, source, target, state: State::Done }, a)
                } else {
                    let a = Action::Stop { outcome: Err(apply_failure(op, from, to)) };
                    (Engine { op, source, target, state: State::Done }, a)
                }
            },
            (State::FanApplying { fan, from, to }, Event::Applied { ok }) => {
                if ok {
                    let FanState { parent, pattern, entries, idx } = fan;
                    let bumped: usize = if idx < entries.len() {
                        idx + 1
                    } else {
                        entries.len()
                    };
                    let (st, a) = fan_advance(
                        &target,
                        FanState { parent, pattern, entries, idx: bumped },
                    );
                    (Engine { op, source, target, state: st }, a)
                } else {
                    let a = Action::Stop { outcome: Err(apply_failure(op, from, to)) };
                    (Engine { op, source, target, state: State::Done }, a)
                }
            },
            _ => {
                proof {
                    assert(false);
                }
                vstd::pervasive::unreached()
            },
        }
    }
}

} // verus!
