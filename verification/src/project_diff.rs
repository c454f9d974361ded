//! The project-diff panel: one view over the unstaged changes of every file
//! of the active repository.

use vstd::prelude::*;
use crate::project_path::{BufferId, ProjectPath};
use crate::sync_plan::{
    collect_buffers_to_evict, collect_paths_to_load, LoadedBuffer, StatusEntry, SyncPlan,
};
use crate::worker::{WorkerAction, WorkerEvent, WorkerPhase};

verus! {

/// One changed region of a buffer. `A` is the editor's type of a position in
/// a buffer; the panel only passes positions on.
#[derive(Clone, Debug)]
pub struct DiffHunk<A> {
    pub buffer_start: A,
    pub buffer_end: A,
}

/// A buffer that finished loading, with the hunks of its unstaged changes
/// over the whole buffer, in buffer order.
#[derive(Clone, Debug)]
pub struct DiffBuffer<A> {
    pub buffer: BufferId,
    pub hunks: Vec<DiffHunk<A>>,
}

/// A request to replace the excerpts that the view shows of one buffer.
#[derive(Clone, Debug)]
pub struct ExcerptRequest<A> {
    pub buffer: BufferId,
    /// The ranges to show, as pairs of start and end.
    pub ranges: Vec<(A, A)>,
    /// The number of lines to show around each range.
    pub context_line_count: u32,
}

/// The range that a hunk covers in its buffer.
pub open spec fn hunk_range<A>(hunk: DiffHunk<A>) -> (A, A) {
    (hunk.buffer_start, hunk.buffer_end)
}

/// What opening the panel does to the workspace.
#[derive(Clone, Debug)]
pub enum DeployAction<I> {
    /// The workspace already holds the panel: bring it to the front.
    ActivateExisting { item: I, activate_pane: bool, focus_item: bool },
    /// Create the panel and add it to the active pane.
    AddToActivePane { destination_index: Option<usize>, focus_item: bool },
}

/// The colour of a label.
#[derive(Clone, Copy, Debug, PartialEq, Eq, Hash, Structural)]
pub enum LabelColor {
    Default,
    Muted,
}

/// The content of the panel's tab.
#[derive(Clone, Copy, Debug)]
pub struct TabContent {
    pub text: &'static str,
    pub color: LabelColor,
}

/// The views as which the panel can be addressed.
#[derive(Clone, Copy, Debug, PartialEq, Eq, Hash, Structural)]
pub enum ViewRole {
    /// The panel itself.
    Panel,
    /// The editor that the panel embeds.
    Editor,
}

/// The controller of the panel: it holds the state of the background worker
/// and decides what each synchronisation round does.
#[derive(Debug)]
pub struct ProjectDiff {
    phase: WorkerPhase,
}

impl ProjectDiff {
    /// The phase of the background worker.
    pub closed spec fn worker_phase(&self) -> WorkerPhase {
        self.phase
    }

    /// The worker's phase is well formed at all times.
    #[verifier::type_invariant]
    spec fn phase_is_well_formed(&self) -> bool {
        self.phase.well_formed()
    }

    /// A panel whose worker waits for its first update.
    pub fn new() -> (panel: ProjectDiff)
        ensures
            panel.worker_phase() == WorkerPhase::AwaitingUpdate,
    {
        ProjectDiff { phase: WorkerPhase::AwaitingUpdate }
    }

    /// The phase of the background worker. While a round is in progress the
    /// load that the worker waits for is one of the round.
    pub fn phase(&self) -> (phase: WorkerPhase)
        ensures
            phase == self.worker_phase(),
            phase.well_formed(),
    {
        proof {
            use_type_invariant(self);
        }
        self.phase
    }

    /// Opens the panel: an existing panel is activated with its pane and
    /// focused, otherwise a new one goes to the end of the active pane and
    /// is focused.
    pub fn deploy<I>(existing: Option<I>) -> (action: DeployAction<I>)
        ensures
            match existing {
                Some(item) => action == (DeployAction::ActivateExisting {
                    item,
                    activate_pane: true,
                    focus_item: true,
                }),
                None => action == (DeployAction::<I>::AddToActivePane {
                    destination_index: None,
                    focus_item: true,
                }),
            },
    {
        match existing {
            Some(item) => DeployAction::ActivateExisting {
                item,
                activate_pane: true,
                focus_item: true,
            },
            None => DeployAction::AddToActivePane { destination_index: None, focus_item: true },
        }
    }

    /// Plans one synchronisation round. `status` is the status of the active
    /// repository, or `None` where the project has no active repository;
    /// `loaded` lists the buffers that the view shows.
    ///
    /// Without a repository the view is cleared and nothing is loaded. With
    /// one, every status entry with changes that lies in the project is
    /// loaded, and every shown buffer whose file no such entry names is
    /// evicted. A shown buffer without a file stays.
    pub fn buffers_to_load(status: Option<&Vec<StatusEntry>>, loaded: &Vec<LoadedBuffer>) -> (plan:
        SyncPlan)
        ensures
            match status {
                None => plan.is_clear_all(),
                Some(entries) => plan.is_update(entries@, loaded@),
            },
    {
        match status {
            None => SyncPlan { clear: true, load: Vec::new(), evict: Vec::new() },
            Some(entries) => {
                let load = collect_paths_to_load(entries);
                let evict = collect_buffers_to_evict(loaded, &load);
                SyncPlan { clear: false, load, evict }
            },
        }
    }

    /// Turns a loaded buffer into the request that shows its changes: one
    /// range for each hunk, in order, with `context_line_count` lines around
    /// each. The count is the editor's default for views over many buffers.
    pub fn register_buffer<A>(diff_buffer: DiffBuffer<A>, context_line_count: u32) -> (request:
        ExcerptRequest<A>)
        ensures
            request.buffer == diff_buffer.buffer,
            request.ranges@ == diff_buffer.hunks@.map_values(|h: DiffHunk<A>| hunk_range(h)),
            request.context_line_count == context_line_count,
    {
        let DiffBuffer { buffer, hunks } = diff_buffer;
        let ghost all = hunks@;
        let mut ranges: Vec<(A, A)> = Vec::new();
        for hunk in it: hunks
            invariant
                it.seq() == all,
                ranges@ == all.take(it.index() as int).map_values(|h: DiffHunk<A>| hunk_range(h)),
        {
            let ghost before = ranges@;
            ranges.push((hunk.buffer_start, hunk.buffer_end));
            assert(all.take(it.index() + 1).drop_last() =~= all.take(it.index() as int));
            assert(ranges@ =~= all.take(it.index() + 1).map_values(
                |h: DiffHunk<A>| hunk_range(h),
            ));
        }
        assert(all.take(all.len() as int) =~= all);
        ExcerptRequest { buffer, ranges, context_line_count }
    }

    /// Advances the background worker by one event and tells its driver what
    /// to do next. An event that the worker does not wait for changes nothing
    /// and the driver is told again what it owes.
    pub fn worker(&mut self, event: WorkerEvent) -> (action: WorkerAction)
        ensures
            final(self).worker_phase() == old(self).worker_phase().on(event),
            action == final(self).worker_phase().owed(),
    {
        proof {
            use_type_invariant(&*self);
        }
        let following = self.phase.step(event);
        self.phase = following;
        following.action()
    }

    /// The tab of the panel: a fixed label, muted unless the tab is selected.
    pub fn tab_content(selected: bool) -> (content: TabContent)
        ensures
            content.text@ == "No changes"@,
            content.color == if selected {
                LabelColor::Default
            } else {
                LabelColor::Muted
            },
    {
        TabContent {
            text: "No changes",
            color: if selected {
                LabelColor::Default
            } else {
                LabelColor::Muted
            },
        }
    }

    /// Which view answers for a requested type: the panel for its own type,
    /// the embedded editor for the editor's type, none for any other. The
    /// panel's own type is tested first.
    pub fn act_as_type(is_panel_type: bool, is_editor_type: bool) -> (role: Option<ViewRole>)
        ensures
            role == if is_panel_type {
                Some(ViewRole::Panel)
            } else if is_editor_type {
                Some(ViewRole::Editor)
            } else {
                None
            },
    {
        if is_panel_type {
            Some(ViewRole::Panel)
        } else if is_editor_type {
            Some(ViewRole::Editor)
        } else {
            None
        }
    }
}

} // verus!
