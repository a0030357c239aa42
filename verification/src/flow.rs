use vstd::prelude::*;

use crate::detect::{CodexDesktopInstallation, installation_description};
use crate::error::InstallerError;
use crate::install::{
    InstallMilestone, InstallResult, ProgressUpdate, ProgressView, check_detail_spec,
    companion_display_name, companion_name_spec, installation_check_detail, milestone_progress,
    milestone_spec, progress_view,
};

verus! {

/// Where an installation run stands.
pub enum FlowStage {
    /// Nothing has happened yet.
    Start,
    /// Waiting for the download client and the install folder.
    AwaitPreparation,
    /// Waiting for what the check of the computer found.
    AwaitCheck,
    /// Waiting for the Codex desktop application to be installed.
    AwaitCodex,
    /// Waiting for whether the Visual C++ runtime is installed.
    AwaitRuntimeCheck,
    /// Waiting for the Visual C++ runtime to be installed.
    AwaitRuntime,
    /// Waiting for the companion tool to be installed.
    AwaitCompanion,
    /// The run has finished or failed.
    Finished,
}

/// What the application reports to the installation run.
pub enum FlowEvent {
    /// The run was asked for.
    Requested,
    /// The run is prepared; its programs go into `install_directory`.
    Begun { install_directory: String },
    /// What the check of the computer found.
    Checked {
        codex: Option<CodexDesktopInstallation>,
        companion_installed: bool,
        runtime_installed: bool,
    },
    /// The Codex installer finished; the installation found afterwards.
    CodexInstalled { found: Option<CodexDesktopInstallation> },
    /// Whether the Visual C++ runtime is installed.
    RuntimeChecked { installed: bool },
    /// The Visual C++ runtime installer finished.
    RuntimeInstalled,
    /// The companion installer finished.
    CompanionInstalled,
}

/// What the installation run asks the application to do, in order.
pub enum FlowAction {
    /// Show this progress report.
    Report(ProgressUpdate),
    /// Create the download folder.
    CreateCache,
    /// Stop unless the run is still the live one.
    EnsureActive,
    /// Set up the download client and find the install folder, then report `Begun`.
    Prepare,
    /// Look for Codex, the companion tool and the runtime, then report `Checked`.
    CheckComputer,
    /// Download and install Codex, then report `CodexInstalled`.
    InstallCodex,
    /// Look for the runtime, then report `RuntimeChecked`.
    CheckRuntime,
    /// Download and install the runtime, then report `RuntimeInstalled`.
    InstallRuntime,
    /// Download and install the companion tool, then report `CompanionInstalled`.
    InstallCompanion,
    /// The run succeeded with this result.
    Finish(InstallResult),
    /// The run failed with this error.
    Fail(InstallerError),
}

/// An action, with its report or result by characters.
pub enum ActionView {
    Report(ProgressView),
    CreateCache,
    EnsureActive,
    Prepare,
    CheckComputer,
    InstallCodex,
    CheckRuntime,
    InstallRuntime,
    InstallCompanion,
    Finish(Seq<char>, Seq<char>, Seq<char>),
    Fail(InstallerError),
}

/// An action by its view.
pub open spec fn action_view(a: FlowAction) -> ActionView {
    match a {
        FlowAction::Report(p) => ActionView::Report(progress_view(p)),
        FlowAction::CreateCache => ActionView::CreateCache,
        FlowAction::EnsureActive => ActionView::EnsureActive,
        FlowAction::Prepare => ActionView::Prepare,
        FlowAction::CheckComputer => ActionView::CheckComputer,
        FlowAction::InstallCodex => ActionView::InstallCodex,
        FlowAction::CheckRuntime => ActionView::CheckRuntime,
        FlowAction::InstallRuntime => ActionView::InstallRuntime,
        FlowAction::InstallCompanion => ActionView::InstallCompanion,
        FlowAction::Finish(r) => ActionView::Finish(r.codex_version@, r.companion_name@, r.install_directory@),
        FlowAction::Fail(e) => ActionView::Fail(e),
    }
}

/// The reports of an installation run, for one companion tool.
pub struct InstallFlow {
    run_id: u64,
    companion_name: String,
    stage: FlowStage,
    companion_installed: bool,
    codex_version: String,
    install_directory: String,
}

/// The state of a run: stage, whether the companion tool is installed, the
/// description of Codex and the install folder.
pub struct FlowView {
    pub stage: FlowStage,
    pub companion_installed: bool,
    pub codex_version: Seq<char>,
    pub install_directory: Seq<char>,
}

/// Report `m` as the view of an action.
pub open spec fn report(m: InstallMilestone, name: Seq<char>) -> ActionView {
    ActionView::Report(milestone_spec(m, name, Seq::empty()))
}

/// The actions that end a successful run.
pub open spec fn finish_actions(name: Seq<char>, codex_version: Seq<char>, dir: Seq<char>) -> Seq<ActionView> {
    seq![
        ActionView::EnsureActive,
        report(InstallMilestone::FinalCheck, name),
        report(InstallMilestone::Complete, name),
        ActionView::Finish(codex_version, name, dir),
    ]
}

/// The actions of the companion part of a run: skip it where the tool is
/// installed (and finish), else install it.
pub open spec fn companion_actions(name: Seq<char>, installed: bool, codex_version: Seq<char>, dir: Seq<char>) -> Seq<ActionView> {
    if installed {
        seq![report(InstallMilestone::CompanionSkipped, name)] + finish_actions(name, codex_version, dir)
    } else {
        seq![report(InstallMilestone::CompanionFetching, name), ActionView::InstallCompanion]
    }
}

/// The stage after the companion part starts.
pub open spec fn companion_stage(installed: bool) -> FlowStage {
    if installed {
        FlowStage::Finished
    } else {
        FlowStage::AwaitCompanion
    }
}

/// One step of a run for the companion tool `name`: from the state before
/// and an event, the state after and the actions to take. An event that
/// does not fit the stage changes nothing and asks for nothing.
pub open spec fn flow_step(name: Seq<char>, s: FlowView, e: FlowEvent) -> (FlowView, Seq<ActionView>) {
    match (s.stage, e) {
        (FlowStage::Start, FlowEvent::Requested) => (
            FlowView { stage: FlowStage::AwaitPreparation, ..s },
            seq![ActionView::EnsureActive, ActionView::Prepare],
        ),
        (FlowStage::AwaitPreparation, FlowEvent::Begun { install_directory }) => (
            FlowView { stage: FlowStage::AwaitCheck, install_directory: install_directory@, ..s },
            seq![report(InstallMilestone::CheckingEnvironment, name), ActionView::CheckComputer],
        ),
        (FlowStage::AwaitCheck, FlowEvent::Checked { codex, companion_installed, runtime_installed }) => {
            let check = ActionView::Report(milestone_spec(
                InstallMilestone::CheckComplete,
                name,
                check_detail_spec(codex is Some, companion_installed, name),
            ));
            let cache = if codex is None || !companion_installed || !runtime_installed {
                seq![ActionView::CreateCache]
            } else {
                Seq::empty()
            };
            match codex {
                Some(i) => (
                    FlowView {
                        stage: FlowStage::AwaitRuntimeCheck,
                        companion_installed,
                        codex_version: installation_description(i),
                        ..s
                    },
                    seq![check] + cache + seq![
                        report(InstallMilestone::CodexSkipped, name),
                        ActionView::EnsureActive,
                        ActionView::CheckRuntime,
                    ],
                ),
                None => (
                    FlowView { stage: FlowStage::AwaitCodex, companion_installed, ..s },
                    seq![check] + cache + seq![
                        report(InstallMilestone::CodexFetching, name),
                        ActionView::InstallCodex,
                    ],
                ),
            }
        },
        (FlowStage::AwaitCodex, FlowEvent::CodexInstalled { found }) => match found {
            Some(i) => (
                FlowView {
                    stage: FlowStage::AwaitRuntimeCheck,
                    codex_version: installation_description(i),
                    ..s
                },
                seq![ActionView::EnsureActive, ActionView::CheckRuntime],
            ),
            None => (
                FlowView { stage: FlowStage::Finished, ..s },
                seq![ActionView::Fail(InstallerError::CodexNotRegistered)],
            ),
        },
        (FlowStage::AwaitRuntimeCheck, FlowEvent::RuntimeChecked { installed }) => if installed {
            (
                FlowView { stage: companion_stage(s.companion_installed), ..s },
                seq![report(InstallMilestone::RuntimeSkipped, name), ActionView::EnsureActive]
                    + companion_actions(name, s.companion_installed, s.codex_version, s.install_directory),
            )
        } else {
            (
                FlowView { stage: FlowStage::AwaitRuntime, ..s },
                seq![report(InstallMilestone::RuntimeFetching, name), ActionView::InstallRuntime],
            )
        },
        (FlowStage::AwaitRuntime, FlowEvent::RuntimeInstalled) => (
            FlowView { stage: companion_stage(s.companion_installed), ..s },
            seq![ActionView::EnsureActive] + companion_actions(
                name,
                s.companion_installed,
                s.codex_version,
                s.install_directory,
            ),
        ),
        (FlowStage::AwaitCompanion, FlowEvent::CompanionInstalled) => (
            FlowView { stage: FlowStage::Finished, ..s },
            finish_actions(name, s.codex_version, s.install_directory),
        ),
        _ => (s, Seq::empty()),
    }
}


/// The actions, by their views.
pub open spec fn actions_view(v: Seq<FlowAction>) -> Seq<ActionView> {
    v.map_values(|a: FlowAction| action_view(a))
}

/// Every report among the actions belongs to run `run_id`.
pub open spec fn reports_of_run(v: Seq<FlowAction>, run_id: u64) -> bool {
    forall|i: int| 0 <= i < v.len() ==> (#[trigger] v[i] matches FlowAction::Report(p) ==> p.run_id == run_id)
}

/// Appends one action.
fn push_action(actions: &mut Vec<FlowAction>, a: FlowAction, Ghost(run_id): Ghost<u64>)
    requires
        reports_of_run(old(actions)@, run_id),
        a matches FlowAction::Report(p) ==> p.run_id == run_id,
    ensures
        actions_view(final(actions)@) == actions_view(old(actions)@).push(action_view(a)),
        reports_of_run(final(actions)@, run_id),
{
    let ghost before = actions@;
    actions.push(a);
    assert(actions_view(actions@) =~= actions_view(before).push(action_view(a)));
}

/// Appends the report at milestone `m`.
fn add_report(actions: &mut Vec<FlowAction>, run_id: u64, m: InstallMilestone, name: &String, detail: &str)
    requires
        reports_of_run(old(actions)@, run_id),
    ensures
        actions_view(final(actions)@) == actions_view(old(actions)@).push(
            ActionView::Report(milestone_spec(m, name@, detail@)),
        ),
        reports_of_run(final(actions)@, run_id),
{
    let p = milestone_progress(run_id, m, name.as_str(), detail);
    push_action(actions, FlowAction::Report(p), Ghost(run_id));
}

impl InstallFlow {
    /// The state of the run.
    pub closed spec fn view(&self) -> FlowView {
        FlowView {
            stage: self.stage,
            companion_installed: self.companion_installed,
            codex_version: self.codex_version@,
            install_directory: self.install_directory@,
        }
    }

    /// The name shown for the companion tool of the run.
    pub closed spec fn name(&self) -> Seq<char> {
        self.companion_name@
    }

    /// The run that this flow reports for.
    pub closed spec fn run(&self) -> u64 {
        self.run_id
    }

    /// A run `run_id` that installs the companion tool `companion`; its first
    /// event is `Requested`, whose first action checks that the run is live.
    pub fn new(run_id: u64, companion: &str) -> (r: InstallFlow)
        ensures
            r.view().stage == FlowStage::Start,
            r.name() == companion_name_spec(companion@),
            r.run() == run_id,
    {
        InstallFlow {
            run_id,
            companion_name: companion_display_name(companion),
            stage: FlowStage::Start,
            companion_installed: false,
            codex_version: String::new(),
            install_directory: String::new(),
        }
    }

    /// The name shown for the companion tool of the run.
    pub fn companion_name(&self) -> (r: &String)
        ensures
            r@ == self.name(),
    {
        &self.companion_name
    }

    /// Whether the run has finished or failed.
    pub fn is_finished(&self) -> (r: bool)
        ensures
            r == (self.view().stage == FlowStage::Finished),
    {
        match self.stage {
            FlowStage::Finished => true,
            _ => false,
        }
    }

    /// Appends the actions that end a successful run.
    fn add_finish(&self, actions: &mut Vec<FlowAction>)
        requires
            reports_of_run(old(actions)@, self.run_id),
        ensures
            actions_view(final(actions)@) == actions_view(old(actions)@) + finish_actions(
                self.companion_name@,
                self.codex_version@,
                self.install_directory@,
            ),
            reports_of_run(final(actions)@, self.run_id),
    {
        let ghost v0 = actions_view(actions@);
        push_action(actions, FlowAction::EnsureActive, Ghost(self.run_id));
        add_report(actions, self.run_id, InstallMilestone::FinalCheck, &self.companion_name, "");
        add_report(actions, self.run_id, InstallMilestone::Complete, &self.companion_name, "");
        let result = InstallResult {
            codex_version: self.codex_version.clone(),
            companion_name: self.companion_name.clone(),
            install_directory: self.install_directory.clone(),
        };
        push_action(actions, FlowAction::Finish(result), Ghost(self.run_id));
        assert(actions_view(actions@) =~= v0 + finish_actions(
            self.companion_name@,
            self.codex_version@,
            self.install_directory@,
        ));
    }

    /// Appends the actions of the companion part of the run.
    fn add_companion(&self, actions: &mut Vec<FlowAction>)
        requires
            reports_of_run(old(actions)@, self.run_id),
        ensures
            actions_view(final(actions)@) == actions_view(old(actions)@) + companion_actions(
                self.companion_name@,
                self.companion_installed,
                self.codex_version@,
                self.install_directory@,
            ),
            reports_of_run(final(actions)@, self.run_id),
    {
        let ghost v0 = actions_view(actions@);
        if self.companion_installed {
            add_report(actions, self.run_id, InstallMilestone::CompanionSkipped, &self.companion_name, "");
            self.add_finish(actions);
            assert(actions_view(actions@) =~= v0 + companion_actions(
                self.companion_name@,
                self.companion_installed,
                self.codex_version@,
                self.install_directory@,
            ));
        } else {
            add_report(actions, self.run_id, InstallMilestone::CompanionFetching, &self.companion_name, "");
            push_action(actions, FlowAction::InstallCompanion, Ghost(self.run_id));
            assert(actions_view(actions@) =~= v0 + companion_actions(
                self.companion_name@,
                self.companion_installed,
                self.codex_version@,
                self.install_directory@,
            ));
        }
    }

    /// Takes one step of the run: the state moves as [`flow_step`] says and
    /// the actions it names are returned, every report carrying this run.
    pub fn step(&mut self, event: FlowEvent) -> (actions: Vec<FlowAction>)
        ensures
            (final(self).view(), actions_view(actions@)) == flow_step(old(self).name(), old(self).view(), event),
            final(self).name() == old(self).name(),
            final(self).run() == old(self).run(),
            reports_of_run(actions@, old(self).run()),
    {
        let mut actions: Vec<FlowAction> = Vec::new();
        let ghost s0 = self.view();
        let ghost name = self.companion_name@;
        match (&self.stage, event) {
            (FlowStage::Start, FlowEvent::Requested) => {
                self.stage = FlowStage::AwaitPreparation;
                push_action(&mut actions, FlowAction::EnsureActive, Ghost(self.run_id));
                push_action(&mut actions, FlowAction::Prepare, Ghost(self.run_id));
                assert(actions_view(actions@) =~= seq![ActionView::EnsureActive, ActionView::Prepare]);
            },
            (FlowStage::AwaitPreparation, FlowEvent::Begun { install_directory }) => {
                self.stage = FlowStage::AwaitCheck;
                self.install_directory = install_directory;
                add_report(&mut actions, self.run_id, InstallMilestone::CheckingEnvironment, &self.companion_name, "");
                push_action(&mut actions, FlowAction::CheckComputer, Ghost(self.run_id));
                assert(actions_view(actions@) =~= seq![
                    report(InstallMilestone::CheckingEnvironment, name),
                    ActionView::CheckComputer,
                ]);
            },
            (FlowStage::AwaitCheck, FlowEvent::Checked { codex, companion_installed, runtime_installed }) => {
                let detail = installation_check_detail(codex.is_some(), companion_installed, self.companion_name.as_str());
                add_report(&mut actions, self.run_id, InstallMilestone::CheckComplete, &self.companion_name, detail.as_str());
                let needs_cache = codex.is_none() || !companion_installed || !runtime_installed;
                if needs_cache {
                    push_action(&mut actions, FlowAction::CreateCache, Ghost(self.run_id));
                }
                self.companion_installed = companion_installed;
                match codex {
                    Some(i) => {
                        self.codex_version = i.description();
                        self.stage = FlowStage::AwaitRuntimeCheck;
                        add_report(&mut actions, self.run_id, InstallMilestone::CodexSkipped, &self.companion_name, "");
                        push_action(&mut actions, FlowAction::EnsureActive, Ghost(self.run_id));
                        push_action(&mut actions, FlowAction::CheckRuntime, Ghost(self.run_id));
                    },
                    None => {
                        self.stage = FlowStage::AwaitCodex;
                        add_report(&mut actions, self.run_id, InstallMilestone::CodexFetching, &self.companion_name, "");
                        push_action(&mut actions, FlowAction::InstallCodex, Ghost(self.run_id));
                    },
                }
                assert(actions_view(actions@) =~= flow_step(name, s0, FlowEvent::Checked { codex, companion_installed, runtime_installed }).1);
            },
            (FlowStage::AwaitCodex, FlowEvent::CodexInstalled { found }) => {
                match found {
                    Some(i) => {
                        self.codex_version = i.description();
                        self.stage = FlowStage::AwaitRuntimeCheck;
                        push_action(&mut actions, FlowAction::EnsureActive, Ghost(self.run_id));
                        push_action(&mut actions, FlowAction::CheckRuntime, Ghost(self.run_id));
                    },
                    None => {
                        self.stage = FlowStage::Finished;
                        push_action(&mut actions, FlowAction::Fail(InstallerError::CodexNotRegistered), Ghost(self.run_id));
                    },
                }
                assert(actions_view(actions@) =~= flow_step(name, s0, FlowEvent::CodexInstalled { found }).1);
            },
            (FlowStage::AwaitRuntimeCheck, FlowEvent::RuntimeChecked { installed }) => {
                if installed {
                    add_report(&mut actions, self.run_id, InstallMilestone::RuntimeSkipped, &self.companion_name, "");
                    push_action(&mut actions, FlowAction::EnsureActive, Ghost(self.run_id));
                    self.add_companion(&mut actions);
                    self.stage = if self.companion_installed { FlowStage::Finished } else { FlowStage::AwaitCompanion };
                } else {
                    self.stage = FlowStage::AwaitRuntime;
                    add_report(&mut actions, self.run_id, InstallMilestone::RuntimeFetching, &self.companion_name, "");
                    push_action(&mut actions, FlowAction::InstallRuntime, Ghost(self.run_id));
                }
                assert(actions_view(actions@) =~= flow_step(name, s0, FlowEvent::RuntimeChecked { installed }).1);
            },
            (FlowStage::AwaitRuntime, FlowEvent::RuntimeInstalled) => {
                push_action(&mut actions, FlowAction::EnsureActive, Ghost(self.run_id));
                self.add_companion(&mut actions);
                self.stage = if self.companion_installed { FlowStage::Finished } else { FlowStage::AwaitCompanion };
                assert(actions_view(actions@) =~= flow_step(name, s0, FlowEvent::RuntimeInstalled).1);
            },
            (FlowStage::AwaitCompanion, FlowEvent::CompanionInstalled) => {
                self.add_finish(&mut actions);
                self.stage = FlowStage::Finished;
                assert(actions_view(actions@) =~= flow_step(name, s0, FlowEvent::CompanionInstalled).1);
            },
            _ => {
                assert(actions_view(actions@) =~= Seq::<ActionView>::empty());
            },
        }
        actions
    }
}


/// The action asks the application for work that ends in the next event.
pub open spec fn awaits_event(a: ActionView) -> bool {
    a is Prepare || a is CheckComputer || a is InstallCodex || a is CheckRuntime || a is InstallRuntime || a is InstallCompanion
}

/// The action ends the run.
pub open spec fn ends_run(a: ActionView) -> bool {
    a is Finish || a is Fail
}

/// The event fits the stage.
pub open spec fn event_fits(stage: FlowStage, e: FlowEvent) -> bool {
    match (stage, e) {
        (FlowStage::Start, FlowEvent::Requested) => true,
        (FlowStage::AwaitPreparation, FlowEvent::Begun { .. }) => true,
        (FlowStage::AwaitCheck, FlowEvent::Checked { .. }) => true,
        (FlowStage::AwaitCodex, FlowEvent::CodexInstalled { .. }) => true,
        (FlowStage::AwaitRuntimeCheck, FlowEvent::RuntimeChecked { .. }) => true,
        (FlowStage::AwaitRuntime, FlowEvent::RuntimeInstalled) => true,
        (FlowStage::AwaitCompanion, FlowEvent::CompanionInstalled) => true,
        _ => false,
    }
}

/// A run never stalls: every step that an event fits ends either with work
/// that yields the next event, and then the run goes on, or with the end of
/// the run, and then the run is finished; nothing before the last action
/// ends the run or waits for an event.
pub proof fn lemma_flow_never_stalls(name: Seq<char>, s: FlowView, e: FlowEvent)
    requires
        event_fits(s.stage, e),
    ensures
        ({
            let (t, acts) = flow_step(name, s, e);
            &&& acts.len() > 0
            &&& awaits_event(acts.last()) ==> t.stage != FlowStage::Finished
            &&& ends_run(acts.last()) <==> t.stage == FlowStage::Finished
            &&& awaits_event(acts.last()) || ends_run(acts.last())
            &&& forall|i: int| 0 <= i < acts.len() - 1 ==> !awaits_event(#[trigger] acts[i]) && !ends_run(acts[i])
        }),
{
    let (t, acts) = flow_step(name, s, e);
    match (s.stage, e) {
        (FlowStage::AwaitCheck, FlowEvent::Checked { codex, companion_installed, runtime_installed }) => {
            assert(acts.len() > 0);
        },
        _ => {},
    }
}

/// A run begins by checking that it is still live, before it reports
/// anything or asks for any work; no other event starts it.
pub proof fn lemma_run_starts_with_liveness_check(name: Seq<char>, s: FlowView, e: FlowEvent)
    requires
        s.stage == FlowStage::Start,
    ensures
        e is Requested ==> flow_step(name, s, e).1.len() > 0 && flow_step(name, s, e).1[0] == ActionView::EnsureActive,
        !(e is Requested) ==> flow_step(name, s, e).1.len() == 0 && flow_step(name, s, e).0 == s,
{
}

/// A step that an event fits always moves the run to another stage.
pub proof fn lemma_flow_moves_forward(name: Seq<char>, s: FlowView, e: FlowEvent)
    requires
        event_fits(s.stage, e),
    ensures
        flow_step(name, s, e).0.stage != s.stage,
{
}

/// The state and the actions after the events of a run, one step each, from
/// state `s`: what successive calls of [`InstallFlow::step`] give.
pub open spec fn run_from(name: Seq<char>, s: FlowView, events: Seq<FlowEvent>) -> (FlowView, Seq<ActionView>)
    decreases events.len(),
{
    if events.len() == 0 {
        (s, Seq::empty())
    } else {
        let (t, a) = flow_step(name, s, events[0]);
        let (u, b) = run_from(name, t, events.drop_first());
        (u, a + b)
    }
}

/// The action downloads a file into the download folder.
pub open spec fn downloads(a: ActionView) -> bool {
    a is InstallCodex || a is InstallCompanion
}

/// Some action before position `j` creates the download folder.
pub open spec fn cache_before(acts: Seq<ActionView>, j: int) -> bool {
    exists|i: int| 0 <= i < j && #[trigger] acts[i] is CreateCache
}

/// Each download among the actions comes after the creation of the download
/// folder, or the folder was made before them (`made`).
pub open spec fn downloads_follow_cache(acts: Seq<ActionView>, made: bool) -> bool {
    forall|j: int| 0 <= j < acts.len() && #[trigger] downloads(acts[j]) ==> made || cache_before(acts, j)
}

/// What a run needs of its download folder at its stage: while Codex is
/// being installed it has been made, and later, while the companion tool
/// is still to be installed, too.
pub open spec fn cache_ready(s: FlowView, made: bool) -> bool {
    match s.stage {
        FlowStage::AwaitCodex => made,
        FlowStage::AwaitRuntimeCheck | FlowStage::AwaitRuntime | FlowStage::AwaitCompanion => !s.companion_installed ==> made,
        _ => true,
    }
}

proof fn lemma_step_keeps_cache_ready(name: Seq<char>, s: FlowView, e: FlowEvent, made: bool)
    requires
        cache_ready(s, made),
    ensures
        ({
            let (t, a) = flow_step(name, s, e);
            &&& downloads_follow_cache(a, made)
            &&& cache_ready(t, made || cache_before(a, a.len() as int))
        }),
{
    let (t, a) = flow_step(name, s, e);
    match (s.stage, e) {
        (FlowStage::AwaitCheck, FlowEvent::Checked { codex, companion_installed, runtime_installed }) => {
            if codex is None || !companion_installed || !runtime_installed {
                assert(a[1] is CreateCache);
                assert(cache_before(a, a.len() as int));
                assert forall|j: int| 0 <= j < a.len() && #[trigger] downloads(a[j]) implies made || cache_before(a, j) by {
                    assert(a[1] is CreateCache);
                }
            } else {
                assert forall|j: int| 0 <= j < a.len() implies !downloads(#[trigger] a[j]) by {}
            }
        },
        (FlowStage::AwaitRuntimeCheck, FlowEvent::RuntimeChecked { installed }) => {
            if installed && s.companion_installed {
                assert forall|j: int| 0 <= j < a.len() implies !downloads(#[trigger] a[j]) by {}
            }
        },
        (FlowStage::AwaitRuntime, FlowEvent::RuntimeInstalled) => {
            if s.companion_installed {
                assert forall|j: int| 0 <= j < a.len() implies !downloads(#[trigger] a[j]) by {}
            }
        },
        (FlowStage::AwaitCompanion, FlowEvent::CompanionInstalled) => {
            assert forall|j: int| 0 <= j < a.len() implies !downloads(#[trigger] a[j]) by {}
        },
        _ => {},
    }
}

proof fn lemma_run_keeps_cache_ready(name: Seq<char>, s: FlowView, events: Seq<FlowEvent>, made: bool)
    requires
        cache_ready(s, made),
    ensures
        downloads_follow_cache(run_from(name, s, events).1, made),
    decreases events.len(),
{
    if events.len() > 0 {
        let (t, a) = flow_step(name, s, events[0]);
        let rest = events.drop_first();
        let (u, b) = run_from(name, t, rest);
        let made2 = made || cache_before(a, a.len() as int);
        lemma_step_keeps_cache_ready(name, s, events[0], made);
        lemma_run_keeps_cache_ready(name, t, rest, made2);
        let acts = a + b;
        assert(run_from(name, s, events).1 == acts);
        assert forall|j: int| 0 <= j < acts.len() && #[trigger] downloads(acts[j]) implies made || cache_before(acts, j) by {
            if j < a.len() {
                assert(acts[j] == a[j]);
                if !made {
                    assert(cache_before(a, j));
                    let i = choose|i: int| 0 <= i < j && #[trigger] a[i] is CreateCache;
                    assert(acts[i] == a[i]);
                }
            } else {
                let k = j - a.len();
                assert(acts[j] == b[k]);
                assert(downloads(b[k]));
                if !made {
                    if cache_before(a, a.len() as int) {
                        let i = choose|i: int| 0 <= i < a.len() && #[trigger] a[i] is CreateCache;
                        assert(acts[i] == a[i]);
                    } else {
                        assert(cache_before(b, k));
                        let i = choose|i: int| 0 <= i < k && #[trigger] b[i] is CreateCache;
                        assert(acts[i + a.len()] == b[i]);
                    }
                }
            }
        }
    }
}

/// The check of the computer creates the download folder exactly when
/// something is to be downloaded: Codex is missing, the companion tool is
/// missing, or the Visual C++ runtime is missing.
pub proof fn lemma_check_creates_cache_when_missing(
    name: Seq<char>,
    s: FlowView,
    codex: Option<CodexDesktopInstallation>,
    companion_installed: bool,
    runtime_installed: bool,
)
    requires
        s.stage == FlowStage::AwaitCheck,
    ensures
        ({
            let a = flow_step(name, s, FlowEvent::Checked { codex, companion_installed, runtime_installed }).1;
            cache_before(a, a.len() as int) <==> (codex is None || !companion_installed || !runtime_installed)
        }),
{
    let a = flow_step(name, s, FlowEvent::Checked { codex, companion_installed, runtime_installed }).1;
    if codex is None || !companion_installed || !runtime_installed {
        assert(a[1] is CreateCache);
    } else {
        assert forall|i: int| 0 <= i < a.len() implies !(#[trigger] a[i] is CreateCache) by {}
    }
}

/// A run downloads nothing into a folder that it has not created: from its
/// start, whatever the events, every action that downloads Codex or the
/// companion tool comes after an action that creates the download folder.
pub proof fn lemma_downloads_follow_cache(name: Seq<char>, s: FlowView, events: Seq<FlowEvent>)
    requires
        s.stage == FlowStage::Start,
    ensures
        ({
            let acts = run_from(name, s, events).1;
            forall|j: int| 0 <= j < acts.len() && #[trigger] downloads(acts[j]) ==> cache_before(acts, j)
        }),
{
    lemma_run_keeps_cache_ready(name, s, events, false);
}

} // verus!
