//! The update command as a state machine.
//!
//! Updating stops the running `dsh web` first (a running server keeps its
//! files busy on Windows), installs the new package, and reports progress by
//! phase. An install failure would leave the user with a dead service, so
//! the previous installation is relaunched before the error is reported.
//!
//! [`update_dsh_step`] takes the current stage and what just happened, and
//! returns the next stage and the steps for the caller to perform, in order.

use vstd::prelude::*;

use crate::text::push_str;
use crate::update::UpdateInfo;

verus! {

/// A progress event for the UI's progress bar.
pub struct UpdateProgress {
    pub phase: String,
    pub percent: u8,
    pub message: String,
}

/// Something the caller does, in order.
pub enum UpdateStep {
    /// Report progress to the UI.
    Emit(UpdateProgress),
    /// Stop the running `dsh web` server.
    StopServer,
    /// Install the latest package (`install_update`).
    InstallUpdate,
    /// Restart the service (stop, then start).
    RestartService,
    /// End the command with this result.
    Finish(Result<String, String>),
}

/// What the caller reports back.
pub enum UpdateEvent {
    /// The outcome of the update check.
    Checked(Result<UpdateInfo, String>),
    /// The outcome of the installation.
    Installed(Result<(), String>),
    /// The outcome of the restart after a failed installation.
    Restarted(Result<(), String>),
}

/// Where the update is.
pub enum UpdateStage {
    /// Waiting for the update check.
    Checking,
    /// Waiting for the installation of `new` over `old`.
    Installing { old: String, new: String },
    /// Waiting for the restart after the installation failed with `error`.
    Recovering { error: String },
    /// The command has ended.
    Finished,
}

/// An update in progress.
pub struct UpdateFlow {
    pub stage: UpdateStage,
}

/// The abstract form of a step.
pub enum StepView {
    Emit(Seq<char>, u8, Seq<char>),
    StopServer,
    InstallUpdate,
    RestartService,
    Finish(Result<Seq<char>, Seq<char>>),
}

/// The abstract form of an event; the check carries
/// `(current, latest, outdated)`.
pub enum EventView {
    Checked(Result<(Option<Seq<char>>, Seq<char>, bool), Seq<char>>),
    Installed(Result<(), Seq<char>>),
    Restarted(Result<(), Seq<char>>),
}

/// The abstract form of a stage.
pub enum StageView {
    Checking,
    Installing(Seq<char>, Seq<char>),
    Recovering(Seq<char>),
    Finished,
}

impl View for UpdateStep {
    type V = StepView;

    open spec fn view(&self) -> StepView {
        match self {
            UpdateStep::Emit(p) => StepView::Emit(p.phase@, p.percent, p.message@),
            UpdateStep::StopServer => StepView::StopServer,
            UpdateStep::InstallUpdate => StepView::InstallUpdate,
            UpdateStep::RestartService => StepView::RestartService,
            UpdateStep::Finish(r) => StepView::Finish(
                match r {
                    Ok(s) => Ok(s@),
                    Err(e) => Err(e@),
                },
            ),
        }
    }
}

impl View for UpdateEvent {
    type V = EventView;

    open spec fn view(&self) -> EventView {
        match self {
            UpdateEvent::Checked(r) => EventView::Checked(
                match r {
                    Ok(i) => Ok((i.current.deep_view(), i.latest@, i.outdated)),
                    Err(e) => Err(e@),
                },
            ),
            UpdateEvent::Installed(r) => EventView::Installed(
                match r {
                    Ok(_) => Ok(()),
                    Err(e) => Err(e@),
                },
            ),
            UpdateEvent::Restarted(r) => EventView::Restarted(
                match r {
                    Ok(_) => Ok(()),
                    Err(e) => Err(e@),
                },
            ),
        }
    }
}

impl View for UpdateStage {
    type V = StageView;

    open spec fn view(&self) -> StageView {
        match self {
            UpdateStage::Checking => StageView::Checking,
            UpdateStage::Installing { old, new } => StageView::Installing(old@, new@),
            UpdateStage::Recovering { error } => StageView::Recovering(error@),
            UpdateStage::Finished => StageView::Finished,
        }
    }
}

/// The abstract forms of a list of steps.
pub open spec fn steps_view(steps: Seq<UpdateStep>) -> Seq<StepView> {
    steps.map_values(|s: UpdateStep| s@)
}

/// The update command's transition: the next stage and the steps to
/// perform. An event that does not belong to the stage changes nothing.
pub open spec fn update_transition(stage: StageView, event: EventView) -> (StageView, Seq<StepView>) {
    match (stage, event) {
        (StageView::Checking, EventView::Checked(Err(e))) => (
            StageView::Finished,
            seq![StepView::Finish(Err(e))],
        ),
        (StageView::Checking, EventView::Checked(Ok((current, latest, outdated)))) => if !outdated {
            (StageView::Finished, seq![StepView::Finish(Ok("已是最新 v"@ + latest))])
        } else {
            let old = match current {
                Some(c) => c,
                None => "?"@,
            };
            (
                StageView::Installing(old, latest),
                seq![
                    StepView::Emit("stopping"@, 15, "正在停止 DeepSeek Harness 服务…"@),
                    StepView::StopServer,
                    StepView::Emit("installing"@, 40, "正在下载并安装 v"@ + latest + " …"@),
                    StepView::InstallUpdate,
                ],
            )
        },
        (StageView::Installing(old, new), EventView::Installed(Ok(()))) => (
            StageView::Finished,
            seq![
                StepView::Emit("done"@, 100, "安装完成，请重启服务生效"@),
                StepView::Finish(Ok("v"@ + old + " → v"@ + new + " 更新完成"@)),
            ],
        ),
        (StageView::Installing(old, new), EventView::Installed(Err(e))) => (
            StageView::Recovering(e),
            seq![
                StepView::Emit("recovering"@, 30, "安装失败，正在恢复服务…"@),
                StepView::RestartService,
            ],
        ),
        (StageView::Recovering(e), EventView::Restarted(Ok(()))) => (
            StageView::Finished,
            seq![
                StepView::Emit("error"@, 0, "更新失败："@ + e + "。已恢复原服务。"@),
                StepView::Finish(Err(e)),
            ],
        ),
        (StageView::Recovering(e), EventView::Restarted(Err(re))) => (
            StageView::Finished,
            seq![
                StepView::Emit("error"@, 0, "更新失败："@ + e + "；服务恢复也失败："@ + re),
                StepView::Finish(Err(e)),
            ],
        ),
        _ => (stage, Seq::empty()),
    }
}

impl UpdateFlow {
    /// An update that waits for its version check.
    pub fn new() -> (f: UpdateFlow)
        ensures
            f.stage@ == StageView::Checking,
    {
        UpdateFlow { stage: UpdateStage::Checking }
    }
}

fn emit(phase: &str, percent: u8, message: String) -> (s: UpdateStep)
    ensures
        s@ == StepView::Emit(phase@, percent, message@),
{
    UpdateStep::Emit(UpdateProgress { phase: String::from_str(phase), percent, message })
}

fn push_step(steps: &mut Vec<UpdateStep>, s: UpdateStep)
    ensures
        steps_view(final(steps)@) == steps_view(old(steps)@).push(s@),
{
    steps.push(s);
    assert(steps_view(final(steps)@) =~= steps_view(old(steps)@).push(s@));
}

/// Advance the update command by one event; returns the steps to perform,
/// in order.
pub fn update_dsh_step(flow: &mut UpdateFlow, event: UpdateEvent) -> (steps: Vec<UpdateStep>)
    ensures
        (final(flow).stage@, steps_view(steps@)) == update_transition(old(flow).stage@, event@),
{
    let mut steps: Vec<UpdateStep> = Vec::new();
    let ghost start = old(flow).stage@;
    let mut stage: UpdateStage = UpdateStage::Finished;
    std::mem::swap(&mut stage, &mut flow.stage);
    match (stage, event) {
        (UpdateStage::Checking, UpdateEvent::Checked(Err(e))) => {
            push_step(&mut steps, UpdateStep::Finish(Err(e)));
        },
        (UpdateStage::Checking, UpdateEvent::Checked(Ok(info))) => {
            if !info.outdated {
                let mut m: String = String::from_str("已是最新 v");
                push_str(&mut m, info.latest.as_str());
                push_step(&mut steps, UpdateStep::Finish(Ok(m)));
            } else {
                let old: String = match info.current {
                    Some(c) => c,
                    None => String::from_str("?"),
                };
                let new: String = info.latest;
                push_step(
                    &mut steps,
                    emit("stopping", 15, String::from_str("正在停止 DeepSeek Harness 服务…")),
                );
                push_step(&mut steps, UpdateStep::StopServer);
                let mut m: String = String::from_str("正在下载并安装 v");
                push_str(&mut m, new.as_str());
                push_str(&mut m, " …");
                push_step(&mut steps, emit("installing", 40, m));
                push_step(&mut steps, UpdateStep::InstallUpdate);
                flow.stage = UpdateStage::Installing { old, new };
            }
        },
        (UpdateStage::Installing { old, new }, UpdateEvent::Installed(Ok(()))) => {
            push_step(&mut steps, emit("done", 100, String::from_str("安装完成，请重启服务生效")));
            let mut m: String = String::from_str("v");
            push_str(&mut m, old.as_str());
            push_str(&mut m, " → v");
            push_str(&mut m, new.as_str());
            push_str(&mut m, " 更新完成");
            push_step(&mut steps, UpdateStep::Finish(Ok(m)));
        },
        (UpdateStage::Installing { old, new }, UpdateEvent::Installed(Err(e))) => {
            push_step(&mut steps, emit("recovering", 30, String::from_str("安装失败，正在恢复服务…")));
            push_step(&mut steps, UpdateStep::RestartService);
            flow.stage = UpdateStage::Recovering { error: e };
        },
        (UpdateStage::Recovering { error }, UpdateEvent::Restarted(Ok(()))) => {
            let mut m: String = String::from_str("更新失败：");
            push_str(&mut m, error.as_str());
            push_str(&mut m, "。已恢复原服务。");
            push_step(&mut steps, emit("error", 0, m));
            push_step(&mut steps, UpdateStep::Finish(Err(error)));
        },
        (UpdateStage::Recovering { error }, UpdateEvent::Restarted(Err(re))) => {
            let mut m: String = String::from_str("更新失败：");
            push_str(&mut m, error.as_str());
            push_str(&mut m, "；服务恢复也失败：");
            push_str(&mut m, re.as_str());
            push_step(&mut steps, emit("error", 0, m));
            push_step(&mut steps, UpdateStep::Finish(Err(error)));
        },
        (other, _) => {
            flow.stage = other;
        },
    }
    assert(steps_view(steps@) =~= update_transition(start, event@).1);
    steps
}

// ---------------------------------------------------------------------------
// Laws
// ---------------------------------------------------------------------------

/// The server is always stopped before the package is installed: in every
/// transition, an install step comes after a stop step.
pub proof fn lemma_stop_before_install(stage: StageView, event: EventView)
    ensures
        forall|i: int|
            0 <= i < update_transition(stage, event).1.len()
                && #[trigger] update_transition(stage, event).1[i] == StepView::InstallUpdate
                ==> exists|j: int| 0 <= j < i && update_transition(stage, event).1[j] == StepView::StopServer,
{
    let steps = update_transition(stage, event).1;
    assert forall|i: int|
        0 <= i < steps.len() && #[trigger] steps[i] == StepView::InstallUpdate implies exists|j: int|
        0 <= j < i && steps[j] == StepView::StopServer by {
        // Only the outdated check issues an install, as its last step, with
        // the stop two steps before.
        assert(steps[1] == StepView::StopServer);
    }
}

/// An up-to-date installation is left alone: the command ends at once,
/// without stopping, installing or restarting anything.
pub proof fn lemma_up_to_date_does_nothing(current: Option<Seq<char>>, latest: Seq<char>)
    ensures
        update_transition(StageView::Checking, EventView::Checked(Ok((current, latest, false))))
            == (StageView::Finished, seq![StepView::Finish(Ok("已是最新 v"@ + latest))]),
{
}

/// A failed installation is never reported before the service is
/// restored: the failure leads to a restart, and only the outcome of that
/// restart ends the command, with the installation's error whatever the
/// restart gave.
pub proof fn lemma_failed_install_restarts_first(
    old: Seq<char>,
    new: Seq<char>,
    error: Seq<char>,
    restart: Result<(), Seq<char>>,
)
    ensures
        update_transition(StageView::Installing(old, new), EventView::Installed(Err(error))).0
            == StageView::Recovering(error),
        update_transition(StageView::Installing(old, new), EventView::Installed(Err(error))).1.last()
            == StepView::RestartService,
        update_transition(StageView::Recovering(error), EventView::Restarted(restart)).0
            == StageView::Finished,
        update_transition(StageView::Recovering(error), EventView::Restarted(restart)).1.last()
            == StepView::Finish(Err(error)),
{
}

/// The command ends exactly once: a finished update ignores every event.
pub proof fn lemma_finished_is_final(event: EventView)
    ensures
        update_transition(StageView::Finished, event) == (StageView::Finished, Seq::<StepView>::empty()),
{
}

/// The event that answers a stage: the check at `Checking`, the
/// installation at `Installing`, the restart at `Recovering`.
pub open spec fn answers(stage: StageView, event: EventView) -> bool {
    match (stage, event) {
        (StageView::Checking, EventView::Checked(_)) => true,
        (StageView::Installing(_, _), EventView::Installed(_)) => true,
        (StageView::Recovering(_), EventView::Restarted(_)) => true,
        _ => false,
    }
}

/// The command always moves on: an event that answers its stage yields
/// steps that end either with the result or with the one action whose
/// outcome answers the next stage (install at `Installing`, restart at
/// `Recovering`).
pub proof fn lemma_answered_stage_moves_on(stage: StageView, event: EventView)
    requires
        answers(stage, event),
    ensures
        update_transition(stage, event).1.len() > 0,
        update_transition(stage, event).1.last() is Finish
            <==> update_transition(stage, event).0 == StageView::Finished,
        update_transition(stage, event).0 matches StageView::Installing(_, _)
            ==> update_transition(stage, event).1.last() == StepView::InstallUpdate,
        update_transition(stage, event).0 matches StageView::Recovering(_)
            ==> update_transition(stage, event).1.last() == StepView::RestartService,
        update_transition(stage, event).0 != StageView::Checking,
{
}

} // verus!
