//! The deployment controller: a single serialized actor that owns the current
//! configuration, decides what to do with each message from its queue, and
//! sequences the pull, remove, start steps of a deploy.
//!
//! The controller is a state machine. The surrounding process drives it:
//! it hands the controller one [`Input`] at a time (a queue message, or the
//! outcome of the runtime call the controller last asked for) and carries out
//! the [`Action`] the controller returns. Because the driver processes one
//! input at a time, at most one deploy pipeline is ever in flight.

use crate::config::Cfg;
use crate::config::DockerDeployConfig;
use crate::config::MountCfg;
use crate::config::MountConfig;
use crate::config::PortConfig;
use crate::config::mounts_view;
use vstd::prelude::*;
use vstd::string::StringExecFns;

verus! {

/// A file-change notification's kind; only `Modify` causes a config reload.
#[derive(Clone, Copy, Debug, PartialEq, Eq, Structural)]
pub enum FileChangeKind {
    Access,
    Create,
    Modify,
    Remove,
    Other,
}

/// The closed set of messages the controller consumes from its queue.
#[derive(Clone, Copy, Debug, PartialEq, Eq, Structural)]
pub enum Message {
    Poll,
    Trigger,
    Reload(FileChangeKind),
}

/// What the runtime reported for an image pull.
#[derive(Clone, Copy, Debug, PartialEq, Eq, Structural)]
pub enum PullOutcome {
    Pulled,
    Failed,
}

/// What the runtime reported for a forced container removal. `NotFound` is
/// the expected-absent condition: nothing was running.
#[derive(Clone, Copy, Debug, PartialEq, Eq, Structural)]
pub enum RemoveOutcome {
    Removed,
    NotFound,
    Failed,
}

/// What the runtime reported for creating and starting the new container.
#[derive(Clone, Copy, Debug, PartialEq, Eq, Structural)]
pub enum StartOutcome {
    Started,
    Failed,
}

/// What the runtime reported when asked whether the configured container is
/// running: it found it, it did not know it, or the inquiry itself failed.
#[derive(Clone, Copy, Debug, PartialEq, Eq, Structural)]
pub enum InspectOutcome {
    Found,
    NotFound,
    Failed,
}

/// Everything that can arrive at the controller: a message from its queue,
/// the outcome of the runtime call it last asked for, or the result of
/// re-reading the configuration file (`None` when parsing failed).
#[derive(Debug)]
pub enum Input {
    Queue(Message),
    PullDone(PullOutcome),
    RemoveDone(RemoveOutcome),
    StartDone(StartOutcome),
    InspectDone(InspectOutcome),
    ConfigLoaded(Option<DockerDeployConfig>),
}

/// Mathematical image of an [`Input`].
pub enum InputAt {
    Queue(Message),
    PullDone(PullOutcome),
    RemoveDone(RemoveOutcome),
    StartDone(StartOutcome),
    InspectDone(InspectOutcome),
    ConfigLoaded(Option<Cfg>),
}

impl View for Input {
    type V = InputAt;

    open spec fn view(&self) -> InputAt {
        match self {
            Input::Queue(m) => InputAt::Queue(*m),
            Input::PullDone(o) => InputAt::PullDone(*o),
            Input::RemoveDone(o) => InputAt::RemoveDone(*o),
            Input::StartDone(o) => InputAt::StartDone(*o),
            Input::InspectDone(o) => InputAt::InspectDone(*o),
            Input::ConfigLoaded(c) => InputAt::ConfigLoaded(
                match c {
                    Some(cfg) => Some(cfg@),
                    None => None,
                },
            ),
        }
    }
}

/// Everything needed to create and start the new container: its name, the
/// `name:tag` image reference, the command, and the raw port and mount
/// mappings (rendered into runtime form at start time).
#[derive(Debug)]
pub struct RunPlan {
    pub name: String,
    pub image: String,
    pub cmd: Vec<String>,
    pub ports: Vec<PortConfig>,
    pub mounts: Vec<MountConfig>,
}

/// Mathematical image of a [`RunPlan`].
#[verifier::ext_equal]
pub struct RunPlanAt {
    pub name: Seq<char>,
    pub image: Seq<char>,
    pub cmd: Seq<Seq<char>>,
    pub ports: Seq<PortConfig>,
    pub mounts: Seq<MountCfg>,
}

impl View for RunPlan {
    type V = RunPlanAt;

    open spec fn view(&self) -> RunPlanAt {
        RunPlanAt {
            name: self.name@,
            image: self.image@,
            cmd: self.cmd.deep_view(),
            ports: self.ports@,
            mounts: mounts_view(self.mounts@),
        }
    }
}

/// What the controller asks its driver to do next. `Wait` means: nothing,
/// await the next queue message.
#[derive(Debug)]
pub enum Action {
    Wait,
    PullImage { name: String, tag: String },
    RemoveContainer { name: String },
    StartContainer(RunPlan),
    InspectContainer { name: String },
    EnqueueTrigger,
    LoadConfig,
}

/// Mathematical image of an [`Action`].
#[verifier::ext_equal]
pub enum ActionAt {
    Wait,
    PullImage { name: Seq<char>, tag: Seq<char> },
    RemoveContainer { name: Seq<char> },
    StartContainer(RunPlanAt),
    InspectContainer { name: Seq<char> },
    EnqueueTrigger,
    LoadConfig,
}

impl View for Action {
    type V = ActionAt;

    open spec fn view(&self) -> ActionAt {
        match self {
            Action::Wait => ActionAt::Wait,
            Action::PullImage { name, tag } => ActionAt::PullImage { name: name@, tag: tag@ },
            Action::RemoveContainer { name } => ActionAt::RemoveContainer { name: name@ },
            Action::StartContainer(p) => ActionAt::StartContainer(p@),
            Action::InspectContainer { name } => ActionAt::InspectContainer { name: name@ },
            Action::EnqueueTrigger => ActionAt::EnqueueTrigger,
            Action::LoadConfig => ActionAt::LoadConfig,
        }
    }
}

/// Where the controller stands: idle between messages, inside one of the
/// three deploy steps, waiting for a health inspection, or waiting for the
/// re-read configuration.
#[derive(Clone, Copy, Debug, PartialEq, Eq, Structural)]
pub enum Phase {
    Idle,
    Pulling,
    Removing,
    Starting,
    Inspecting,
    Reloading,
}

/// The controller's whole state: the current configuration (of which there is
/// exactly one at any instant) and its phase.
#[derive(Debug)]
pub struct Controller {
    pub cfg: DockerDeployConfig,
    pub phase: Phase,
}

/// Mathematical image of a [`Controller`].
#[verifier::ext_equal]
pub struct ControllerAt {
    pub cfg: Cfg,
    pub phase: Phase,
}

impl View for Controller {
    type V = ControllerAt;

    open spec fn view(&self) -> ControllerAt {
        ControllerAt { cfg: self.cfg@, phase: self.phase }
    }
}

/// The run plan a configuration calls for: the configured container name and
/// command, and the image pulled as `name:tag`.
pub open spec fn spec_plan(cfg: Cfg) -> RunPlanAt {
    RunPlanAt {
        name: cfg.container.name,
        image: cfg.image.name + seq![':'] + cfg.image.tag,
        cmd: cfg.container.command,
        ports: cfg.container.ports,
        mounts: cfg.container.mounts,
    }
}

/// Whether the controller treats a removal outcome as success: a forced
/// remove of an absent container is an idempotent stop, not an error.
pub open spec fn remove_succeeded(o: RemoveOutcome) -> bool {
    o is Removed || o is NotFound
}

/// The controller's transition function. Every behavior of the controller is
/// one of these cases:
///
/// - idle + `Trigger`: begin the deploy pipeline by pulling the image;
/// - idle + `Poll`: ask whether the configured container is running;
/// - idle + `Reload`: re-read the configuration, but only for a `Modify`
///   change; other change kinds are ignored;
/// - pulling: on success remove the old container, on failure give up
///   (the error is logged and swallowed; the next trigger self-heals);
/// - removing: `NotFound` counts as success; any other error aborts;
/// - starting: done either way, warnings and errors are logged only;
/// - inspecting: a missing container enqueues one synthetic `Trigger`
///   through the queue (never deploying directly), anything else does nothing;
/// - reloading: a parsed configuration replaces the held one wholesale; a
///   parse failure keeps the old configuration;
/// - anything else changes nothing.
pub open spec fn spec_step(s: ControllerAt, input: InputAt) -> (ControllerAt, ActionAt) {
    match (s.phase, input) {
        (Phase::Idle, InputAt::Queue(Message::Trigger)) => (
            ControllerAt { phase: Phase::Pulling, ..s },
            ActionAt::PullImage { name: s.cfg.image.name, tag: s.cfg.image.tag },
        ),
        (Phase::Idle, InputAt::Queue(Message::Poll)) => (
            ControllerAt { phase: Phase::Inspecting, ..s },
            ActionAt::InspectContainer { name: s.cfg.container.name },
        ),
        (Phase::Idle, InputAt::Queue(Message::Reload(k))) => if k is Modify {
            (ControllerAt { phase: Phase::Reloading, ..s }, ActionAt::LoadConfig)
        } else {
            (s, ActionAt::Wait)
        },
        (Phase::Pulling, InputAt::PullDone(o)) => if o is Pulled {
            (
                ControllerAt { phase: Phase::Removing, ..s },
                ActionAt::RemoveContainer { name: s.cfg.container.name },
            )
        } else {
            (ControllerAt { phase: Phase::Idle, ..s }, ActionAt::Wait)
        },
        (Phase::Removing, InputAt::RemoveDone(o)) => if remove_succeeded(o) {
            (
                ControllerAt { phase: Phase::Starting, ..s },
                ActionAt::StartContainer(spec_plan(s.cfg)),
            )
        } else {
            (ControllerAt { phase: Phase::Idle, ..s }, ActionAt::Wait)
        },
        (Phase::Starting, InputAt::StartDone(_)) => (
            ControllerAt { phase: Phase::Idle, ..s },
            ActionAt::Wait,
        ),
        (Phase::Inspecting, InputAt::InspectDone(o)) => if o is NotFound {
            (ControllerAt { phase: Phase::Idle, ..s }, ActionAt::EnqueueTrigger)
        } else {
            (ControllerAt { phase: Phase::Idle, ..s }, ActionAt::Wait)
        },
        (Phase::Reloading, InputAt::ConfigLoaded(c)) => match c {
            Some(new_cfg) => (
                ControllerAt { cfg: new_cfg, phase: Phase::Idle },
                ActionAt::Wait,
            ),
            None => (ControllerAt { phase: Phase::Idle, ..s }, ActionAt::Wait),
        },
        _ => (s, ActionAt::Wait),
    }
}

/// The controller's state after it has consumed a whole sequence of inputs,
/// one at a time.
pub open spec fn run_state(s: ControllerAt, inputs: Seq<InputAt>) -> ControllerAt
    decreases inputs.len(),
{
    if inputs.len() == 0 {
        s
    } else {
        run_state(spec_step(s, inputs[0]).0, inputs.skip(1))
    }
}

/// The actions the controller issues while consuming a whole sequence of
/// inputs, in order.
pub open spec fn run_actions(s: ControllerAt, inputs: Seq<InputAt>) -> Seq<ActionAt>
    decreases inputs.len(),
{
    if inputs.len() == 0 {
        Seq::empty()
    } else {
        seq![spec_step(s, inputs[0]).1] + run_actions(spec_step(s, inputs[0]).0, inputs.skip(1))
    }
}

/// Consuming a concatenation of inputs is consuming the first part, then the
/// second from where the first left off.
pub proof fn lemma_run_append(s: ControllerAt, xs: Seq<InputAt>, ys: Seq<InputAt>)
    ensures
        run_state(s, xs + ys) == run_state(run_state(s, xs), ys),
        run_actions(s, xs + ys) == run_actions(s, xs) + run_actions(run_state(s, xs), ys),
    decreases xs.len(),
{
    if xs.len() == 0 {
        assert(xs + ys =~= ys);
        assert(run_actions(s, xs) + run_actions(s, ys) =~= run_actions(s, ys));
    } else {
        let s1 = spec_step(s, xs[0]).0;
        assert((xs + ys)[0] == xs[0]);
        assert((xs + ys).skip(1) =~= xs.skip(1) + ys);
        lemma_run_append(s1, xs.skip(1), ys);
        assert(run_actions(s, xs + ys) =~= run_actions(s, xs) + run_actions(run_state(s, xs), ys));
    }
}

/// The queue message and runtime outcomes of one successful deploy, in the
/// order the controller sees them.
pub open spec fn deploy_cycle() -> Seq<InputAt> {
    seq![
        InputAt::Queue(Message::Trigger),
        InputAt::PullDone(PullOutcome::Pulled),
        InputAt::RemoveDone(RemoveOutcome::Removed),
        InputAt::StartDone(StartOutcome::Started),
    ]
}

/// The actions one successful deploy issues, in order: pull the image, remove
/// the old container forced, create and start the new one, then wait.
pub open spec fn deploy_actions(cfg: Cfg) -> Seq<ActionAt> {
    seq![
        ActionAt::PullImage { name: cfg.image.name, tag: cfg.image.tag },
        ActionAt::RemoveContainer { name: cfg.container.name },
        ActionAt::StartContainer(spec_plan(cfg)),
        ActionAt::Wait,
    ]
}

/// One trigger processed from idle runs the strict pull, remove, start
/// sequence and returns the controller to idle with its configuration kept.
pub proof fn lemma_deploy_cycle(s: ControllerAt)
    requires
        s.phase is Idle,
    ensures
        run_state(s, deploy_cycle()) == s,
        run_actions(s, deploy_cycle()) == deploy_actions(s.cfg),
{
    let c = deploy_cycle();
    let c1 = seq![
        InputAt::PullDone(PullOutcome::Pulled),
        InputAt::RemoveDone(RemoveOutcome::Removed),
        InputAt::StartDone(StartOutcome::Started),
    ];
    let c2 = seq![
        InputAt::RemoveDone(RemoveOutcome::Removed),
        InputAt::StartDone(StartOutcome::Started),
    ];
    let c3 = seq![InputAt::StartDone(StartOutcome::Started)];
    assert(c.skip(1) =~= c1);
    assert(c1.skip(1) =~= c2);
    assert(c2.skip(1) =~= c3);
    assert(c3.skip(1) =~= Seq::<InputAt>::empty());
    let t1 = spec_step(s, c[0]).0;
    let t2 = spec_step(t1, c1[0]).0;
    let t3 = spec_step(t2, c2[0]).0;
    let t4 = spec_step(t3, c3[0]).0;
    assert(run_state(s, c) == run_state(t1, c1));
    assert(run_state(t1, c1) == run_state(t2, c2));
    assert(run_state(t2, c2) == run_state(t3, c3));
    assert(run_state(t3, c3) == run_state(t4, Seq::<InputAt>::empty()));
    assert(t4 =~= s);
    assert(run_actions(s, c) == seq![spec_step(s, c[0]).1] + run_actions(t1, c1));
    assert(run_actions(t1, c1) == seq![spec_step(t1, c1[0]).1] + run_actions(t2, c2));
    assert(run_actions(t2, c2) == seq![spec_step(t2, c2[0]).1] + run_actions(t3, c3));
    assert(run_actions(t3, c3) == seq![spec_step(t3, c3[0]).1] + run_actions(
        t4,
        Seq::<InputAt>::empty(),
    ));
    assert(run_actions(t4, Seq::<InputAt>::empty()) =~= Seq::<ActionAt>::empty());
    assert(run_actions(s, c) =~= deploy_actions(s.cfg));
}

/// `n` copies of a sequence, one after another.
pub open spec fn repeat_seq<T>(s: Seq<T>, n: nat) -> Seq<T>
    decreases n,
{
    if n == 0 {
        Seq::empty()
    } else {
        s + repeat_seq(s, (n - 1) as nat)
    }
}

/// Law (serialization): starting idle, `n` triggers, each with successful
/// outcomes, run exactly `n` full pull, remove, start sequences, strictly one
/// after another, and the controller ends idle with its configuration kept.
pub proof fn lemma_triggers_serialized(s: ControllerAt, n: nat)
    requires
        s.phase is Idle,
    ensures
        run_state(s, repeat_seq(deploy_cycle(), n)) == s,
        run_actions(s, repeat_seq(deploy_cycle(), n)) == repeat_seq(deploy_actions(s.cfg), n),
    decreases n,
{
    if n == 0 {
    } else {
        let n1: nat = (n - 1) as nat;
        lemma_deploy_cycle(s);
        lemma_run_append(s, deploy_cycle(), repeat_seq(deploy_cycle(), n1));
        lemma_triggers_serialized(s, n1);
    }
}

/// How many deploy pipelines a run of actions begins.
pub open spec fn count_pulls(actions: Seq<ActionAt>) -> nat
    decreases actions.len(),
{
    if actions.len() == 0 {
        0
    } else {
        (if actions[0] is PullImage {
            1nat
        } else {
            0nat
        }) + count_pulls(actions.skip(1))
    }
}

/// How many synthetic `Trigger` messages a run of actions enqueues.
pub open spec fn count_enqueued_triggers(actions: Seq<ActionAt>) -> nat
    decreases actions.len(),
{
    if actions.len() == 0 {
        0
    } else {
        (if actions[0] is EnqueueTrigger {
            1nat
        } else {
            0nat
        }) + count_enqueued_triggers(actions.skip(1))
    }
}

pub proof fn lemma_count_pulls_append(xs: Seq<ActionAt>, ys: Seq<ActionAt>)
    ensures
        count_pulls(xs + ys) == count_pulls(xs) + count_pulls(ys),
    decreases xs.len(),
{
    if xs.len() == 0 {
        assert(xs + ys =~= ys);
    } else {
        assert((xs + ys)[0] == xs[0]);
        assert((xs + ys).skip(1) =~= xs.skip(1) + ys);
        lemma_count_pulls_append(xs.skip(1), ys);
    }
}

/// Law (serialization, counted): `n` serialized triggers begin exactly `n`
/// deploy pipelines, no more and no fewer.
pub proof fn lemma_exactly_n_pulls(s: ControllerAt, n: nat)
    requires
        s.phase is Idle,
    ensures
        count_pulls(run_actions(s, repeat_seq(deploy_cycle(), n))) == n,
    decreases n,
{
    lemma_triggers_serialized(s, n);
    lemma_count_pulls_of_repeat(s.cfg, n);
}

proof fn lemma_count_pulls_of_repeat(cfg: Cfg, n: nat)
    ensures
        count_pulls(repeat_seq(deploy_actions(cfg), n)) == n,
    decreases n,
{
    if n == 0 {
    } else {
        let n1: nat = (n - 1) as nat;
        lemma_count_pulls_append(deploy_actions(cfg), repeat_seq(deploy_actions(cfg), n1));
        lemma_count_pulls_of_repeat(cfg, n1);
        lemma_count_pulls_of_deploy(cfg);
    }
}

proof fn lemma_count_pulls_of_deploy(cfg: Cfg)
    ensures
        count_pulls(deploy_actions(cfg)) == 1,
{
    let a = deploy_actions(cfg);
    let a1 = seq![
        ActionAt::RemoveContainer { name: cfg.container.name },
        ActionAt::StartContainer(spec_plan(cfg)),
        ActionAt::Wait,
    ];
    let a2 = seq![ActionAt::StartContainer(spec_plan(cfg)), ActionAt::Wait];
    let a3 = seq![ActionAt::Wait];
    assert(a.skip(1) =~= a1);
    assert(a1.skip(1) =~= a2);
    assert(a2.skip(1) =~= a3);
    assert(a3.skip(1) =~= Seq::<ActionAt>::empty());
    assert(count_pulls(a) == 1 + count_pulls(a1));
    assert(count_pulls(a1) == count_pulls(a2));
    assert(count_pulls(a2) == count_pulls(a3));
    assert(count_pulls(a3) == count_pulls(Seq::<ActionAt>::empty()));
    assert(count_pulls(Seq::<ActionAt>::empty()) == 0);
}

/// Law (no overlap): a deploy pipeline only ever begins from the idle phase,
/// on a `Trigger` message; while one is in flight no second one can start.
pub proof fn lemma_pull_only_from_idle(s: ControllerAt, input: InputAt)
    ensures
        spec_step(s, input).1 is PullImage ==> s.phase is Idle && input == InputAt::Queue(
            Message::Trigger,
        ),
{
}

/// Law (poll reconciliation): a `Poll` processed from idle asks the runtime
/// about the configured container and enqueues exactly one synthetic
/// `Trigger` when it is not found, and none otherwise; it never deploys
/// directly and never changes the configuration.
pub proof fn lemma_poll_reconciliation(s: ControllerAt, o: InspectOutcome)
    requires
        s.phase is Idle,
    ensures
        run_state(s, seq![InputAt::Queue(Message::Poll), InputAt::InspectDone(o)]) == s,
        run_actions(s, seq![InputAt::Queue(Message::Poll), InputAt::InspectDone(o)])[0]
            == (ActionAt::InspectContainer { name: s.cfg.container.name }),
        count_pulls(run_actions(s, seq![InputAt::Queue(Message::Poll), InputAt::InspectDone(o)]))
            == 0,
        count_enqueued_triggers(
            run_actions(s, seq![InputAt::Queue(Message::Poll), InputAt::InspectDone(o)]),
        ) == (if o is NotFound {
            1nat
        } else {
            0nat
        }),
{
    let c = seq![InputAt::Queue(Message::Poll), InputAt::InspectDone(o)];
    let c1 = seq![InputAt::InspectDone(o)];
    assert(c.skip(1) =~= c1);
    assert(c1.skip(1) =~= Seq::<InputAt>::empty());
    let t1 = spec_step(s, c[0]).0;
    let t2 = spec_step(t1, c1[0]).0;
    assert(run_state(s, c) == run_state(t1, c1));
    assert(run_state(t1, c1) == run_state(t2, Seq::<InputAt>::empty()));
    assert(t2 =~= s);
    let a1 = spec_step(s, c[0]).1;
    let a2 = spec_step(t1, c1[0]).1;
    assert(run_actions(s, c) == seq![a1] + run_actions(t1, c1));
    assert(run_actions(t1, c1) == seq![a2] + run_actions(t2, Seq::<InputAt>::empty()));
    assert(run_actions(t2, Seq::<InputAt>::empty()) == Seq::<ActionAt>::empty());
    let acts = seq![a1] + (seq![a2] + Seq::<ActionAt>::empty());
    assert(run_actions(s, c) == acts);
    assert(acts[0] == a1);
    assert(acts.skip(1) =~= seq![a2]);
    assert(seq![a2].skip(1) =~= Seq::<ActionAt>::empty());
    assert(count_pulls(acts) == count_pulls(seq![a2]));
    assert(count_pulls(seq![a2]) == count_pulls(Seq::<ActionAt>::empty()));
    assert(count_enqueued_triggers(acts) == count_enqueued_triggers(seq![a2]));
    assert(count_enqueued_triggers(seq![a2]) == (if o is NotFound {
        1nat
    } else {
        0nat
    }) + count_enqueued_triggers(Seq::<ActionAt>::empty()));
}

/// Abstract model of the runtime's forced remove: afterwards the container is
/// gone; removing an absent one answers `NotFound` rather than an error.
pub open spec fn spec_remove(exists: bool) -> (bool, RemoveOutcome) {
    (false, if exists {
        RemoveOutcome::Removed
    } else {
        RemoveOutcome::NotFound
    })
}

/// Law (idempotent stop): a forced remove succeeds as the pipeline sees it
/// whether or not the container exists; removing twice behaves exactly like
/// removing once, and the pipeline proceeds to the start step either way.
pub proof fn lemma_remove_idempotent(s: ControllerAt, exists: bool)
    requires
        s.phase is Removing,
    ensures
        remove_succeeded(spec_remove(exists).1),
        remove_succeeded(spec_remove(spec_remove(exists).0).1),
        spec_step(s, InputAt::RemoveDone(spec_remove(exists).1)).0.phase is Starting,
        spec_step(s, InputAt::RemoveDone(spec_remove(spec_remove(exists).0).1)).0.phase
            is Starting,
        spec_step(s, InputAt::RemoveDone(spec_remove(exists).1)) == spec_step(
            s,
            InputAt::RemoveDone(spec_remove(spec_remove(exists).0).1),
        ),
{
}

/// Law (reload): a `Modify` file event whose re-read configuration parses
/// replaces the held configuration atomically: the controller is idle again,
/// holds the new value, and the next deploy pulls the new image and starts
/// the new container.
pub proof fn lemma_reload_replaces_config(s: ControllerAt, new_cfg: Cfg)
    requires
        s.phase is Idle,
    ensures
        ({
            let t = run_state(
                s,
                seq![
                    InputAt::Queue(Message::Reload(FileChangeKind::Modify)),
                    InputAt::ConfigLoaded(Some(new_cfg)),
                ],
            );
            &&& t.phase is Idle
            &&& t.cfg == new_cfg
            &&& spec_step(t, InputAt::Queue(Message::Trigger)).1 == (ActionAt::PullImage {
                name: new_cfg.image.name,
                tag: new_cfg.image.tag,
            })
            &&& run_actions(t, deploy_cycle()) == deploy_actions(new_cfg)
        }),
{
    let c = seq![
        InputAt::Queue(Message::Reload(FileChangeKind::Modify)),
        InputAt::ConfigLoaded(Some(new_cfg)),
    ];
    let c1 = seq![InputAt::ConfigLoaded(Some(new_cfg))];
    assert(c.skip(1) =~= c1);
    assert(c1.skip(1) =~= Seq::<InputAt>::empty());
    let t1 = spec_step(s, c[0]).0;
    let t2 = spec_step(t1, c1[0]).0;
    assert(run_state(s, c) == run_state(t1, c1));
    assert(run_state(t1, c1) == run_state(t2, Seq::<InputAt>::empty()));
    assert(run_state(t2, Seq::<InputAt>::empty()) == t2);
    lemma_deploy_cycle(t2);
}

/// Law (reload, failure kept local): a `Modify` event whose re-read
/// configuration does not parse keeps the old configuration; change kinds
/// other than `Modify` never even re-read it.
pub proof fn lemma_reload_keeps_config(s: ControllerAt, k: FileChangeKind)
    requires
        s.phase is Idle,
    ensures
        run_state(
            s,
            seq![
                InputAt::Queue(Message::Reload(FileChangeKind::Modify)),
                InputAt::ConfigLoaded(None),
            ],
        ) == s,
        !(k is Modify) ==> spec_step(s, InputAt::Queue(Message::Reload(k))).0 == s
            && spec_step(s, InputAt::Queue(Message::Reload(k))).1 is Wait,
{
    let c = seq![
        InputAt::Queue(Message::Reload(FileChangeKind::Modify)),
        InputAt::ConfigLoaded(None),
    ];
    let c1 = seq![InputAt::ConfigLoaded(None)];
    assert(c.skip(1) =~= c1);
    assert(c1.skip(1) =~= Seq::<InputAt>::empty());
    let t1 = spec_step(s, c[0]).0;
    let t2 = spec_step(t1, c1[0]).0;
    assert(run_state(s, c) == run_state(t1, c1));
    assert(run_state(t1, c1) == run_state(t2, Seq::<InputAt>::empty()));
    assert(run_state(t2, Seq::<InputAt>::empty()) == t2);
    assert(t2 =~= s);
}

/// Clone a command list, keeping every element.
fn clone_strings(v: &Vec<String>) -> (r: Vec<String>)
    ensures
        r@ == v@,
{
    let mut r: Vec<String> = Vec::new();
    let mut i: usize = 0;
    while i < v.len()
        invariant
            i <= v@.len(),
            r@.len() == i,
            forall|j: int| 0 <= j < i ==> r@[j] == v@[j],
        decreases v@.len() - i,
    {
        r.push(v[i].clone());
        i += 1;
    }
    proof {
        assert(r@ =~= v@);
    }
    r
}

/// Clone a port mapping list, keeping every element.
fn clone_ports(v: &Vec<PortConfig>) -> (r: Vec<PortConfig>)
    ensures
        r@ == v@,
{
    let mut r: Vec<PortConfig> = Vec::new();
    let mut i: usize = 0;
    while i < v.len()
        invariant
            i <= v@.len(),
            r@.len() == i,
            forall|j: int| 0 <= j < i ==> r@[j] == v@[j],
        decreases v@.len() - i,
    {
        r.push(v[i]);
        i += 1;
    }
    proof {
        assert(r@ =~= v@);
    }
    r
}

/// Clone a mount mapping list, keeping every element.
fn clone_mounts(v: &Vec<MountConfig>) -> (r: Vec<MountConfig>)
    ensures
        r@ == v@,
{
    let mut r: Vec<MountConfig> = Vec::new();
    let mut i: usize = 0;
    while i < v.len()
        invariant
            i <= v@.len(),
            r@.len() == i,
            forall|j: int| 0 <= j < i ==> r@[j] == v@[j],
        decreases v@.len() - i,
    {
        let m = MountConfig { host: v[i].host.clone(), target: v[i].target.clone() };
        r.push(m);
        i += 1;
    }
    proof {
        assert(r@ =~= v@);
    }
    r
}

/// Build the run plan the given configuration calls for.
pub fn run_plan(cfg: &DockerDeployConfig) -> (p: RunPlan)
    ensures
        p@ == spec_plan(cfg@),
{
    let image = cfg.image.name.clone().concat(":").concat(cfg.image.tag.as_str());
    let p = RunPlan {
        name: cfg.container.name.clone(),
        image,
        cmd: clone_strings(&cfg.container.command),
        ports: clone_ports(&cfg.container.ports),
        mounts: clone_mounts(&cfg.container.mounts),
    };
    proof {
        reveal_strlit(":");
        assert(":"@ =~= seq![':']);
        assert(p@.image =~= spec_plan(cfg@).image);
        assert(p@ =~= spec_plan(cfg@));
    }
    p
}

impl Controller {
    /// Create a controller around its initial configuration; it starts idle.
    pub fn new(cfg: DockerDeployConfig) -> (c: Controller)
        ensures
            c@ == (ControllerAt { cfg: cfg@, phase: Phase::Idle }),
    {
        Controller { cfg, phase: Phase::Idle }
    }

    /// Process one input and say what to do next. The whole behavior is
    /// [`spec_step`].
    pub fn step(&mut self, input: Input) -> (a: Action)
        ensures
            final(self)@ == spec_step(old(self)@, input@).0,
            a@ == spec_step(old(self)@, input@).1,
    {
        match (self.phase, input) {
            (Phase::Idle, Input::Queue(Message::Trigger)) => {
                self.phase = Phase::Pulling;
                Action::PullImage {
                    name: self.cfg.image.name.clone(),
                    tag: self.cfg.image.tag.clone(),
                }
            },
            (Phase::Idle, Input::Queue(Message::Poll)) => {
                self.phase = Phase::Inspecting;
                Action::InspectContainer { name: self.cfg.container.name.clone() }
            },
            (Phase::Idle, Input::Queue(Message::Reload(k))) => {
                if k == FileChangeKind::Modify {
                    self.phase = Phase::Reloading;
                    Action::LoadConfig
                } else {
                    Action::Wait
                }
            },
            (Phase::Pulling, Input::PullDone(o)) => {
                if o == PullOutcome::Pulled {
                    self.phase = Phase::Removing;
                    Action::RemoveContainer { name: self.cfg.container.name.clone() }
                } else {
                    self.phase = Phase::Idle;
                    Action::Wait
                }
            },
            (Phase::Removing, Input::RemoveDone(o)) => {
                if o == RemoveOutcome::Failed {
                    self.phase = Phase::Idle;
                    Action::Wait
                } else {
                    self.phase = Phase::Starting;
                    Action::StartContainer(run_plan(&self.cfg))
                }
            },
            (Phase::Starting, Input::StartDone(_)) => {
                self.phase = Phase::Idle;
                Action::Wait
            },
            (Phase::Inspecting, Input::InspectDone(o)) => {
                self.phase = Phase::Idle;
                if o == InspectOutcome::NotFound {
                    Action::EnqueueTrigger
                } else {
                    Action::Wait
                }
            },
            (Phase::Reloading, Input::ConfigLoaded(c)) => {
                self.phase = Phase::Idle;
                match c {
                    Some(new_cfg) => {
                        self.cfg = new_cfg;
                        Action::Wait
                    },
                    None => Action::Wait,
                }
            },
            _ => Action::Wait,
        }
    }
}

} // verus!
