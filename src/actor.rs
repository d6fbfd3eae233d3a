use vstd::prelude::*;
use crate::config::{AMQPSubscriberInfo, SubscriberView};
use crate::forward::{posts_for, send_amqp_data, utf8_text, PostView, WorkflowPost};
use crate::workflow::{
    lemma_add_keeps_targets_unique, lemma_remove_leaves_no_removed_target, no_duplicates,
    add_targets, add_workflows, copy_workflows, remove_targets, remove_workflows, targets,
    WorkflowInfo, WorkflowTarget,
};

verus! {

/// The status reported to the manager.
#[derive(Clone, Copy, Debug, PartialEq, Eq, Structural)]
pub enum TriggerStatus {
    Ready,
    StoppedNormal,
    StoppedError,
}

/// Where the actor is in its life.
#[derive(Clone, Copy, Debug, PartialEq, Eq, Structural)]
pub enum ActorPhase {
    /// The broker session is being set up.
    Starting,
    Ready,
    StoppedNormal,
    StoppedError,
}

/// A request from the manager.
#[derive(Clone, Debug)]
pub enum TriggerCommand {
    GetStatus,
    AddWorkflows(Vec<WorkflowInfo>),
    RemoveWorkflows(Vec<WorkflowInfo>),
    Stop,
}

/// The point-in-time status of a trigger, as answered to `GetStatus`.
#[derive(Clone, Debug)]
pub struct AMQPTriggerStatus {
    pub trigger_name: String,
    pub trigger_status: String,
    pub trigger_type: String,
    pub trigger_id: String,
    pub status_msg: String,
    pub trigger_count: u64,
    pub associated_workflows: Vec<WorkflowInfo>,
    pub trigger_info: AMQPSubscriberInfo,
}

/// Something that happened to the actor.
#[derive(Clone, Debug)]
pub enum ActorEvent {
    /// Connecting, opening the channel, declaring and binding the queue and starting to
    /// consume all succeeded.
    SetupSucceeded,
    /// One of the setup steps failed, with this description.
    SetupFailed(String),
    Command(TriggerCommand),
    /// The manager's side of the command channel is gone.
    CommandChannelClosed,
    /// A delivery arrived on the queue.
    Delivery { routing_key: String, data: Vec<u8> },
    /// The broker reported a malformed delivery, with this description.
    DeliveryFailed(String),
    /// The delivery stream ended: the broker connection was closed or dropped.
    DeliveryStreamEnded,
}

/// What the actor asks its runner to do, in order.
#[derive(Clone, Debug)]
pub enum ActorAction {
    /// Send this status update to the manager.
    ReportStatus(TriggerStatus, String),
    /// Answer the pending command with this status.
    RespondStatus(AMQPTriggerStatus),
    /// Answer the pending command with success and `"ok"`.
    RespondOk,
    /// Close the broker connection.
    CloseConnection,
    /// Post a message to a workflow and wait for it to finish.
    Post(WorkflowPost),
    /// Drop the current delivery: its payload is not valid UTF-8.
    DiscardPayload,
}

pub ghost enum CommandView {
    GetStatus,
    AddWorkflows(Seq<WorkflowTarget>),
    RemoveWorkflows(Seq<WorkflowTarget>),
    Stop,
}

pub ghost enum EventView {
    SetupSucceeded,
    SetupFailed(Seq<char>),
    Command(CommandView),
    CommandChannelClosed,
    Delivery(Seq<char>, Seq<u8>),
    DeliveryFailed(Seq<char>),
    DeliveryStreamEnded,
}

pub ghost struct SnapshotView {
    pub trigger_name: Seq<char>,
    pub trigger_status: Seq<char>,
    pub trigger_type: Seq<char>,
    pub trigger_id: Seq<char>,
    pub status_msg: Seq<char>,
    pub trigger_count: nat,
    pub workflows: Seq<WorkflowTarget>,
    pub info: SubscriberView,
}

pub ghost enum ActionView {
    ReportStatus(TriggerStatus, Seq<char>),
    RespondStatus(SnapshotView),
    RespondOk,
    CloseConnection,
    Post(PostView),
    DiscardPayload,
}

pub ghost struct ActorView {
    pub phase: ActorPhase,
    pub trigger_id: Seq<char>,
    pub trigger_name: Seq<char>,
    pub info: SubscriberView,
    pub workflows: Seq<WorkflowTarget>,
    pub count: nat,
}

impl View for TriggerCommand {
    type V = CommandView;

    open spec fn view(&self) -> CommandView {
        match self {
            TriggerCommand::GetStatus => CommandView::GetStatus,
            TriggerCommand::AddWorkflows(v) => CommandView::AddWorkflows(targets(v@)),
            TriggerCommand::RemoveWorkflows(v) => CommandView::RemoveWorkflows(targets(v@)),
            TriggerCommand::Stop => CommandView::Stop,
        }
    }
}

impl View for ActorEvent {
    type V = EventView;

    open spec fn view(&self) -> EventView {
        match self {
            ActorEvent::SetupSucceeded => EventView::SetupSucceeded,
            ActorEvent::SetupFailed(c) => EventView::SetupFailed(c@),
            ActorEvent::Command(c) => EventView::Command(c@),
            ActorEvent::CommandChannelClosed => EventView::CommandChannelClosed,
            ActorEvent::Delivery { routing_key, data } => EventView::Delivery(routing_key@, data@),
            ActorEvent::DeliveryFailed(c) => EventView::DeliveryFailed(c@),
            ActorEvent::DeliveryStreamEnded => EventView::DeliveryStreamEnded,
        }
    }
}

impl View for AMQPTriggerStatus {
    type V = SnapshotView;

    open spec fn view(&self) -> SnapshotView {
        SnapshotView {
            trigger_name: self.trigger_name@,
            trigger_status: self.trigger_status@,
            trigger_type: self.trigger_type@,
            trigger_id: self.trigger_id@,
            status_msg: self.status_msg@,
            trigger_count: self.trigger_count as nat,
            workflows: targets(self.associated_workflows@),
            info: self.trigger_info@,
        }
    }
}

impl View for ActorAction {
    type V = ActionView;

    open spec fn view(&self) -> ActionView {
        match self {
            ActorAction::ReportStatus(s, m) => ActionView::ReportStatus(*s, m@),
            ActorAction::RespondStatus(s) => ActionView::RespondStatus(s@),
            ActorAction::RespondOk => ActionView::RespondOk,
            ActorAction::CloseConnection => ActionView::CloseConnection,
            ActorAction::Post(p) => ActionView::Post(p@),
            ActorAction::DiscardPayload => ActionView::DiscardPayload,
        }
    }
}

pub open spec fn action_views(v: Seq<ActorAction>) -> Seq<ActionView> {
    v.map_values(|a: ActorAction| a@)
}

pub open spec fn is_stopped(p: ActorPhase) -> bool {
    p == ActorPhase::StoppedNormal || p == ActorPhase::StoppedError
}

/// The count after one more delivery; it stays put at the largest `u64`.
pub open spec fn next_count(c: nat) -> nat {
    if c < u64::MAX {
        c + 1
    } else {
        c
    }
}

pub open spec fn error_report(message: Seq<char>) -> ActionView {
    ActionView::ReportStatus(TriggerStatus::StoppedError, "Error: "@ + message)
}

pub open spec fn closed_channel_message(id: Seq<char>) -> Seq<char> {
    "Trigger id "@ + id + ", None recv on command channel"@
}

pub open spec fn delivery_error_message(id: Seq<char>, cause: Seq<char>) -> Seq<char> {
    "Trigger id "@ + id + ", recv a msg on amqp channel, but unwrapping produced an error: "@
        + cause
}

pub open spec fn stream_ended_message(id: Seq<char>) -> Seq<char> {
    "Trigger id "@ + id + ", None recv on amqp channel. Probably closed"@
}

pub open spec fn snapshot_of(m: ActorView) -> SnapshotView {
    SnapshotView {
        trigger_name: m.trigger_name,
        trigger_status: "ready"@,
        trigger_type: "amqp"@,
        trigger_id: m.trigger_id,
        status_msg: Seq::empty(),
        trigger_count: m.count,
        workflows: m.workflows,
        info: m.info,
    }
}

pub open spec fn post_actions(ps: Seq<PostView>) -> Seq<ActionView> {
    ps.map_values(|p: PostView| ActionView::Post(p))
}

/// The actions for a delivery while ready: nothing without workflows, a discard where the
/// payload is not valid UTF-8, else one post per workflow in registration order.
pub open spec fn delivery_actions(m: ActorView, routing_key: Seq<char>, data: Seq<u8>) -> Seq<ActionView> {
    if m.workflows.len() == 0 {
        Seq::empty()
    } else {
        match utf8_text(data) {
            Some(text) => post_actions(posts_for(m.workflows, m.trigger_name, routing_key, text)),
            None => seq![ActionView::DiscardPayload],
        }
    }
}

pub open spec fn with_phase(m: ActorView, phase: ActorPhase) -> ActorView {
    ActorView { phase, ..m }
}

/// One step of the actor: the state after `e`, and the actions it asks for.
pub open spec fn step(m: ActorView, e: EventView) -> (ActorView, Seq<ActionView>) {
    match m.phase {
        ActorPhase::Starting => match e {
            EventView::SetupSucceeded => (
                with_phase(m, ActorPhase::Ready),
                seq![ActionView::ReportStatus(TriggerStatus::Ready, Seq::empty())],
            ),
            EventView::SetupFailed(cause) => (
                with_phase(m, ActorPhase::StoppedError),
                seq![error_report(cause)],
            ),
            _ => (m, Seq::empty()),
        },
        ActorPhase::Ready => match e {
            EventView::Command(CommandView::GetStatus) => (
                m,
                seq![ActionView::RespondStatus(snapshot_of(m))],
            ),
            EventView::Command(CommandView::AddWorkflows(ts)) => (
                ActorView { workflows: add_targets(m.workflows, ts), ..m },
                seq![ActionView::RespondOk],
            ),
            EventView::Command(CommandView::RemoveWorkflows(ts)) => (
                ActorView { workflows: remove_targets(m.workflows, ts), ..m },
                seq![ActionView::RespondOk],
            ),
            EventView::Command(CommandView::Stop) => (
                with_phase(m, ActorPhase::StoppedNormal),
                seq![
                    ActionView::RespondOk,
                    ActionView::CloseConnection,
                    ActionView::ReportStatus(TriggerStatus::StoppedNormal, Seq::empty()),
                ],
            ),
            EventView::CommandChannelClosed => (
                with_phase(m, ActorPhase::StoppedError),
                seq![error_report(closed_channel_message(m.trigger_id))],
            ),
            EventView::Delivery(routing_key, data) => (
                ActorView { count: next_count(m.count), ..m },
                delivery_actions(m, routing_key, data),
            ),
            EventView::DeliveryFailed(cause) => (
                with_phase(m, ActorPhase::StoppedError),
                seq![error_report(delivery_error_message(m.trigger_id, cause))],
            ),
            EventView::DeliveryStreamEnded => (
                with_phase(m, ActorPhase::StoppedError),
                seq![error_report(stream_ended_message(m.trigger_id))],
            ),
            _ => (m, Seq::empty()),
        },
        _ => (m, Seq::empty()),
    }
}

/// The state after a sequence of events.
pub open spec fn run(m: ActorView, evs: Seq<EventView>) -> ActorView
    decreases evs.len(),
{
    if evs.len() == 0 {
        m
    } else {
        run(step(m, evs[0]).0, evs.drop_first())
    }
}

/// All actions that a sequence of events asks for, in order.
pub open spec fn run_actions(m: ActorView, evs: Seq<EventView>) -> Seq<ActionView>
    decreases evs.len(),
{
    if evs.len() == 0 {
        Seq::empty()
    } else {
        step(m, evs[0]).1 + run_actions(step(m, evs[0]).0, evs.drop_first())
    }
}

/// The state of one trigger's actor: its identity and configuration, its workflow registry
/// and the number of deliveries received.
pub struct TriggerActor {
    trigger_id: String,
    trigger_name: String,
    info: AMQPSubscriberInfo,
    workflows: Vec<WorkflowInfo>,
    trigger_count: u64,
    phase: ActorPhase,
}

impl View for TriggerActor {
    type V = ActorView;

    closed spec fn view(&self) -> ActorView {
        ActorView {
            phase: self.phase,
            trigger_id: self.trigger_id@,
            trigger_name: self.trigger_name@,
            info: self.info@,
            workflows: targets(self.workflows@),
            count: self.trigger_count as nat,
        }
    }
}

fn join3(a: &str, b: &String, c: &str) -> (r: String)
    ensures
        r@ == a@ + b@ + c@,
{
    let mut s = a.to_owned();
    s.append(b.as_str());
    s.append(c);
    s
}

impl TriggerActor {
    /// A fresh actor, before its broker session is set up.
    pub fn new(
        trigger_id: String,
        trigger_name: String,
        info: AMQPSubscriberInfo,
        workflows: Vec<WorkflowInfo>,
    ) -> (r: TriggerActor)
        ensures
            r@ == (ActorView {
                phase: ActorPhase::Starting,
                trigger_id: trigger_id@,
                trigger_name: trigger_name@,
                info: info@,
                workflows: targets(workflows@),
                count: 0,
            }),
    {
        TriggerActor { trigger_id, trigger_name, info, workflows, trigger_count: 0, phase: ActorPhase::Starting }
    }

    pub fn phase(&self) -> (r: ActorPhase)
        ensures
            r == self@.phase,
    {
        self.phase
    }

    pub fn trigger_count(&self) -> (r: u64)
        ensures
            r as nat == self@.count,
    {
        self.trigger_count
    }

    pub fn workflows(&self) -> (r: &Vec<WorkflowInfo>)
        ensures
            targets(r@) == self@.workflows,
    {
        &self.workflows
    }

    pub fn trigger_id(&self) -> (r: &String)
        ensures
            r@ == self@.trigger_id,
    {
        &self.trigger_id
    }

    pub fn info(&self) -> (r: &AMQPSubscriberInfo)
        ensures
            r@ == self@.info,
    {
        &self.info
    }

    /// Whether the actor has reached a terminal state.
    pub fn is_stopped(&self) -> (r: bool)
        ensures
            r == is_stopped(self@.phase),
    {
        self.phase == ActorPhase::StoppedNormal || self.phase == ActorPhase::StoppedError
    }

    /// The status snapshot answered to `GetStatus`.
    pub fn status(&self) -> (r: AMQPTriggerStatus)
        ensures
            r@ == snapshot_of(self@),
    {
        AMQPTriggerStatus {
            trigger_name: self.trigger_name.clone(),
            trigger_status: "ready".to_owned(),
            trigger_type: "amqp".to_owned(),
            trigger_id: self.trigger_id.clone(),
            status_msg: String::new(),
            trigger_count: self.trigger_count,
            associated_workflows: copy_workflows(&self.workflows),
            trigger_info: self.info.duplicate(),
        }
    }

    fn stop_with_error(&mut self, message: String) -> (r: Vec<ActorAction>)
        ensures
            final(self)@ == with_phase(old(self)@, ActorPhase::StoppedError),
            action_views(r@) == seq![error_report(message@)],
    {
        self.phase = ActorPhase::StoppedError;
        let mut text = "Error: ".to_owned();
        text.append(message.as_str());
        let r = vec![ActorAction::ReportStatus(TriggerStatus::StoppedError, text)];
        assert(action_views(r@) =~= seq![error_report(message@)]);
        r
    }

    fn handle_delivery(&mut self, routing_key: String, data: Vec<u8>) -> (r: Vec<ActorAction>)
        requires
            old(self)@.phase == ActorPhase::Ready,
        ensures
            final(self)@ == step(old(self)@, EventView::Delivery(routing_key@, data@)).0,
            action_views(r@) == step(old(self)@, EventView::Delivery(routing_key@, data@)).1,
    {
        self.trigger_count = self.trigger_count.saturating_add(1);
        let mut out: Vec<ActorAction> = Vec::new();
        if self.workflows.len() > 0 {
            match send_amqp_data(&self.workflows, data, &self.trigger_name, &routing_key) {
                Some(posts) => {
                    let ghost ps = crate::forward::post_views(posts@);
                    let mut i: usize = 0;
                    while i < posts.len()
                        invariant
                            i <= posts@.len(),
                            ps == crate::forward::post_views(posts@),
                            action_views(out@) == post_actions(ps.take(i as int)),
                        decreases posts@.len() - i,
                    {
                        let ghost prev = out@;
                        out.push(ActorAction::Post(posts[i].clone_post()));
                        assert(action_views(out@) =~= action_views(prev).push(ActionView::Post(ps[i as int])));
                        assert(post_actions(ps.take(i + 1)) =~= post_actions(ps.take(i as int)).push(
                            ActionView::Post(ps[i as int]),
                        ));
                        i = i + 1;
                    }
                    assert(ps.take(i as int) =~= ps);
                },
                None => {
                    out.push(ActorAction::DiscardPayload);
                    assert(action_views(out@) =~= seq![ActionView::DiscardPayload]);
                },
            }
        } else {
            assert(action_views(out@) =~= Seq::<ActionView>::empty());
        }
        out
    }

    /// Handles one event: updates the actor's state and returns the actions to perform, in
    /// order. Once stopped, the actor ignores every event.
    pub fn handle_event(&mut self, event: ActorEvent) -> (r: Vec<ActorAction>)
        ensures
            final(self)@ == step(old(self)@, event@).0,
            action_views(r@) == step(old(self)@, event@).1,
    {
        let ghost m = self@;
        match self.phase {
            ActorPhase::Starting => match event {
                ActorEvent::SetupSucceeded => {
                    self.phase = ActorPhase::Ready;
                    let r = vec![ActorAction::ReportStatus(TriggerStatus::Ready, String::new())];
                    assert(action_views(r@) =~= step(m, event@).1);
                    r
                },
                ActorEvent::SetupFailed(cause) => self.stop_with_error(cause),
                _ => {
                    let r: Vec<ActorAction> = Vec::new();
                    assert(action_views(r@) =~= step(m, event@).1);
                    r
                },
            },
            ActorPhase::Ready => match event {
                ActorEvent::Command(TriggerCommand::GetStatus) => {
                    let r = vec![ActorAction::RespondStatus(self.status())];
                    assert(action_views(r@) =~= step(m, event@).1);
                    r
                },
                ActorEvent::Command(TriggerCommand::AddWorkflows(ws)) => {
                    add_workflows(&mut self.workflows, &ws);
                    let r = vec![ActorAction::RespondOk];
                    assert(action_views(r@) =~= step(m, event@).1);
                    r
                },
                ActorEvent::Command(TriggerCommand::RemoveWorkflows(ws)) => {
                    remove_workflows(&mut self.workflows, &ws);
                    let r = vec![ActorAction::RespondOk];
                    assert(action_views(r@) =~= step(m, event@).1);
                    r
                },
                ActorEvent::Command(TriggerCommand::Stop) => {
                    self.phase = ActorPhase::StoppedNormal;
                    let r = vec![
                        ActorAction::RespondOk,
                        ActorAction::CloseConnection,
                        ActorAction::ReportStatus(TriggerStatus::StoppedNormal, String::new()),
                    ];
                    assert(action_views(r@) =~= step(m, event@).1);
                    r
                },
                ActorEvent::CommandChannelClosed => {
                    let message = join3("Trigger id ", &self.trigger_id, ", None recv on command channel");
                    self.stop_with_error(message)
                },
                ActorEvent::Delivery { routing_key, data } => self.handle_delivery(routing_key, data),
                ActorEvent::DeliveryFailed(cause) => {
                    let mut message = join3(
                        "Trigger id ",
                        &self.trigger_id,
                        ", recv a msg on amqp channel, but unwrapping produced an error: ",
                    );
                    message.append(cause.as_str());
                    self.stop_with_error(message)
                },
                ActorEvent::DeliveryStreamEnded => {
                    let message = join3(
                        "Trigger id ",
                        &self.trigger_id,
                        ", None recv on amqp channel. Probably closed",
                    );
                    self.stop_with_error(message)
                },
                _ => {
                    let r: Vec<ActorAction> = Vec::new();
                    assert(action_views(r@) =~= step(m, event@).1);
                    r
                },
            },
            _ => {
                let r: Vec<ActorAction> = Vec::new();
                assert(action_views(r@) =~= step(m, event@).1);
                r
            },
        }
    }
}

/// Events after which the actor is stopped, whatever state it was ready in.
pub open spec fn is_terminating(e: EventView) -> bool {
    match e {
        EventView::Command(CommandView::Stop) => true,
        EventView::CommandChannelClosed => true,
        EventView::DeliveryFailed(_) => true,
        EventView::DeliveryStreamEnded => true,
        _ => false,
    }
}

pub open spec fn is_delivery(e: EventView) -> bool {
    e is Delivery
}

/// How many deliveries a sequence of events holds.
pub open spec fn deliveries(evs: Seq<EventView>) -> nat
    decreases evs.len(),
{
    if evs.len() == 0 {
        0
    } else {
        (if is_delivery(evs[0]) {
            1nat
        } else {
            0nat
        }) + deliveries(evs.drop_first())
    }
}

/// A stopped actor stays as it is and asks for nothing, whatever events follow.
pub proof fn lemma_stopped_actor_is_inert(m: ActorView, evs: Seq<EventView>)
    requires
        is_stopped(m.phase),
    ensures
        run(m, evs) == m,
        run_actions(m, evs) == Seq::<ActionView>::empty(),
    decreases evs.len(),
{
    if evs.len() > 0 {
        lemma_stopped_actor_is_inert(m, evs.drop_first());
    }
}

proof fn lemma_run_prepend(m: ActorView, e: EventView, evs: Seq<EventView>)
    ensures
        run(m, seq![e] + evs) == run(step(m, e).0, evs),
        run_actions(m, seq![e] + evs) == step(m, e).1 + run_actions(step(m, e).0, evs),
{
    let all = seq![e] + evs;
    assert(all[0] == e);
    assert(all.drop_first() =~= evs);
}

/// While no event stops it, a ready actor counts every delivery it receives, whether or not
/// its payload decodes, as long as the count stays within `u64`.
pub proof fn lemma_count_tracks_deliveries(m: ActorView, evs: Seq<EventView>)
    requires
        m.phase == ActorPhase::Ready,
        forall|i: int| 0 <= i < evs.len() ==> !is_terminating(#[trigger] evs[i]),
        m.count + deliveries(evs) <= u64::MAX,
    ensures
        run(m, evs).count == m.count + deliveries(evs),
        run(m, evs).phase == ActorPhase::Ready,
    decreases evs.len(),
{
    if evs.len() > 0 {
        let rest = evs.drop_first();
        assert(!is_terminating(evs[0]));
        assert forall|i: int| 0 <= i < rest.len() implies !is_terminating(#[trigger] rest[i]) by {
            assert(rest[i] == evs[i + 1]);
        }
        lemma_count_tracks_deliveries(step(m, evs[0]).0, rest);
    }
}

/// The delivery count never decreases, whatever events come.
pub proof fn lemma_count_never_decreases(m: ActorView, evs: Seq<EventView>)
    ensures
        run(m, evs).count >= m.count,
    decreases evs.len(),
{
    if evs.len() > 0 {
        lemma_count_never_decreases(step(m, evs[0]).0, evs.drop_first());
    }
}

/// `Stop` on a ready actor answers once, closes the connection and reports `StoppedNormal`
/// once; no event after it yields a report or an answer.
pub proof fn lemma_stop_reports_once(m: ActorView, evs: Seq<EventView>)
    requires
        m.phase == ActorPhase::Ready,
    ensures
        run_actions(m, seq![EventView::Command(CommandView::Stop)] + evs) == seq![
            ActionView::RespondOk,
            ActionView::CloseConnection,
            ActionView::ReportStatus(TriggerStatus::StoppedNormal, Seq::empty()),
        ],
        run(m, seq![EventView::Command(CommandView::Stop)] + evs).phase == ActorPhase::StoppedNormal,
{
    let e = EventView::Command(CommandView::Stop);
    lemma_run_prepend(m, e, evs);
    lemma_stopped_actor_is_inert(step(m, e).0, evs);
    assert(step(m, e).1 + Seq::<ActionView>::empty() =~= step(m, e).1);
}

/// A failed setup yields exactly one report, `StoppedError` with the failure's description,
/// and never `Ready`, whatever events follow.
pub proof fn lemma_setup_failure_reports_error_once(
    m: ActorView,
    cause: Seq<char>,
    evs: Seq<EventView>,
)
    requires
        m.phase == ActorPhase::Starting,
    ensures
        run_actions(m, seq![EventView::SetupFailed(cause)] + evs) == seq![error_report(cause)],
        run(m, seq![EventView::SetupFailed(cause)] + evs).phase == ActorPhase::StoppedError,
{
    let e = EventView::SetupFailed(cause);
    lemma_run_prepend(m, e, evs);
    lemma_stopped_actor_is_inert(step(m, e).0, evs);
    assert(step(m, e).1 + Seq::<ActionView>::empty() =~= step(m, e).1);
}

/// A delivery whose payload is not valid UTF-8 is counted and dropped: the actor stays ready
/// with its registry unchanged, posts nothing, and forwards the next valid delivery to every
/// workflow in order.
pub proof fn lemma_invalid_payload_is_dropped(
    m: ActorView,
    key: Seq<char>,
    bad: Seq<u8>,
    next_key: Seq<char>,
    good: Seq<u8>,
)
    requires
        m.phase == ActorPhase::Ready,
        utf8_text(bad) is None,
        utf8_text(good) is Some,
    ensures
        step(m, EventView::Delivery(key, bad)).0 == (ActorView { count: next_count(m.count), ..m }),
        forall|i: int|
            0 <= i < step(m, EventView::Delivery(key, bad)).1.len() ==> !(
            #[trigger] step(m, EventView::Delivery(key, bad)).1[i] is Post),
        step(step(m, EventView::Delivery(key, bad)).0, EventView::Delivery(next_key, good)).1
            == post_actions(posts_for(m.workflows, m.trigger_name, next_key, utf8_text(good)->0)),
{
    let acts = step(m, EventView::Delivery(key, bad)).1;
    if m.workflows.len() == 0 {
        assert(posts_for(m.workflows, m.trigger_name, next_key, utf8_text(good)->0) =~= Seq::<
            PostView,
        >::empty());
        assert(post_actions(Seq::<PostView>::empty()) =~= Seq::<ActionView>::empty());
    } else {
        assert(acts == seq![ActionView::DiscardPayload]);
    }
}

/// On a ready actor whose registry holds no target twice, `AddWorkflows` with distinct targets
/// keeps the registry free of duplicates and puts the added targets last, in their order;
/// `RemoveWorkflows` keeps it free of duplicates and leaves none of the removed targets in it.
pub proof fn lemma_registry_commands_keep_targets_unique(m: ActorView, ts: Seq<WorkflowTarget>)
    requires
        m.phase == ActorPhase::Ready,
        no_duplicates(m.workflows),
    ensures
        no_duplicates(ts) ==> no_duplicates(
            step(m, EventView::Command(CommandView::AddWorkflows(ts))).0.workflows,
        ),
        step(m, EventView::Command(CommandView::AddWorkflows(ts))).0.workflows == add_targets(
            m.workflows,
            ts,
        ),
        no_duplicates(step(m, EventView::Command(CommandView::RemoveWorkflows(ts))).0.workflows),
        forall|k: int|
            0 <= k < ts.len() ==> !step(
                m,
                EventView::Command(CommandView::RemoveWorkflows(ts)),
            ).0.workflows.contains(#[trigger] ts[k]),
{
    if no_duplicates(ts) {
        lemma_add_keeps_targets_unique(m.workflows, ts);
    }
    lemma_remove_leaves_no_removed_target(m.workflows, ts);
}

} // verus!
