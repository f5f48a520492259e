//! The relay between the publish/subscribe channel and the local player.
//!
//! The relay is a state machine that performs no input or output itself.
//! Whoever drives it owns the broker connection and the player bus, and runs
//! the two workers: the send worker asks `next_send` what to publish and
//! reports back with `publish_finished`; the receive worker hands every
//! inbound event to `on_event` and carries out the action it gets.

use crate::player_cmd::PlayerCmd;
use crate::transport::{
    announce, announcement, react, reaction, FatalError, InboundEvent, InboundView, Publication,
    PublicationView, RecvAction, SessionPlan, StartError,
};
use std::collections::VecDeque;
use vstd::prelude::*;

verus! {

/// The outgoing queue no longer takes commands.
#[derive(Copy, Clone, Debug, PartialEq, Eq, Structural)]
pub struct QueueClosed;

/// Where the send worker stands.
#[derive(Copy, Clone, Debug, PartialEq, Eq, Structural)]
pub enum SendState {
    /// Waiting on the outgoing queue.
    Idle,
    /// One publish is in flight.
    Publishing,
    /// The queue is closed and empty; the worker has exited.
    Drained,
}

/// Where the receive worker stands.
#[derive(Copy, Clone, Debug, PartialEq, Eq, Structural)]
pub enum RecvState {
    /// Waiting on the inbound stream.
    Listening,
    /// Stopped by a fatal error; the worker has exited.
    Terminated(FatalError),
}

/// What the send worker is to do next.
#[derive(Debug)]
pub enum SendStep {
    /// Publish this message, then report with `publish_finished`.
    Publish(Publication),
    /// Nothing to publish now; ask again when the relay has changed.
    Wait,
    /// The queue is closed and empty: the worker exits.
    Exit,
}

/// A `SendStep` as plain values.
pub enum SendStepView {
    Publish(PublicationView),
    Wait,
    Exit,
}

impl View for SendStep {
    type V = SendStepView;

    open spec fn view(&self) -> SendStepView {
        match self {
            SendStep::Publish(publication) => SendStepView::Publish(publication@),
            SendStep::Wait => SendStepView::Wait,
            SendStep::Exit => SendStepView::Exit,
        }
    }
}

/// The state of a relay session as plain values.
pub struct RelayState {
    /// The topic commands are published on and accepted from.
    pub channel: Seq<char>,
    /// The identity of the local player commands are dispatched to.
    pub player: Seq<char>,
    /// The commands accepted and not yet handed to the transport, oldest first.
    pub pending: Seq<PlayerCmd>,
    /// Whether the outgoing queue still takes commands.
    pub accepting: bool,
    pub sender: SendState,
    pub receiver: RecvState,
}

impl RelayState {
    /// A send worker that has exited leaves a queue that is closed and empty.
    pub open spec fn wf(self) -> bool {
        self.sender is Drained ==> !self.accepting && self.pending.len() == 0
    }

    /// The state of a session that has just started: nothing queued, both
    /// workers running.
    pub open spec fn started(channel: Seq<char>, player: Seq<char>) -> RelayState {
        RelayState {
            channel,
            player,
            pending: Seq::empty(),
            accepting: true,
            sender: SendState::Idle,
            receiver: RecvState::Listening,
        }
    }

    /// The state after `cmd` was offered to the outgoing queue: appended
    /// behind everything pending while the queue takes commands, and
    /// otherwise no change.
    pub open spec fn enqueue(self, cmd: PlayerCmd) -> RelayState {
        if self.accepting {
            RelayState { pending: self.pending.push(cmd), ..self }
        } else {
            self
        }
    }

    /// The state after the caller asked to join: the outgoing queue is closed.
    pub open spec fn join_requested(self) -> RelayState {
        RelayState { accepting: false, ..self }
    }

    /// One poll of the send worker: the state after it, and what the worker
    /// is to do.
    ///
    /// An idle worker takes the oldest pending command and publishes it. With
    /// nothing pending it waits while the queue is open, and exits once the
    /// queue is closed.
    pub open spec fn send_step(self) -> (RelayState, SendStepView) {
        match self.sender {
            SendState::Idle => {
                if self.pending.len() > 0 {
                    (
                        RelayState {
                            pending: self.pending.drop_first(),
                            sender: SendState::Publishing,
                            ..self
                        },
                        SendStepView::Publish(announcement(self.channel, self.pending[0])),
                    )
                } else if self.accepting {
                    (self, SendStepView::Wait)
                } else {
                    (RelayState { sender: SendState::Drained, ..self }, SendStepView::Exit)
                }
            },
            SendState::Publishing => (self, SendStepView::Wait),
            SendState::Drained => (self, SendStepView::Exit),
        }
    }

    /// The state after the publish in flight returned. The result of the
    /// publish makes no difference: the worker is idle again, and the command
    /// is not queued a second time.
    pub open spec fn publish_finished(self) -> RelayState {
        if self.sender is Publishing {
            RelayState { sender: SendState::Idle, ..self }
        } else {
            self
        }
    }

    /// One inbound event: the state after it, and what the receive worker is
    /// to do.
    ///
    /// A listening worker reacts as `reaction` says and stops on a closed
    /// connection. A worker that has stopped ignores everything.
    pub open spec fn receive(self, event: InboundView) -> (RelayState, RecvAction) {
        match self.receiver {
            RecvState::Listening => {
                let action = reaction(self.channel, event);
                if action is Terminate {
                    (
                        RelayState {
                            receiver: RecvState::Terminated(FatalError::ConnectionClosed),
                            ..self
                        },
                        action,
                    )
                } else {
                    (self, action)
                }
            },
            RecvState::Terminated(_) => (self, RecvAction::Ignore),
        }
    }

    /// What a join finds: nothing while a worker still runs, and once both
    /// have exited the fatal error that stopped the receive worker.
    pub open spec fn join_result(self) -> Option<FatalError> {
        match self.receiver {
            RecvState::Terminated(fatal) if self.sender is Drained => Some(fatal),
            _ => None,
        }
    }
}

/// One thing that happens to a session.
pub enum RelayOp {
    /// The caller offers a command to the outgoing queue.
    Enqueue(PlayerCmd),
    /// The caller asks to join.
    Join,
    /// The send worker polls for its next step.
    Poll,
    /// The publish in flight returns, with whatever result.
    Finished,
    /// The inbound stream delivers an event.
    Event(InboundView),
}

/// The messages that carry `cmds` on `channel`, in the order of `cmds`.
pub open spec fn announcements(channel: Seq<char>, cmds: Seq<PlayerCmd>) -> Seq<PublicationView> {
    Seq::new(cmds.len(), |i: int| announcement(channel, cmds[i]))
}

/// The messages for one run of commands followed by another are the messages
/// for the first followed by the messages for the second.
pub proof fn lemma_announcements_concat(
    channel: Seq<char>,
    first: Seq<PlayerCmd>,
    second: Seq<PlayerCmd>,
)
    ensures
        announcements(channel, first + second) == announcements(channel, first) + announcements(
            channel,
            second,
        ),
{
    assert(announcements(channel, first + second) =~= announcements(channel, first)
        + announcements(channel, second));
}

/// The caller offering each of `cmds` in turn.
pub open spec fn enqueue_ops(cmds: Seq<PlayerCmd>) -> Seq<RelayOp> {
    Seq::new(cmds.len(), |i: int| RelayOp::Enqueue(cmds[i]))
}

/// `rounds` rounds of the send worker: a poll, then the return of the publish.
pub open spec fn drain_ops(rounds: nat) -> Seq<RelayOp>
    decreases rounds,
{
    if rounds == 0 {
        Seq::empty()
    } else {
        drain_ops((rounds - 1) as nat).push(RelayOp::Poll).push(RelayOp::Finished)
    }
}

impl RelayState {
    /// The state after `op`.
    pub open spec fn step(self, op: RelayOp) -> RelayState {
        match op {
            RelayOp::Enqueue(cmd) => self.enqueue(cmd),
            RelayOp::Join => self.join_requested(),
            RelayOp::Poll => self.send_step().0,
            RelayOp::Finished => self.publish_finished(),
            RelayOp::Event(event) => self.receive(event).0,
        }
    }

    /// What `op` hands to the transport for publishing.
    pub open spec fn output(self, op: RelayOp) -> Seq<PublicationView> {
        match op {
            RelayOp::Poll => match self.send_step().1 {
                SendStepView::Publish(publication) => seq![publication],
                _ => Seq::empty(),
            },
            _ => Seq::empty(),
        }
    }

    /// What `op` adds to the outgoing queue.
    pub open spec fn intake(self, op: RelayOp) -> Seq<PlayerCmd> {
        match op {
            RelayOp::Enqueue(cmd) if self.accepting => seq![cmd],
            _ => Seq::empty(),
        }
    }

    /// The state after `ops`, taken in order.
    pub open spec fn run(self, ops: Seq<RelayOp>) -> RelayState
        decreases ops.len(),
    {
        if ops.len() == 0 {
            self
        } else {
            self.run(ops.drop_last()).step(ops.last())
        }
    }

    /// Everything handed to the transport for publishing over `ops`, in the
    /// order in which it was handed over.
    pub open spec fn published(self, ops: Seq<RelayOp>) -> Seq<PublicationView>
        decreases ops.len(),
    {
        if ops.len() == 0 {
            Seq::empty()
        } else {
            self.published(ops.drop_last()) + self.run(ops.drop_last()).output(ops.last())
        }
    }

    /// Every command the outgoing queue took over `ops`, in the order in
    /// which it took them.
    pub open spec fn accepted(self, ops: Seq<RelayOp>) -> Seq<PlayerCmd>
        decreases ops.len(),
    {
        if ops.len() == 0 {
            Seq::empty()
        } else {
            self.accepted(ops.drop_last()) + self.run(ops.drop_last()).intake(ops.last())
        }
    }

    /// A session starts well formed.
    pub proof fn lemma_started_wf(channel: Seq<char>, player: Seq<char>)
        ensures
            RelayState::started(channel, player).wf(),
    {
    }

    /// Nothing that happens to a well formed session makes it ill formed, or
    /// changes its channel or its player.
    pub proof fn lemma_wf_preserved(self, op: RelayOp)
        requires
            self.wf(),
        ensures
            self.step(op).wf(),
            self.step(op).channel == self.channel,
            self.step(op).player == self.player,
    {
    }

    /// Once the send worker has exited, the queue takes nothing more: a
    /// command offered then is refused, and the session stays as it is.
    pub proof fn lemma_drained_refuses(self, cmd: PlayerCmd)
        requires
            self.wf(),
            self.sender is Drained,
        ensures
            self.enqueue(cmd) == self,
            self.intake(RelayOp::Enqueue(cmd)) == Seq::<PlayerCmd>::empty(),
    {
    }

    /// Running `ops` and then one more `op`.
    pub proof fn lemma_run_push(self, ops: Seq<RelayOp>, op: RelayOp)
        ensures
            self.run(ops.push(op)) == self.run(ops).step(op),
            self.published(ops.push(op)) == self.published(ops) + self.run(ops).output(op),
            self.accepted(ops.push(op)) == self.accepted(ops) + self.run(ops).intake(op),
    {
        assert(ops.push(op).drop_last() =~= ops);
    }

    /// Running `first` and then `second` is running the two in a row.
    pub proof fn lemma_run_concat(self, first: Seq<RelayOp>, second: Seq<RelayOp>)
        ensures
            self.run(first + second) == self.run(first).run(second),
            self.published(first + second) == self.published(first) + self.run(first).published(
                second,
            ),
            self.accepted(first + second) == self.accepted(first) + self.run(first).accepted(
                second,
            ),
        decreases second.len(),
    {
        if second.len() == 0 {
            assert(first + second =~= first);
        } else {
            let rest = second.drop_last();
            let op = second.last();
            self.lemma_run_concat(first, rest);
            assert(first + second =~= (first + rest).push(op));
            self.lemma_run_push(first + rest, op);
            assert(second =~= rest.push(op));
            self.run(first).lemma_run_push(rest, op);
        }
    }

    /// One step keeps the books: what it publishes, followed by the messages
    /// for what is pending after it, are the messages for what was pending
    /// before it followed by what it took in.
    pub proof fn lemma_step_conserves(self, op: RelayOp)
        ensures
            self.step(op).channel == self.channel,
            self.output(op) + announcements(self.channel, self.step(op).pending) == announcements(
                self.channel,
                self.pending + self.intake(op),
            ),
    {
        assert(self.output(op) + announcements(self.channel, self.step(op).pending)
            =~= announcements(self.channel, self.pending + self.intake(op)));
    }

    /// First in, first out, nothing lost and nothing twice: whatever happens
    /// to a session, the messages published so far, followed by the messages
    /// for what is still pending, are the messages for what was pending at
    /// first followed by every command the queue took since, in the order in
    /// which it took them.
    pub proof fn lemma_fifo(self, ops: Seq<RelayOp>)
        ensures
            self.run(ops).channel == self.channel,
            self.published(ops) + announcements(self.channel, self.run(ops).pending)
                == announcements(self.channel, self.pending + self.accepted(ops)),
        decreases ops.len(),
    {
        let channel = self.channel;
        if ops.len() == 0 {
            assert(self.pending + self.accepted(ops) =~= self.pending);
            assert(self.published(ops) + announcements(channel, self.pending) =~= announcements(
                channel,
                self.pending,
            ));
        } else {
            let rest = ops.drop_last();
            let op = ops.last();
            let before = self.run(rest);
            let taken = before.intake(op);
            self.lemma_fifo(rest);
            before.lemma_step_conserves(op);
            lemma_announcements_concat(channel, before.pending, taken);
            lemma_announcements_concat(channel, self.pending + self.accepted(rest), taken);
            assert(self.published(ops) + announcements(channel, self.run(ops).pending) =~= (
            self.published(rest) + announcements(channel, before.pending)) + announcements(
                channel,
                taken,
            ));
            assert(self.pending + self.accepted(ops) =~= (self.pending + self.accepted(rest))
                + taken);
        }
    }

    /// Offering commands to an open queue appends them, in order, behind what
    /// is pending, and publishes nothing.
    pub proof fn lemma_enqueue_all(self, cmds: Seq<PlayerCmd>)
        requires
            self.accepting,
        ensures
            self.run(enqueue_ops(cmds)) == (RelayState { pending: self.pending + cmds, ..self }),
            self.published(enqueue_ops(cmds)) == Seq::<PublicationView>::empty(),
            self.accepted(enqueue_ops(cmds)) == cmds,
        decreases cmds.len(),
    {
        if cmds.len() == 0 {
            assert(enqueue_ops(cmds) =~= Seq::<RelayOp>::empty());
            assert(self.pending + cmds =~= self.pending);
            assert(self.accepted(enqueue_ops(cmds)) =~= cmds);
        } else {
            let rest = cmds.drop_last();
            self.lemma_enqueue_all(rest);
            assert(enqueue_ops(cmds) =~= enqueue_ops(rest).push(RelayOp::Enqueue(cmds.last())));
            self.lemma_run_push(enqueue_ops(rest), RelayOp::Enqueue(cmds.last()));
            assert((self.pending + rest).push(cmds.last()) =~= self.pending + cmds);
            assert(rest + seq![cmds.last()] =~= cmds);
            assert(self.published(enqueue_ops(cmds)) =~= Seq::<PublicationView>::empty());
        }
    }

    /// An idle send worker publishes the pending commands oldest first, one
    /// per round: after `rounds` rounds the first `rounds` of them have been
    /// published, in their order, and the others are still pending.
    pub proof fn lemma_drain(self, rounds: nat)
        requires
            self.sender is Idle,
            rounds <= self.pending.len(),
        ensures
            self.run(drain_ops(rounds)) == (RelayState {
                pending: self.pending.skip(rounds as int),
                ..self
            }),
            self.published(drain_ops(rounds)) == announcements(
                self.channel,
                self.pending.take(rounds as int),
            ),
        decreases rounds,
    {
        if rounds == 0 {
            assert(self.pending.skip(0) =~= self.pending);
            assert(self.published(drain_ops(rounds)) =~= announcements(
                self.channel,
                self.pending.take(0),
            ));
        } else {
            let fewer = (rounds - 1) as nat;
            self.lemma_drain(fewer);
            let before = self.run(drain_ops(fewer));
            self.lemma_run_push(drain_ops(fewer), RelayOp::Poll);
            self.lemma_run_push(drain_ops(fewer).push(RelayOp::Poll), RelayOp::Finished);
            assert(before.pending.drop_first() =~= self.pending.skip(rounds as int));
            assert(before.pending[0] == self.pending[rounds - 1]);
            assert(self.published(drain_ops(rounds)) =~= announcements(
                self.channel,
                self.pending.take(rounds as int),
            ));
        }
    }

    /// Commands offered to a session that has just started are published in
    /// the order in which they were offered, each exactly once.
    pub proof fn lemma_publish_order(channel: Seq<char>, player: Seq<char>, cmds: Seq<PlayerCmd>)
        ensures
            RelayState::started(channel, player).published(
                enqueue_ops(cmds) + drain_ops(cmds.len()),
            ) == announcements(channel, cmds),
            RelayState::started(channel, player).run(
                enqueue_ops(cmds) + drain_ops(cmds.len()),
            ) == RelayState::started(channel, player),
    {
        let fresh = RelayState::started(channel, player);
        fresh.lemma_enqueue_all(cmds);
        let queued = fresh.run(enqueue_ops(cmds));
        assert(queued.pending =~= cmds);
        queued.lemma_drain(cmds.len());
        fresh.lemma_run_concat(enqueue_ops(cmds), drain_ops(cmds.len()));
        assert(cmds.take(cmds.len() as int) =~= cmds);
        assert(cmds.skip(cmds.len() as int) =~= Seq::<PlayerCmd>::empty());
        assert(fresh.published(enqueue_ops(cmds) + drain_ops(cmds.len())) =~= announcements(
            channel,
            cmds,
        ));
    }

    /// A message on any topic but the session's channel is ignored, whatever
    /// it carries: it reaches neither the decoder nor the player, and leaves
    /// the session as it was.
    pub proof fn lemma_other_topic_ignored(self, topic: Seq<char>, payload: Seq<u8>)
        requires
            topic != self.channel,
        ensures
            self.receive(InboundView::Message { topic, payload }) == (self, RecvAction::Ignore),
    {
    }

    /// No inbound event touches the send side of a session: what is pending,
    /// and what the send worker does next, stay as they were. And what a
    /// listening receive worker does about an event depends on the channel
    /// and the event alone.
    pub proof fn lemma_receive_apart_from_send(self, event: InboundView)
        ensures
            self.receive(event).0.pending == self.pending,
            self.receive(event).0.accepting == self.accepting,
            self.receive(event).0.sender == self.sender,
            self.receive(event).0.channel == self.channel,
            self.receive(event).0.player == self.player,
            self.receive(event).0.wf() == self.wf(),
            self.receive(event).0.send_step().1 == self.send_step().1,
            self.receiver is Listening ==> self.receive(event).1 == reaction(self.channel, event),
    {
    }

    /// A session that receives what it has itself published treats it as it
    /// treats any message on its channel: the command it carries is
    /// dispatched, and the session goes on as before.
    pub proof fn lemma_own_publication_dispatched(self, cmd: PlayerCmd)
        requires
            self.receiver is Listening,
        ensures
            self.receive(
                InboundView::Message {
                    topic: announcement(self.channel, cmd).topic,
                    payload: announcement(self.channel, cmd).payload,
                },
            ) == (self, RecvAction::Dispatch(cmd)),
    {
    }

    /// A closed connection stops a listening receive worker for good, with
    /// `ConnectionClosed` as the fatal error.
    pub proof fn lemma_connection_closed_is_fatal(self, later: InboundView)
        requires
            self.receiver is Listening,
        ensures
            self.receive(InboundView::ConnectionClosed).1 == RecvAction::Terminate,
            self.receive(InboundView::ConnectionClosed).0 == (RelayState {
                receiver: RecvState::Terminated(FatalError::ConnectionClosed),
                ..self
            }),
            self.receive(InboundView::ConnectionClosed).0.receive(later) == (
                self.receive(InboundView::ConnectionClosed).0,
                RecvAction::Ignore,
            ),
    {
    }

    /// Once the connection is closed a join ends after a bounded number of
    /// steps of the send worker: the publish in flight returns, one round
    /// goes by for each pending command, and on its next poll the worker
    /// exits. The join then reports `ConnectionClosed`.
    pub proof fn lemma_join_after_close(self)
        requires
            self.wf(),
            self.receiver is Listening,
        ensures
            self.receive(InboundView::ConnectionClosed).0.join_requested().publish_finished().run(
                drain_ops(self.pending.len()),
            ).send_step().0.join_result() == Some(FatalError::ConnectionClosed),
    {
        let closing = self.receive(
            InboundView::ConnectionClosed,
        ).0.join_requested().publish_finished();
        if closing.sender is Idle {
            closing.lemma_drain(closing.pending.len());
            assert(closing.pending.skip(closing.pending.len() as int).len() == 0);
        } else {
            assert(closing.sender is Drained);
            assert(closing.pending.len() == 0);
            assert(drain_ops(0) =~= Seq::<RelayOp>::empty());
        }
    }
}

/// A relay session: the outgoing queue and the state of the two workers.
#[derive(Debug)]
pub struct NetPlayerHandle {
    channel: String,
    player: String,
    outgoing: VecDeque<PlayerCmd>,
    accepting: bool,
    sender: SendState,
    receiver: RecvState,
}

impl View for NetPlayerHandle {
    type V = RelayState;

    closed spec fn view(&self) -> RelayState {
        RelayState {
            channel: self.channel@,
            player: self.player@,
            pending: self.outgoing@,
            accepting: self.accepting,
            sender: self.sender,
            receiver: self.receiver,
        }
    }
}

impl NetPlayerHandle {
    /// Starts the session that `plan` describes, for the local player `name`.
    ///
    /// `subscribed` says whether the transport connected to the broker and
    /// subscribed to the plan's channel. Without the subscription no session
    /// starts.
    pub fn start(plan: &SessionPlan, name: &str, subscribed: bool) -> (handle: Result<
        NetPlayerHandle,
        StartError,
    >)
        ensures
            subscribed ==> handle is Ok && handle->Ok_0@ == RelayState::started(
                plan.channel@,
                name@,
            ),
            !subscribed ==> handle is Err && handle->Err_0 == StartError::ConnectionError,
    {
        if !subscribed {
            return Err(StartError::ConnectionError);
        }
        Ok(
            NetPlayerHandle {
                channel: plan.channel.clone(),
                player: name.to_owned(),
                outgoing: VecDeque::new(),
                accepting: true,
                sender: SendState::Idle,
                receiver: RecvState::Listening,
            },
        )
    }

    /// The topic this session publishes on and listens to.
    pub fn channel(&self) -> (channel: &str)
        ensures
            channel@ == self@.channel,
    {
        self.channel.as_str()
    }

    /// The identity of the local player this session controls.
    pub fn player(&self) -> (player: &str)
        ensures
            player@ == self@.player,
    {
        self.player.as_str()
    }

    /// Number of commands queued and not yet handed to the transport.
    pub fn pending(&self) -> (count: usize)
        ensures
            count == self@.pending.len(),
    {
        self.outgoing.len()
    }

    /// Where the send worker stands.
    pub fn send_state(&self) -> (state: SendState)
        ensures
            state == self@.sender,
    {
        self.sender
    }

    /// Where the receive worker stands.
    pub fn recv_state(&self) -> (state: RecvState)
        ensures
            state == self@.receiver,
    {
        self.receiver
    }

    /// Queues `cmd` for publishing, behind everything queued before it.
    ///
    /// Fails with `QueueClosed`, and queues nothing, once the queue is closed.
    pub fn send_command(&mut self, cmd: PlayerCmd) -> (queued: Result<(), QueueClosed>)
        ensures
            final(self)@ == old(self)@.enqueue(cmd),
            queued is Ok <==> old(self)@.accepting,
    {
        if self.accepting {
            self.outgoing.push_back(cmd);
            Ok(())
        } else {
            Err(QueueClosed)
        }
    }

    /// Polls the send worker: takes the oldest queued command, if the worker
    /// is free to publish it, and says what the worker is to do.
    pub fn next_send(&mut self) -> (step: SendStep)
        ensures
            (final(self)@, step@) == old(self)@.send_step(),
    {
        match self.sender {
            SendState::Idle => {
                match self.outgoing.pop_front() {
                    Some(cmd) => {
                        self.sender = SendState::Publishing;
                        let publication = announce(&self.channel, cmd);
                        assert(self.outgoing@ =~= old(self).outgoing@.drop_first());
                        SendStep::Publish(publication)
                    },
                    None => {
                        if self.accepting {
                            SendStep::Wait
                        } else {
                            self.sender = SendState::Drained;
                            SendStep::Exit
                        }
                    },
                }
            },
            SendState::Publishing => SendStep::Wait,
            SendState::Drained => SendStep::Exit,
        }
    }

    /// Reports that the publish in flight returned; `accepted` says whether
    /// the transport took the message. Either way the send worker is idle
    /// again and goes on with the next command.
    pub fn publish_finished(&mut self, accepted: bool)
        ensures
            final(self)@ == old(self)@.publish_finished(),
    {
        match self.sender {
            SendState::Publishing => {
                self.sender = SendState::Idle;
            },
            _ => {},
        }
    }

    /// Takes one event from the inbound stream and says what the receive
    /// worker is to do about it.
    pub fn on_event(&mut self, event: &InboundEvent) -> (action: RecvAction)
        ensures
            (final(self)@, action) == old(self)@.receive(event@),
    {
        match self.receiver {
            RecvState::Listening => {
                let action = react(&self.channel, event);
                match action {
                    RecvAction::Terminate => {
                        self.receiver = RecvState::Terminated(FatalError::ConnectionClosed);
                    },
                    _ => {},
                }
                action
            },
            RecvState::Terminated(_) => RecvAction::Ignore,
        }
    }

    /// Closes the outgoing queue and looks whether both workers have exited.
    ///
    /// Gives `None` while a worker still runs: the caller waits and joins
    /// again. Once both have exited it gives the fatal error that stopped the
    /// receive worker.
    pub fn join(&mut self) -> (ended: Option<FatalError>)
        ensures
            final(self)@ == old(self)@.join_requested(),
            ended == final(self)@.join_result(),
    {
        self.accepting = false;
        match (self.sender, self.receiver) {
            (SendState::Drained, RecvState::Terminated(fatal)) => Some(fatal),
            _ => None,
        }
    }
}

} // verus!
