//! The command channel: the one data structure shared across the two cores.
//!
//! A fixed-capacity FIFO queue of commands, filled by the input tasks and
//! drained by the display task alone.  The queue discipline is modelled by
//! [`ChannelModel`]: the history of every command ever accepted and the
//! count of commands already handed out.  A send into a full channel does
//! not drop the command and does not fail — it reports that the producer
//! must wait and leaves the channel untouched, which is how a suspended
//! producer looks from the queue's side.  The cross-core mutual-exclusion
//! primitive that guards the concrete queue is the runtime's business; this
//! module owns the discipline the guarded queue must keep.

use vstd::prelude::*;

use crate::commands::GatewayCommand;

verus! {

/// How many commands the channel can hold at once.  Fixed at construction,
/// never resized.
pub const INPUT_BUFFER_SIZE: usize = 4;

/// The channel's mathematical model: every command ever accepted, in
/// acceptance order, and how many of them have already been received.
/// The commands still queued are `pending(..)`: the sent history with the
/// received prefix cut off.
pub struct ChannelModel {
    pub sent: Seq<GatewayCommand>,
    pub received: nat,
}

/// The commands accepted but not yet handed to the consumer, oldest first.
pub open spec fn pending(m: ChannelModel) -> Seq<GatewayCommand> {
    m.sent.skip(m.received as int)
}

/// A model the channel can actually be in: the received prefix never
/// overtakes the sent history, and what is still queued fits the capacity.
pub open spec fn model_wf(m: ChannelModel) -> bool {
    &&& m.received <= m.sent.len()
    &&& m.sent.len() - m.received <= INPUT_BUFFER_SIZE
}

/// Whether a send is accepted at once: exactly when a slot is free.
pub open spec fn send_accepted(m: ChannelModel) -> bool {
    pending(m).len() < INPUT_BUFFER_SIZE
}

/// The model after a send: a free slot appends the command to the history;
/// a full channel leaves the model exactly as it was — the command is
/// neither queued nor dropped, the producer simply has to wait.
pub open spec fn send_model(m: ChannelModel, cmd: GatewayCommand) -> ChannelModel {
    if send_accepted(m) {
        ChannelModel { sent: m.sent.push(cmd), ..m }
    } else {
        m
    }
}

/// The model after a receive: the oldest pending command, if any, moves
/// into the received prefix; an empty channel is left as it was.
pub open spec fn receive_model(m: ChannelModel) -> ChannelModel {
    if pending(m).len() > 0 {
        ChannelModel { received: m.received + 1, ..m }
    } else {
        m
    }
}

/// What a send reported to the producer.
#[derive(Clone, Copy, Debug, PartialEq, Eq, Structural)]
pub enum SendStatus {
    /// The command was queued.
    Sent,
    /// The channel is full; the producer must suspend and try again.  The
    /// command was not queued and not dropped — the producer still holds it.
    MustWait,
}

/// The bounded multi-producer, single-consumer queue of commands.
pub struct CommandChannel {
    queue: Vec<GatewayCommand>,
    history: Ghost<Seq<GatewayCommand>>,
    taken: Ghost<nat>,
}

impl View for CommandChannel {
    type V = ChannelModel;

    closed spec fn view(&self) -> ChannelModel {
        ChannelModel { sent: self.history@, received: self.taken@ }
    }
}

impl CommandChannel {
    /// The channel is the queue its model says it is, within capacity.
    pub closed spec fn wf(self) -> bool {
        &&& model_wf(self@)
        &&& self.queue@ == pending(self@)
    }

    /// A fresh channel: nothing sent, nothing received.
    pub fn new() -> (c: CommandChannel)
        ensures
            c.wf(),
            c@.sent == Seq::<GatewayCommand>::empty(),
            c@.received == 0,
    {
        let c = CommandChannel {
            queue: Vec::new(),
            history: Ghost(Seq::empty()),
            taken: Ghost(0),
        };
        proof {
            assert(c.queue@ =~= pending(c@));
        }
        c
    }

    /// How many commands are queued right now.
    pub fn len(&self) -> (n: usize)
        requires
            self.wf(),
        ensures
            n == pending(self@).len(),
    {
        self.queue.len()
    }

    /// The fixed capacity.
    pub fn capacity(&self) -> (n: usize)
        ensures
            n == INPUT_BUFFER_SIZE,
    {
        INPUT_BUFFER_SIZE
    }

    /// One send step.  With a free slot the command is queued at the back
    /// and the send reports `Sent`; into a full channel nothing changes and
    /// the send reports `MustWait` — never an error, never a lost command.
    /// A producer task treats `MustWait` as its suspension point and retries
    /// after the consumer has made room.
    pub fn try_send(&mut self, cmd: GatewayCommand) -> (status: SendStatus)
        requires
            old(self).wf(),
        ensures
            final(self).wf(),
            final(self)@ == send_model(old(self)@, cmd),
            status == (if send_accepted(old(self)@) { SendStatus::Sent } else { SendStatus::MustWait }),
    {
        if self.queue.len() < INPUT_BUFFER_SIZE {
            self.queue.push(cmd);
            proof {
                self.history@ = self.history@.push(cmd);
                assert(self.queue@ =~= pending(self@));
            }
            SendStatus::Sent
        } else {
            SendStatus::MustWait
        }
    }

    /// One receive step: the oldest queued command, or nothing if the
    /// channel is empty.  The command handed out is always the earliest
    /// accepted one not yet received — `sent[received]` — which is what
    /// makes the channel first-in, first-out.
    pub fn try_receive(&mut self) -> (r: Option<GatewayCommand>)
        requires
            old(self).wf(),
        ensures
            final(self).wf(),
            final(self)@ == receive_model(old(self)@),
            r == (if pending(old(self)@).len() > 0 {
                Some(old(self)@.sent[old(self)@.received as int])
            } else {
                None::<GatewayCommand>
            }),
    {
        if self.queue.len() > 0 {
            let cmd = self.queue.remove(0);
            proof {
                self.taken@ = self.taken@ + 1;
                assert(self.queue@ =~= pending(self@));
            }
            Some(cmd)
        } else {
            None
        }
    }
}

/// The model after `n` receive steps.
pub open spec fn receive_n(m: ChannelModel, n: nat) -> ChannelModel
    decreases n,
{
    if n == 0 {
        m
    } else {
        receive_n(receive_model(m), (n - 1) as nat)
    }
}

/// Whether the command sent at position `i` has been received.
pub open spec fn is_received(m: ChannelModel, i: int) -> bool {
    i < m.received
}

/// Receiving never rewrites history and consumes exactly one pending
/// command per step until the channel runs dry.
pub proof fn lemma_receive_n(m: ChannelModel, n: nat)
    requires
        model_wf(m),
    ensures
        receive_n(m, n).sent == m.sent,
        receive_n(m, n).received == vstd::math::min((m.received + n) as int, m.sent.len() as int),
    decreases n,
{
    if n > 0 {
        lemma_receive_n(receive_model(m), (n - 1) as nat);
    }
}

/// First in, first out: if the command at history position `i` was fully
/// enqueued before the one at position `j` began enqueueing — that is,
/// `i < j` — then it is dequeued strictly earlier: after the receives that
/// hand out position `i`, position `j` is still queued.
pub proof fn lemma_fifo(m: ChannelModel, i: int, j: int)
    requires
        model_wf(m),
        m.received <= i < j < m.sent.len(),
    ensures
        is_received(receive_n(m, (i + 1 - m.received) as nat), i),
        !is_received(receive_n(m, (i + 1 - m.received) as nat), j),
{
    lemma_receive_n(m, (i + 1 - m.received) as nat);
}

/// The queue keeps arrival order: the `k`-th command still pending is the
/// `(received + k)`-th command ever accepted, so receives hand the history
/// out in exactly the order sends built it.
pub proof fn lemma_pending_order(m: ChannelModel, k: int)
    requires
        model_wf(m),
        0 <= k < pending(m).len(),
    ensures
        pending(m)[k] == m.sent[m.received + k],
{
}

/// Backpressure, not loss: a send into a channel holding `capacity`
/// commands changes nothing and is not accepted — the producer waits, the
/// command survives in the producer's hands, no error is raised.  One
/// receive then frees a slot, after which the same send is accepted and
/// appends the command to the history.
pub proof fn lemma_backpressure(m: ChannelModel, cmd: GatewayCommand)
    requires
        model_wf(m),
        pending(m).len() == INPUT_BUFFER_SIZE,
    ensures
        !send_accepted(m),
        send_model(m, cmd) == m,
        send_accepted(receive_model(m)),
        send_model(receive_model(m), cmd).sent == m.sent.push(cmd),
{
}

} // verus!
