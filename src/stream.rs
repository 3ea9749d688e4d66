use vstd::prelude::*;

verus! {

/// How many tokens the channel between producer and consumer holds at most.
pub const CHANNEL_CAPACITY: usize = 50;

/// What became of a token offered to the channel.
#[derive(Debug)]
pub enum SendOutcome {
    /// Queued behind the tokens sent before it.
    Sent,
    /// The channel is full: the producer keeps the token and waits.
    Full(String),
    /// The consumer is gone: the token is handed back.
    Closed(String),
}

/// What the consumer got from the channel.
#[derive(Debug)]
pub enum RecvOutcome {
    Token(String),
    /// Nothing queued yet, and the producer is still at work.
    Empty,
    /// Nothing queued, and the producer has closed its side.
    Ended,
}

/// A bounded first-in first-out channel of tokens, with one producer and one
/// consumer, each of which can close its end.
#[derive(Debug)]
pub struct TokenChannel {
    queue: Vec<String>,
    sender_open: bool,
    receiver_open: bool,
}

impl TokenChannel {
    /// The tokens waiting, oldest first.
    pub closed spec fn queued(&self) -> Seq<String> {
        self.queue@
    }

    pub closed spec fn sender_open_spec(&self) -> bool {
        self.sender_open
    }

    pub closed spec fn receiver_open_spec(&self) -> bool {
        self.receiver_open
    }

    pub open spec fn wf(&self) -> bool {
        self.queued().len() <= CHANNEL_CAPACITY
    }

    /// An empty channel with both ends open.
    pub fn new() -> (r: TokenChannel)
        ensures
            r.wf(),
            r.queued().len() == 0,
            r.sender_open_spec(),
            r.receiver_open_spec(),
    {
        TokenChannel { queue: Vec::new(), sender_open: true, receiver_open: true }
    }

    /// The number of tokens waiting.
    pub fn len(&self) -> (r: usize)
        ensures
            r == self.queued().len(),
    {
        self.queue.len()
    }

    /// Offers `token`: it is queued unless the channel is full or the consumer is gone.
    pub fn try_send(&mut self, token: String) -> (r: SendOutcome)
        requires
            old(self).wf(),
        ensures
            final(self).wf(),
            final(self).sender_open_spec() == old(self).sender_open_spec(),
            final(self).receiver_open_spec() == old(self).receiver_open_spec(),
            !old(self).receiver_open_spec() ==> r == SendOutcome::Closed(token)
                && final(self).queued() == old(self).queued(),
            old(self).receiver_open_spec() && old(self).queued().len() == CHANNEL_CAPACITY ==> r
                == SendOutcome::Full(token) && final(self).queued() == old(self).queued(),
            old(self).receiver_open_spec() && old(self).queued().len() < CHANNEL_CAPACITY ==> r
                == SendOutcome::Sent && final(self).queued() == old(self).queued().push(token),
    {
        if !self.receiver_open {
            SendOutcome::Closed(token)
        } else if self.queue.len() >= CHANNEL_CAPACITY {
            SendOutcome::Full(token)
        } else {
            self.queue.push(token);
            SendOutcome::Sent
        }
    }

    /// Takes the oldest waiting token, if any.
    pub fn try_recv(&mut self) -> (r: RecvOutcome)
        requires
            old(self).wf(),
        ensures
            final(self).wf(),
            final(self).sender_open_spec() == old(self).sender_open_spec(),
            final(self).receiver_open_spec() == old(self).receiver_open_spec(),
            old(self).queued().len() > 0 ==> r == RecvOutcome::Token(old(self).queued()[0])
                && final(self).queued() == old(self).queued().drop_first(),
            old(self).queued().len() == 0 ==> final(self).queued() == old(self).queued() && if old(
                self,
            ).sender_open_spec() {
                r is Empty
            } else {
                r is Ended
            },
    {
        if self.queue.len() > 0 {
            let t = self.queue.remove(0);
            assert(self.queue@ =~= old(self).queued().drop_first());
            RecvOutcome::Token(t)
        } else if self.sender_open {
            RecvOutcome::Empty
        } else {
            RecvOutcome::Ended
        }
    }

    /// The producer is done: what is queued can still be received.
    pub fn close_sender(&mut self)
        ensures
            final(self).queued() == old(self).queued(),
            !final(self).sender_open_spec(),
            final(self).receiver_open_spec() == old(self).receiver_open_spec(),
    {
        self.sender_open = false;
    }

    /// The consumer is gone: queued tokens are discarded, and later sends fail.
    pub fn close_receiver(&mut self)
        ensures
            final(self).queued().len() == 0,
            final(self).sender_open_spec() == old(self).sender_open_spec(),
            !final(self).receiver_open_spec(),
    {
        self.receiver_open = false;
        self.queue.clear();
    }
}

/// Where the task that forwards a token stream stands.
#[derive(Clone, Copy, Debug, PartialEq, Eq, Structural)]
pub enum ForwarderState {
    /// Pulling tokens from the source and forwarding them.
    Running,
    /// The source ended and the channel is closed.
    Ended,
    /// The consumer went away; the task stops without reporting an error.
    Cancelled,
}

/// What the forwarding task does with what the source gave it.
#[derive(Debug)]
pub enum ForwardAction {
    /// Send this token to the consumer.
    Send(String),
    /// The source has ended: close the sending side.
    CloseChannel,
}

/// The task that moves tokens from a source to the consumer's channel, one
/// at a time and in the order the source produced them.
#[derive(Debug)]
pub struct Forwarder {
    pub state: ForwarderState,
}

impl Forwarder {
    /// A task about to pull its first token.
    pub fn new() -> (r: Forwarder)
        ensures
            r.state == ForwarderState::Running,
    {
        Forwarder { state: ForwarderState::Running }
    }

    /// Takes the source's next item: a token is forwarded as it is, and the
    /// end of the source closes the channel and ends the task.
    pub fn on_source(&mut self, item: Option<String>) -> (r: ForwardAction)
        requires
            old(self).state == ForwarderState::Running,
        ensures
            match item {
                Some(t) => r == ForwardAction::Send(t) && final(self).state == ForwarderState::Running,
                None => r is CloseChannel && final(self).state == ForwarderState::Ended,
            },
    {
        match item {
            Some(t) => ForwardAction::Send(t),
            None => {
                self.state = ForwarderState::Ended;
                ForwardAction::CloseChannel
            },
        }
    }

    /// Takes the outcome of a send: a send refused because the consumer is
    /// gone ends the task quietly; it is cancellation, not an error.
    pub fn on_sent(&mut self, delivered: bool)
        requires
            old(self).state == ForwarderState::Running,
        ensures
            final(self).state == if delivered {
                ForwarderState::Running
            } else {
                ForwarderState::Cancelled
            },
    {
        if !delivered {
            self.state = ForwarderState::Cancelled;
        }
    }

    /// Whether the task still has work to do.
    pub fn is_running(&self) -> (r: bool)
        ensures
            r == (self.state == ForwarderState::Running),
    {
        match self.state {
            ForwarderState::Running => true,
            _ => false,
        }
    }
}

/// The consumer's end of a token stream. The tokens of a finite source are
/// forwarded through a bounded channel by a forwarding task that runs each
/// time the consumer finds the channel empty; `next` hands them out in the
/// order of the source, each exactly once, then reports the end.
pub struct ReceiverHandle {
    source: Vec<String>,
    pos: usize,
    forwarder: Forwarder,
    channel: TokenChannel,
    delivered: Ghost<Seq<String>>,
}

impl ReceiverHandle {
    /// The tokens of the stream, in the order the source gives them.
    pub closed spec fn source_spec(&self) -> Seq<String> {
        self.source@
    }

    /// The tokens handed to the consumer so far.
    pub closed spec fn delivered_spec(&self) -> Seq<String> {
        self.delivered@
    }

    /// Where the forwarding task stands.
    pub closed spec fn forwarder_state(&self) -> ForwarderState {
        self.forwarder.state
    }

    /// Whether the consumer still holds this end.
    pub closed spec fn open(&self) -> bool {
        self.channel.receiver_open_spec()
    }

    pub closed spec fn wf(&self) -> bool {
        &&& self.channel.wf()
        &&& self.pos <= self.source@.len()
        &&& self.forwarder.state == ForwarderState::Running ==> self.channel.sender_open_spec()
        &&& self.forwarder.state == ForwarderState::Ended ==> self.pos == self.source@.len()
            && !self.channel.sender_open_spec()
        &&& self.channel.receiver_open_spec() ==> self.forwarder.state != ForwarderState::Cancelled
            && self.delivered@ + self.channel.queued() == self.source@.subrange(0, self.pos as int)
    }

    /// Sets the stream up on `source`; nothing is forwarded before the consumer asks.
    pub fn start(source: Vec<String>) -> (r: ReceiverHandle)
        ensures
            r.wf(),
            r.open(),
            r.source_spec() == source@,
            r.delivered_spec().len() == 0,
            r.forwarder_state() == ForwarderState::Running,
    {
        let h = ReceiverHandle {
            source,
            pos: 0,
            forwarder: Forwarder::new(),
            channel: TokenChannel::new(),
            delivered: Ghost(Seq::empty()),
        };
        assert(h.delivered@ + h.channel.queued() =~= h.source@.subrange(0, 0));
        h
    }

    /// Runs the forwarding task until the channel is full or the task ends.
    fn pump(&mut self)
        requires
            old(self).wf(),
        ensures
            final(self).wf(),
            final(self).source_spec() == old(self).source_spec(),
            final(self).delivered_spec() == old(self).delivered_spec(),
            final(self).open() == old(self).open(),
            old(self).forwarder_state() != ForwarderState::Running ==> final(self).forwarder_state()
                == old(self).forwarder_state(),
            final(self).forwarder_state() != ForwarderState::Running || final(self).channel.queued().len()
                == CHANNEL_CAPACITY,
            old(self).channel.queued().len() > 0 ==> final(self).channel.queued().len() > 0
                && final(self).channel.queued()[0] == old(self).channel.queued()[0],
            !old(self).open() ==> final(self).channel.queued() == old(self).channel.queued()
                && final(self).forwarded() == old(self).forwarded(),
    {
        while self.forwarder.is_running() && self.channel.len() < CHANNEL_CAPACITY
            invariant
                self.wf(),
                self.source@ == old(self).source@,
                self.delivered@ == old(self).delivered@,
                self.channel.receiver_open_spec() == old(self).channel.receiver_open_spec(),
                old(self).forwarder.state != ForwarderState::Running ==> self.forwarder.state
                    == old(self).forwarder.state,
                old(self).channel.queued().len() > 0 ==> self.channel.queued().len() > 0
                    && self.channel.queued()[0] == old(self).channel.queued()[0],
                !old(self).channel.receiver_open_spec() ==> self.channel.queued() == old(
                    self,
                ).channel.queued() && self.pos == old(self).pos,
            decreases self.source@.len() - self.pos + if self.forwarder.state == ForwarderState::Running {
                1int
            } else {
                0int
            },
        {
            let item = if self.pos < self.source.len() {
                Some(self.source[self.pos].clone())
            } else {
                None
            };
            match self.forwarder.on_source(item) {
                ForwardAction::Send(t) => {
                    let ghost q = self.channel.queued();
                    match self.channel.try_send(t) {
                        SendOutcome::Sent => {
                            self.pos = self.pos + 1;
                            self.forwarder.on_sent(true);
                            proof {
                                let s = self.source@;
                                assert(s.subrange(0, self.pos as int) =~= s.subrange(0, self.pos - 1).push(
                                    s[self.pos - 1],
                                ));
                                assert(self.delivered@ + self.channel.queued() =~= (self.delivered@ + q).push(
                                    s[self.pos - 1],
                                ));
                            }
                        },
                        SendOutcome::Full(_) => {
                            self.forwarder.on_sent(true);
                        },
                        SendOutcome::Closed(_) => {
                            self.forwarder.on_sent(false);
                        },
                    }
                },
                ForwardAction::CloseChannel => {
                    self.channel.close_sender();
                },
            }
        }
    }

    /// The consumer lets go of the stream, possibly before its end. The
    /// forwarding task notices at its next send, which the closed channel
    /// refuses, and stops quietly: it ends cancelled (or ended, if the source
    /// was exhausted), never running, and reports no error.
    pub fn close(&mut self)
        requires
            old(self).wf(),
        ensures
            final(self).wf(),
            !final(self).open(),
            final(self).source_spec() == old(self).source_spec(),
            final(self).delivered_spec() == old(self).delivered_spec(),
            final(self).forwarder_state() != ForwarderState::Running,
            old(self).forwarder_state() == ForwarderState::Running && old(self).source_spec().len()
                > old(self).forwarded() ==> final(self).forwarder_state() == ForwarderState::Cancelled,
    {
        self.channel.close_receiver();
        self.pump();
    }

    /// Where the forwarding task stands now.
    pub fn producer_state(&self) -> (r: ForwarderState)
        ensures
            r == self.forwarder_state(),
    {
        self.forwarder.state
    }

    /// How many tokens the forwarding task has moved into the channel.
    pub closed spec fn forwarded(&self) -> nat {
        self.pos as nat
    }

    /// The next token of the stream, or `None` once every token was handed out.
    pub fn next(&mut self) -> (r: Option<String>)
        requires
            old(self).wf(),
            old(self).open(),
        ensures
            final(self).wf(),
            final(self).open(),
            final(self).source_spec() == old(self).source_spec(),
            old(self).delivered_spec().len() < old(self).source_spec().len() ==> r == Some(
                old(self).source_spec()[old(self).delivered_spec().len() as int],
            ) && final(self).delivered_spec() == old(self).delivered_spec().push(r->Some_0),
            old(self).delivered_spec().len() >= old(self).source_spec().len() ==> r is None
                && final(self).delivered_spec() == old(self).delivered_spec(),
    {
        if self.channel.len() == 0 {
            self.pump();
        }
        proof {
            let s = self.source@;
            assert(self.delivered@ + self.channel.queued() == s.subrange(0, self.pos as int));
            if self.channel.queued().len() > 0 {
                assert((self.delivered@ + self.channel.queued())[self.delivered@.len() as int]
                    == self.channel.queued()[0]);
            }
        }
        let ghost q = self.channel.queued();
        match self.channel.try_recv() {
            RecvOutcome::Token(t) => {
                let ghost d = self.delivered@;
                self.delivered = Ghost(d.push(t));
                proof {
                    assert(self.delivered@ + self.channel.queued() =~= d + q);
                }
                Some(t)
            },
            _ => None,
        }
    }
}

} // verus!
