//! Decision logic of the broker side: the connection supervisor's retry
//! policy and the topology binder's step-by-step plan for declaring an
//! exchange, a queue and a binding over a possibly reconnected channel.
//!
//! The surrounding application owns the real connection and channel; it
//! performs each action these machines ask for and feeds the outcome back.

use vstd::prelude::*;

verus! {

/// Connection parameters for the broker. The virtual host is always "/".
pub struct RabbitConnect {
    pub host: String,
    pub port: u16,
    pub username: String,
    pub password: String,
}

/// Fixed wait between connection attempts, in milliseconds.
pub const RETRY_DELAY_MS: u64 = 2000;

/// The supervisor's retry policy. The default — a fixed delay of
/// `RETRY_DELAY_MS` and no bound on attempts — keeps trying for as long as
/// the broker stays unreachable, trading bounded failure for availability;
/// a bounded policy is available for callers needing fail-fast behaviour.
pub struct RetryPolicy {
    pub delay_ms: u64,
    /// Total open attempts allowed; `None` means unbounded.
    pub max_attempts: Option<u64>,
}

impl Default for RetryPolicy {
    fn default() -> (r: RetryPolicy)
        ensures
            r.delay_ms == RETRY_DELAY_MS,
            r.max_attempts is None,
    {
        RetryPolicy { delay_ms: RETRY_DELAY_MS, max_attempts: None }
    }
}

/// What the supervisor tells its caller after each open attempt.
#[derive(Clone, Copy, Debug, PartialEq, Eq, Structural)]
pub enum ConnectVerdict {
    /// Wait this many milliseconds, then try to open again.
    RetryAfterDelay { delay_ms: u64 },
    /// A bounded policy ran out of attempts. Never reached under the
    /// default, unbounded policy.
    GiveUp,
    /// The connection is open: register the default connection callbacks —
    /// once, on this successful attempt only — and hand it out.
    AcceptAndRegister,
}

/// How many attempts stay allowed after one more has been consumed.
pub open spec fn next_attempts_left(k: u64) -> u64 {
    if k == 0 {
        0
    } else {
        (k - 1) as u64
    }
}

/// The broker connection supervisor: it decides, after every open attempt,
/// whether to retry after the fixed delay, to give up (bounded policies
/// only), or to accept the connection and register callbacks.
pub struct ConnectSupervisor {
    pub delay_ms: u64,
    /// Open attempts still allowed; `None` means unbounded.
    pub attempts_left: Option<u64>,
}

impl ConnectSupervisor {
    pub fn new(policy: RetryPolicy) -> (r: ConnectSupervisor)
        ensures
            r.delay_ms == policy.delay_ms,
            r.attempts_left == policy.max_attempts,
    {
        ConnectSupervisor { delay_ms: policy.delay_ms, attempts_left: policy.max_attempts }
    }

    /// The decision after one open attempt. A success is accepted as it
    /// stands, whatever the attempt count. A failure is answered with a
    /// retry after the configured delay — unconditionally under an
    /// unbounded policy, and as long as attempts remain under a bounded
    /// one, which gives up once they run out.
    pub fn on_open_attempt(&mut self, succeeded: bool) -> (r: ConnectVerdict)
        ensures
            succeeded ==> r == ConnectVerdict::AcceptAndRegister && *final(self) == *old(self),
            !succeeded ==> match old(self).attempts_left {
                None => r == (ConnectVerdict::RetryAfterDelay { delay_ms: old(self).delay_ms })
                    && *final(self) == *old(self),
                Some(k) => final(self).delay_ms == old(self).delay_ms
                    && final(self).attempts_left == Some(next_attempts_left(k)) && r == (
                if next_attempts_left(k) == 0 {
                    ConnectVerdict::GiveUp
                } else {
                    (ConnectVerdict::RetryAfterDelay { delay_ms: old(self).delay_ms })
                }),
            },
    {
        if succeeded {
            ConnectVerdict::AcceptAndRegister
        } else {
            match self.attempts_left {
                None => ConnectVerdict::RetryAfterDelay { delay_ms: self.delay_ms },
                Some(k) => {
                    let left: u64 = if k == 0 {
                        0
                    } else {
                        k - 1
                    };
                    self.attempts_left = Some(left);
                    if left == 0 {
                        ConnectVerdict::GiveUp
                    } else {
                        ConnectVerdict::RetryAfterDelay { delay_ms: self.delay_ms }
                    }
                },
            }
        }
    }
}

/// One exchange declaration: name and kind. The binder only ever declares
/// direct exchanges, and re-declaration with identical parameters is a
/// no-op on the service side.
pub struct ExchangeDeclareSpec {
    pub exchange: String,
    pub kind: String,
}

/// Channel quality of service: at most one unacknowledged message in
/// flight, bounding memory and enforcing ordered, backpressured
/// consumption.
pub struct QosSpec {
    pub prefetch_count: u16,
    pub prefetch_size: u32,
    pub global: bool,
}

/// One queue declaration: durable, not auto-deleted, and marked as a
/// stream-type queue through a custom argument, which enables replay on
/// the broker side.
pub struct QueueDeclareSpec {
    pub queue: String,
    pub durable: bool,
    pub auto_delete: bool,
    pub argument_key: String,
    pub argument_value: String,
}

/// One binding of a declared queue — under the name the service returned
/// for it — to the exchange, with the routing key.
pub struct QueueBindSpec {
    pub queue: String,
    pub exchange: String,
    pub routing_key: String,
}

/// Where a bind task stands between two of its steps.
#[derive(Clone, Copy, Debug, PartialEq, Eq, Structural)]
pub enum BindPhase {
    Start,
    Reconnecting,
    DeclaringExchange,
    SettingQos,
    DeclaringQueue,
    ReopeningChannel,
    Binding,
    Done,
}

/// What the surrounding application reports back to a bind task: the
/// outcome of the action it last asked for.
pub enum BindEvent {
    /// The task is taken up; whether the caller-held connection is open.
    Started { connection_open: bool },
    /// Connection and channel were replaced through the supervisor.
    Reconnected,
    ExchangeDeclared,
    QosSet,
    /// The queue was declared; the name the service returned for it, and
    /// whether the channel was found open afterwards.
    QueueDeclared { queue_name: String, channel_open: bool },
    ChannelReopened,
    QueueBound,
}

/// What a bind task asks the surrounding application to do next. Failures
/// of declare or bind calls are fatal for the task and are not retried
/// here: retry is the caller's, by starting the task again.
pub enum BindAction {
    /// Replace connection and channel through the supervisor.
    Reconnect,
    DeclareExchange(ExchangeDeclareSpec),
    SetQos(QosSpec),
    DeclareQueue(QueueDeclareSpec),
    /// The channel was found closed after the queue declaration: open a
    /// fresh one through the supervisor.
    ReopenChannel,
    BindQueue(QueueBindSpec),
    Finished,
}

/// The exchange declaration a task issues: its exchange name, kind
/// "direct".
pub open spec fn exchange_declare_for(pre: BindTask, s: ExchangeDeclareSpec) -> bool {
    s.exchange@ == pre.exchange@ && s.kind@ == "direct"@
}

/// The quality of service a task sets: prefetch count 1, prefetch size 0,
/// not global.
pub open spec fn qos_for(q: QosSpec) -> bool {
    q.prefetch_count == 1 && q.prefetch_size == 0 && q.global == false
}

/// The queue declaration a task issues: its queue name, durable, not
/// auto-deleted, marked as a stream queue.
pub open spec fn queue_declare_for(pre: BindTask, q: QueueDeclareSpec) -> bool {
    q.queue@ == pre.queue@ && q.durable && !q.auto_delete && q.argument_key@ == "x-queue-type"@
        && q.argument_value@ == "stream"@
}

/// The binding a task issues: the declared queue name, its exchange, its
/// routing key.
pub open spec fn queue_bind_for(pre: BindTask, declared: Seq<char>, b: QueueBindSpec) -> bool {
    b.queue@ == declared && b.exchange@ == pre.exchange@ && b.routing_key@ == pre.routing_key@
}

/// One topology-bind task: exchange, queue and routing key to tie
/// together, and where the task stands. Every step is idempotent against
/// repeated invocation on the service side, so a task may be started over
/// at any time.
pub struct BindTask {
    pub exchange: String,
    pub queue: String,
    pub routing_key: String,
    pub phase: BindPhase,
    /// The queue name the service returned, kept while the channel is
    /// reopened so the binding can still use it.
    pub declared_queue: Option<String>,
}

/// The full transition table of a bind task: for a pre-state and an event,
/// which action comes out and what the post-state is. The identity of the
/// task — exchange, queue, routing key — never changes. The order is
/// fixed: (reconnect if the connection is closed, then) declare exchange,
/// set qos, declare queue, (reopen the channel if it closed, then) bind.
pub open spec fn bind_step_spec(
    pre: BindTask,
    event: BindEvent,
    post: BindTask,
    action: BindAction,
) -> bool {
    &&& post.exchange@ == pre.exchange@
    &&& post.queue@ == pre.queue@
    &&& post.routing_key@ == pre.routing_key@
    &&& match (pre.phase, event) {
        (BindPhase::Start, BindEvent::Started { connection_open }) => if connection_open {
            post.phase == BindPhase::DeclaringExchange && (action matches
            BindAction::DeclareExchange(s) && exchange_declare_for(pre, s))
        } else {
            post.phase == BindPhase::Reconnecting && action is Reconnect
        },
        (BindPhase::Reconnecting, BindEvent::Reconnected) => post.phase
            == BindPhase::DeclaringExchange && (action matches BindAction::DeclareExchange(s)
            && exchange_declare_for(pre, s)),
        (BindPhase::DeclaringExchange, BindEvent::ExchangeDeclared) => post.phase
            == BindPhase::SettingQos && (action matches BindAction::SetQos(q) && qos_for(q)),
        (BindPhase::SettingQos, BindEvent::QosSet) => post.phase == BindPhase::DeclaringQueue && (
        action matches BindAction::DeclareQueue(q) && queue_declare_for(pre, q)),
        (BindPhase::DeclaringQueue, BindEvent::QueueDeclared { queue_name, channel_open }) => if channel_open {
            post.phase == BindPhase::Binding && (action matches BindAction::BindQueue(b)
            && queue_bind_for(pre, queue_name@, b))
        } else {
            post.phase == BindPhase::ReopeningChannel && action is ReopenChannel && (
            post.declared_queue matches Some(q) && q@ == queue_name@)
        },
        (BindPhase::ReopeningChannel, BindEvent::ChannelReopened) => post.phase
            == BindPhase::Binding && (pre.declared_queue matches Some(q) && (action matches
        BindAction::BindQueue(b) && queue_bind_for(pre, q@, b))),
        (BindPhase::Binding, BindEvent::QueueBound) => post.phase == BindPhase::Done
            && action is Finished,
        _ => false,
    }
}

impl BindTask {
    /// A task holds the declared queue name whenever it is about to need
    /// it for the binding.
    pub open spec fn wf(self) -> bool {
        self.phase == BindPhase::ReopeningChannel ==> self.declared_queue is Some
    }

    /// Which event a task accepts where it stands: the outcome of the
    /// action it last asked for.
    pub open spec fn accepts(self, event: BindEvent) -> bool {
        match (self.phase, event) {
            (BindPhase::Start, BindEvent::Started { .. }) => true,
            (BindPhase::Reconnecting, BindEvent::Reconnected) => true,
            (BindPhase::DeclaringExchange, BindEvent::ExchangeDeclared) => true,
            (BindPhase::SettingQos, BindEvent::QosSet) => true,
            (BindPhase::DeclaringQueue, BindEvent::QueueDeclared { .. }) => true,
            (BindPhase::ReopeningChannel, BindEvent::ChannelReopened) => true,
            (BindPhase::Binding, BindEvent::QueueBound) => true,
            _ => false,
        }
    }

    /// A fresh task for tying `queue` to `exchange` under `routing_key`.
    pub fn new(exchange: String, queue: String, routing_key: String) -> (r: BindTask)
        ensures
            r.exchange == exchange,
            r.queue == queue,
            r.routing_key == routing_key,
            r.phase == BindPhase::Start,
            r.declared_queue is None,
            r.wf(),
    {
        BindTask { exchange, queue, routing_key, phase: BindPhase::Start, declared_queue: None }
    }

    /// One step of the task: fed the outcome of the last action, it moves
    /// on and says what to do next, following the fixed order of
    /// `bind_step_spec`.
    pub fn step(&mut self, event: BindEvent) -> (r: BindAction)
        requires
            old(self).wf(),
            old(self).accepts(event),
        ensures
            final(self).wf(),
            bind_step_spec(*old(self), event, *final(self), r),
    {
        match (self.phase, event) {
            (BindPhase::Start, BindEvent::Started { connection_open }) => {
                if connection_open {
                    self.phase = BindPhase::DeclaringExchange;
                    BindAction::DeclareExchange(
                        ExchangeDeclareSpec {
                            exchange: self.exchange.clone(),
                            kind: "direct".to_owned(),
                        },
                    )
                } else {
                    self.phase = BindPhase::Reconnecting;
                    BindAction::Reconnect
                }
            },
            (BindPhase::Reconnecting, BindEvent::Reconnected) => {
                self.phase = BindPhase::DeclaringExchange;
                BindAction::DeclareExchange(
                    ExchangeDeclareSpec { exchange: self.exchange.clone(), kind: "direct".to_owned() },
                )
            },
            (BindPhase::DeclaringExchange, BindEvent::ExchangeDeclared) => {
                self.phase = BindPhase::SettingQos;
                BindAction::SetQos(QosSpec { prefetch_count: 1, prefetch_size: 0, global: false })
            },
            (BindPhase::SettingQos, BindEvent::QosSet) => {
                self.phase = BindPhase::DeclaringQueue;
                BindAction::DeclareQueue(
                    QueueDeclareSpec {
                        queue: self.queue.clone(),
                        durable: true,
                        auto_delete: false,
                        argument_key: "x-queue-type".to_owned(),
                        argument_value: "stream".to_owned(),
                    },
                )
            },
            (BindPhase::DeclaringQueue, BindEvent::QueueDeclared { queue_name, channel_open }) => {
                if channel_open {
                    self.phase = BindPhase::Binding;
                    BindAction::BindQueue(
                        QueueBindSpec {
                            queue: queue_name,
                            exchange: self.exchange.clone(),
                            routing_key: self.routing_key.clone(),
                        },
                    )
                } else {
                    self.phase = BindPhase::ReopeningChannel;
                    self.declared_queue = Some(queue_name);
                    BindAction::ReopenChannel
                }
            },
            (BindPhase::ReopeningChannel, BindEvent::ChannelReopened) => {
                self.phase = BindPhase::Binding;
                let declared: String = match &self.declared_queue {
                    Some(q) => q.clone(),
                    None => String::new(),  // ruled out by wf
                };
                BindAction::BindQueue(
                    QueueBindSpec {
                        queue: declared,
                        exchange: self.exchange.clone(),
                        routing_key: self.routing_key.clone(),
                    },
                )
            },
            (BindPhase::Binding, BindEvent::QueueBound) => {
                self.phase = BindPhase::Done;
                BindAction::Finished
            },
            _ => BindAction::Finished,  // every such pairing is ruled out by accepts
        }
    }
}

} // verus!
