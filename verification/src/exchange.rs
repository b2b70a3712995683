//! The client side: bind, send one datagram, await one reply.
//!
//! An [`Exchange`] is the routine that every client variant runs. It asks
//! for three socket operations in turn and stops at the first that fails.
//! The send and the receive are timed, each by itself, and each is
//! reported in a line of its own.
//!
//! Time is read as whole microseconds on a clock that starts with the
//! exchange. The caller begins a request just before it carries it out, and
//! the exchange notes the reading; when the completion is reported, the
//! time that the request took is the reading then, less the reading noted.
//! So a sample spans one operation and nothing else: not the operation
//! before it, and not the printing of a line.
//!
//! Nothing is retried and nothing times out. Where no server listens, the
//! exchange fails if the transport reports the refusal, at the send or at
//! the receive. If the transport reports nothing, no completion ever
//! comes, and the exchange waits for its reply until the caller gives up.

use vstd::prelude::*;
use std::time::Instant;
use crate::clock::micros_since;
use crate::config::{ConfigModel, ExchangeConfig};
use crate::driver::{
    blank, blank_buffer, copy_bytes, copy_leading, leading, Directive, DirectiveModel, Event, EventModel,
    Request, RequestModel,
};
use crate::failure::{FailureClass, IoFailure, Stage};
use crate::report::{recv_line, send_line, spec_recv_line, spec_send_line};
use crate::variant::Variant;

verus! {

/// What a completed exchange has measured and received.
#[derive(Debug, PartialEq, Eq)]
pub struct Sample {
    /// Microseconds that the send took.
    pub send_micros: u128,
    /// Microseconds that the receive took.
    pub recv_micros: u128,
    /// The bytes of the reply.
    pub reply: Vec<u8>,
}

/// The mathematical value of a [`Sample`].
pub struct SampleModel {
    pub send_micros: u128,
    pub recv_micros: u128,
    pub reply: Seq<u8>,
}

impl View for Sample {
    type V = SampleModel;

    open spec fn view(&self) -> SampleModel {
        SampleModel {
            send_micros: self.send_micros,
            recv_micros: self.recv_micros,
            reply: self.reply@,
        }
    }
}

/// The mathematical value of what [`Exchange::outcome`] returns.
pub open spec fn outcome_model(outcome: Option<Result<Sample, IoFailure>>) -> Option<
    Result<SampleModel, IoFailure>,
> {
    match outcome {
        None => None,
        Some(Ok(sample)) => Some(Ok(sample@)),
        Some(Err(failure)) => Some(Err(failure)),
    }
}

/// The microseconds from the reading `started` to the reading `now`; none
/// where `now` is the earlier one.
pub open spec fn elapsed(started: u128, now: u128) -> u128 {
    if now >= started {
        (now - started) as u128
    } else {
        0
    }
}

/// How far an exchange has come.
pub enum Progress {
    /// The bind is under way. No socket is used before it has succeeded.
    Binding,
    /// The socket is bound and the payload is on its way out.
    Sending,
    /// The payload is sent and the one reply is awaited.
    Receiving { send_micros: u128 },
    /// The reply is in.
    Completed { sample: SampleModel },
    /// A request has failed, and the exchange has stopped there.
    Failed { failure: IoFailure },
}

/// The mathematical value of an [`Exchange`].
pub struct ExchangeModel {
    pub variant: Variant,
    pub config: ConfigModel,
    pub progress: Progress,
    /// The reading of the clock at which the request under way was begun.
    pub started: u128,
}

impl ExchangeModel {
    /// An exchange before anything has happened: it is about to bind.
    pub open spec fn initial(variant: Variant, config: ConfigModel) -> ExchangeModel {
        ExchangeModel { variant, config, progress: Progress::Binding, started: 0 }
    }

    /// What the exchange waits for: the request that is under way, or
    /// nothing more once it has completed or failed.
    pub open spec fn pending(self) -> DirectiveModel {
        match self.progress {
            Progress::Binding => DirectiveModel::Perform(
                RequestModel::Bind { local: self.config.local },
            ),
            Progress::Sending => DirectiveModel::Perform(
                RequestModel::SendTo { buffer: self.config.payload, target: self.config.target },
            ),
            Progress::Receiving { .. } => DirectiveModel::Perform(
                RequestModel::RecvFrom { buffer: blank(self.config.capacity as nat) },
            ),
            Progress::Completed { .. } => DirectiveModel::Halt,
            Progress::Failed { .. } => DirectiveModel::Halt,
        }
    }

    /// The exchange once the request under way has been begun with the
    /// clock at `now`: the reading is noted, and nothing else changes.
    pub open spec fn begun(self, now: u128) -> ExchangeModel {
        ExchangeModel { started: now, ..self }
    }

    /// How far the exchange has come once `event` has been reported with
    /// the clock at `now`. The time that the request took is counted from
    /// the reading at which it was begun.
    ///
    /// A success moves on to the next request, whatever the number of bytes
    /// it names: a send that took fewer bytes than the payload has, and a
    /// reply of no bytes at all, are successes. A failure stops the exchange.
    /// An event that does not answer the request under way changes nothing.
    pub open spec fn progress_after(self, event: EventModel, now: u128) -> Progress {
        match (self.progress, event) {
            (Progress::Binding, EventModel::Bound { bound: Ok(_) }) => Progress::Sending,
            (Progress::Binding, EventModel::Bound { bound: Err(class) }) => Progress::Failed {
                failure: IoFailure { stage: Stage::Bind, class },
            },
            (Progress::Sending, EventModel::Sent { sent: Ok(_) }) => Progress::Receiving {
                send_micros: elapsed(self.started, now),
            },
            (Progress::Sending, EventModel::Sent { sent: Err(class) }) => Progress::Failed {
                failure: IoFailure { stage: Stage::Send, class },
            },
            (
                Progress::Receiving { send_micros },
                EventModel::Received { buffer, received: Ok(arrival) },
            ) => Progress::Completed {
                sample: SampleModel {
                    send_micros,
                    recv_micros: elapsed(self.started, now),
                    reply: leading(buffer, arrival.0 as nat),
                },
            },
            (Progress::Receiving { .. }, EventModel::Received { received: Err(class), .. }) => {
                Progress::Failed { failure: IoFailure { stage: Stage::Receive, class } }
            },
            _ => self.progress,
        }
    }

    /// The exchange once `event` has been reported with the clock at
    /// `now`. The reading noted for the request stays as it is.
    pub open spec fn advance(self, event: EventModel, now: u128) -> ExchangeModel {
        ExchangeModel { progress: self.progress_after(event, now), ..self }
    }

    /// The line to print when `event` is reported with the clock at `now`,
    /// if there is one. It names the time that the request took.
    ///
    /// A send is reported once it has succeeded. So is a receive; the
    /// variant that reports a receive before looking at its result reports a
    /// failed one too.
    pub open spec fn printed(self, event: EventModel, now: u128) -> Option<Seq<char>> {
        match (self.progress, event) {
            (Progress::Sending, EventModel::Sent { sent: Ok(_) }) => Some(
                spec_send_line(self.variant, elapsed(self.started, now) as nat),
            ),
            (Progress::Receiving { .. }, EventModel::Received { received: Ok(_), .. }) => Some(
                spec_recv_line(self.variant, elapsed(self.started, now) as nat),
            ),
            (Progress::Receiving { .. }, EventModel::Received { received: Err(_), .. }) => {
                if self.variant.spec_reports_failed_receive() {
                    Some(spec_recv_line(self.variant, elapsed(self.started, now) as nat))
                } else {
                    None
                }
            },
            _ => None,
        }
    }

    /// The result of the exchange, once it has one.
    pub open spec fn outcome(self) -> Option<Result<SampleModel, IoFailure>> {
        match self.progress {
            Progress::Completed { sample } => Some(Ok(sample)),
            Progress::Failed { failure } => Some(Err(failure)),
            _ => None,
        }
    }

    /// A completed exchange made ready to send `payload` on the socket it
    /// has bound; any other exchange as it is.
    pub open spec fn renewed(self, payload: Seq<u8>) -> ExchangeModel {
        match self.progress {
            Progress::Completed { .. } => ExchangeModel {
                config: ConfigModel { payload, ..self.config },
                progress: Progress::Sending,
                ..self
            },
            _ => self,
        }
    }
}

/// What reporting an event to an exchange brings about.
#[derive(Debug, PartialEq, Eq)]
pub struct Step {
    /// A line for standard output.
    pub print: Option<String>,
    /// What the exchange waits for now.
    pub next: Directive,
}

/// The mathematical value of a [`Step`].
pub struct StepModel {
    pub print: Option<Seq<char>>,
    pub next: DirectiveModel,
}

impl View for Step {
    type V = StepModel;

    open spec fn view(&self) -> StepModel {
        StepModel {
            print: match self.print {
                Some(line) => Some(line@),
                None => None,
            },
            next: self.next@,
        }
    }
}

#[derive(Clone, Copy, Debug, PartialEq, Eq, Structural)]
enum Phase {
    Binding,
    Sending,
    Receiving,
    Completed,
    Failed,
}

/// One client routine: bind, send the payload, await the reply.
#[derive(Debug)]
pub struct Exchange {
    variant: Variant,
    config: ExchangeConfig,
    phase: Phase,
    /// Where the clock of this exchange stands at zero.
    epoch: Instant,
    /// The reading at which the request under way was begun.
    started: u128,
    /// Meaningful once the send has succeeded.
    send_micros: u128,
    /// Meaningful once the exchange has completed.
    recv_micros: u128,
    /// Meaningful once the exchange has completed.
    reply: Vec<u8>,
    /// Meaningful once the exchange has failed.
    failure: IoFailure,
}

impl View for Exchange {
    type V = ExchangeModel;

    closed spec fn view(&self) -> ExchangeModel {
        ExchangeModel {
            variant: self.variant,
            config: self.config@,
            progress: match self.phase {
                Phase::Binding => Progress::Binding,
                Phase::Sending => Progress::Sending,
                Phase::Receiving => Progress::Receiving { send_micros: self.send_micros },
                Phase::Completed => Progress::Completed {
                    sample: SampleModel {
                        send_micros: self.send_micros,
                        recv_micros: self.recv_micros,
                        reply: self.reply@,
                    },
                },
                Phase::Failed => Progress::Failed { failure: self.failure },
            },
            started: self.started,
        }
    }
}

impl Exchange {
    /// A new exchange of the given variant. It has bound no socket yet.
    pub fn new(variant: Variant, config: ExchangeConfig) -> (exchange: Exchange)
        ensures
            exchange@ == ExchangeModel::initial(variant, config@),
    {
        Exchange {
            variant,
            config,
            phase: Phase::Binding,
            epoch: Instant::now(),
            started: 0,
            send_micros: 0,
            recv_micros: 0,
            reply: Vec::new(),
            failure: IoFailure { stage: Stage::Bind, class: FailureClass::Other },
        }
    }

    /// The variant that the exchange runs as.
    pub fn variant(&self) -> (variant: Variant)
        ensures
            variant == self@.variant,
    {
        self.variant
    }

    /// What the exchange waits for.
    pub fn pending(&self) -> (directive: Directive)
        ensures
            directive@ == self@.pending(),
    {
        match self.phase {
            Phase::Binding => Directive::Perform(Request::Bind { local: self.config.local }),
            Phase::Sending => {
                let buffer = copy_bytes(&self.config.payload);
                Directive::Perform(Request::SendTo { buffer, target: self.config.target })
            },
            Phase::Receiving => Directive::Perform(
                Request::RecvFrom { buffer: blank_buffer(self.config.capacity) },
            ),
            Phase::Completed => Directive::Halt,
            Phase::Failed => Directive::Halt,
        }
    }

    /// The result of the exchange: `None` while a request is under way.
    pub fn outcome(&self) -> (outcome: Option<Result<Sample, IoFailure>>)
        ensures
            outcome_model(outcome) == self@.outcome(),
    {
        match self.phase {
            Phase::Completed => Some(
                Ok(
                    Sample {
                        send_micros: self.send_micros,
                        recv_micros: self.recv_micros,
                        reply: copy_bytes(&self.reply),
                    },
                ),
            ),
            Phase::Failed => Some(Err(self.failure)),
            _ => None,
        }
    }

    /// Begins the request under way with the clock at `now`: from this
    /// reading the time of the request is counted.
    pub fn begin_at(&mut self, now: u128)
        ensures
            final(self)@ == old(self)@.begun(now),
    {
        self.started = now;
    }

    /// Begins the request under way: reads the clock and notes the reading,
    /// which it returns. To be called just before the request is carried
    /// out, once anything else, such as printing, is done.
    pub fn begin(&mut self) -> (now: u128)
        ensures
            final(self)@ == old(self)@.begun(now),
    {
        let now = micros_since(self.epoch);
        self.begin_at(now);
        now
    }

    /// Reports `event`, the completion of the request under way, as having
    /// come with the clock at `now`.
    ///
    /// This is the whole of the routine's logic, with the clock's reading
    /// as an argument.
    pub fn step_at(&mut self, event: Event, now: u128) -> (step: Step)
        ensures
            final(self)@ == old(self)@.advance(event@, now),
            step@ == (StepModel {
                print: old(self)@.printed(event@, now),
                next: final(self)@.pending(),
            }),
    {
        let micros = if now >= self.started {
            now - self.started
        } else {
            0
        };
        let mut print: Option<String> = None;
        match event {
            Event::Bound { bound } => {
                if self.phase == Phase::Binding {
                    match bound {
                        Ok(_) => {
                            self.phase = Phase::Sending;
                        },
                        Err(class) => {
                            self.failure = IoFailure { stage: Stage::Bind, class };
                            self.phase = Phase::Failed;
                        },
                    }
                }
            },
            Event::Sent { sent } => {
                if self.phase == Phase::Sending {
                    match sent {
                        Ok(_) => {
                            self.send_micros = micros;
                            self.phase = Phase::Receiving;
                            print = Some(send_line(self.variant, micros));
                        },
                        Err(class) => {
                            self.failure = IoFailure { stage: Stage::Send, class };
                            self.phase = Phase::Failed;
                        },
                    }
                }
            },
            Event::Received { buffer, received } => {
                if self.phase == Phase::Receiving {
                    match received {
                        Ok(arrival) => {
                            self.recv_micros = micros;
                            self.reply = copy_leading(&buffer, arrival.0);
                            self.phase = Phase::Completed;
                            print = Some(recv_line(self.variant, micros));
                        },
                        Err(class) => {
                            self.failure = IoFailure { stage: Stage::Receive, class };
                            self.phase = Phase::Failed;
                            if self.variant.reports_failed_receive() {
                                print = Some(recv_line(self.variant, micros));
                            }
                        },
                    }
                }
            },
        }
        let next = self.pending();
        Step { print, next }
    }

    /// Reports `event`, the completion of the request under way, as having
    /// come now.
    ///
    /// The clock is read, so the reading may be any number; whatever it is,
    /// the exchange goes on as [`Self::step_at`] says for that reading. The
    /// reading noted when the request was begun is not touched.
    pub fn step(&mut self, event: Event) -> (step: Step)
        ensures
            exists|now: u128|
                {
                    &&& final(self)@ == old(self)@.advance(event@, now)
                    &&& step@ == (StepModel {
                        print: #[trigger] old(self)@.printed(event@, now),
                        next: final(self)@.pending(),
                    })
                },
    {
        let now = micros_since(self.epoch);
        self.step_at(event, now)
    }

    /// Makes a completed exchange ready for another round on the socket it
    /// has bound, with `payload` to send; changes nothing otherwise. The
    /// sample of the round before is gone from the exchange.
    pub fn renew(&mut self, payload: Vec<u8>) -> (directive: Directive)
        ensures
            final(self)@ == old(self)@.renewed(payload@),
            directive@ == final(self)@.pending(),
    {
        if self.phase == Phase::Completed {
            self.config.payload = payload;
            self.phase = Phase::Sending;
        }
        self.pending()
    }
}

} // verus!
