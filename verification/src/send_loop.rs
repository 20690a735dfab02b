//! The pace of a send transfer: bursts of packets, short sleeps, and the
//! decision to move on or to give up.
//!
//! The loop itself runs in the caller, which owns the socket and the
//! clock. After every packet it has sent and after every sleep it asks
//! `SendLoop::step` what to do next.

use vstd::prelude::*;
use crate::config::{SIZE_TRANSFER_WAVE, TIMEOUT_MAX};
use crate::envelope::MessagePart;
use crate::error::RldpError;
use crate::node::{averaged, timed_out, timeout_for, RldpNode, TransferView};
use crate::send::{
    checked, chunked, coherent, envelope, finished, in_step, started, SendModel, SendTransfer,
    SendTransferModel, SendTransferState,
};

verus! {

/// Where a send loop stands.
#[derive(Clone, Copy, Debug, PartialEq, Eq, Structural)]
pub enum SendPhase {
    /// Between two slices: the next one is to be started.
    Idle,
    /// Within the slice `part`, whose bursts are `wave` packets long;
    /// `left` packets of the current burst are still to go out, and
    /// `recv_seqno` is the confirmed identifier that was seen last.
    Burst { part: u32, wave: u32, left: u32, recv_seqno: u32 },
    /// At its end, with or without success.
    Over { ok: bool },
}

/// A send loop as a mathematical value.
pub struct SendLoopModel {
    /// Milliseconds to wait for news before giving up.
    pub timeout: u64,
    /// Roundtrip estimate in milliseconds; zero while there is none.
    pub roundtrip: u64,
    pub phase: SendPhase,
}

/// What the caller is told to do, as a mathematical value.
pub enum ActionModel {
    /// Send the symbol with this identifier and these bytes.
    Transmit(u32, Seq<u8>),
    /// Sleep for `SPINNER` milliseconds.
    Sleep,
    /// Stop: the message was delivered or not, and this is the roundtrip
    /// estimate to go on with.
    Finished(bool, u64),
    /// Stop on an error.
    Failed(RldpError),
}

/// Everything after one step of the loop.
pub struct SendOutcome {
    pub looped: SendLoopModel,
    pub transfer: SendTransferModel,
    pub state: SendModel,
    pub action: ActionModel,
    /// Whether the caller is to start measuring time anew.
    pub reset_clock: bool,
}

/// A burst is at least one and at most `SIZE_TRANSFER_WAVE` packets long.
pub open spec fn paced(l: SendLoopModel) -> bool {
    l.phase matches SendPhase::Burst { wave, left, .. } ==> 1 <= wave <= SIZE_TRANSFER_WAVE && left
        <= wave
}

/// The loop and the sender's side speak of the same slice.
pub open spec fn coupled(l: SendLoopModel, t: SendTransferModel) -> bool {
    l.phase matches SendPhase::Burst { part, .. } ==> t.part == part && t.encoder is Some
}

/// The roundtrip estimate that is reported when the peer has gone
/// silent: twice the estimate, and the longest wait at most.
pub open spec fn backed_off(roundtrip: u64) -> u64 {
    if roundtrip * 2 < TIMEOUT_MAX {
        (roundtrip * 2) as u64
    } else {
        TIMEOUT_MAX
    }
}

/// The loop after a measurement was taken into the roundtrip estimate.
pub open spec fn measured(l: SendLoopModel, elapsed: u64) -> SendLoopModel {
    SendLoopModel {
        roundtrip: averaged(l.roundtrip, elapsed),
        timeout: timeout_for(Some(averaged(l.roundtrip, elapsed))),
        ..l
    }
}

/// The next packet of the burst goes out; an error from the encoder ends
/// the loop.
pub open spec fn emitted(
    l: SendLoopModel,
    t: SendTransferModel,
    m: SendModel,
    reset_clock: bool,
) -> SendOutcome {
    let c = chunked(t, m);
    match (l.phase, c.symbol) {
        (SendPhase::Burst { part, wave, left, recv_seqno }, Ok((seqno, data))) => SendOutcome {
            looped: SendLoopModel {
                phase: SendPhase::Burst { part, wave, left: (left - 1) as u32, recv_seqno },
                ..l
            },
            transfer: c.transfer,
            state: c.state,
            action: ActionModel::Transmit(seqno, data),
            reset_clock,
        },
        (_, Err(e)) => SendOutcome {
            looped: SendLoopModel { phase: SendPhase::Over { ok: false }, ..l },
            transfer: t,
            state: m,
            action: ActionModel::Failed(e),
            reset_clock,
        },
        (_, _) => SendOutcome { looped: l, transfer: t, state: m, action: ActionModel::Sleep, reset_clock },
    }
}

/// The next slice is started. Where the message has none, the loop ends
/// with success. Else the clock starts anew and the first burst begins, as
/// long as the slice has symbols and no longer than
/// `SIZE_TRANSFER_WAVE`.
pub open spec fn begun(l: SendLoopModel, t: SendTransferModel, m: SendModel) -> SendOutcome {
    let s = started(t, m);
    if s.symbols == 0 {
        SendOutcome {
            looped: SendLoopModel { phase: SendPhase::Over { ok: true }, ..l },
            transfer: s.transfer,
            state: m,
            action: ActionModel::Finished(true, l.roundtrip),
            reset_clock: false,
        }
    } else {
        let wave = if s.symbols < SIZE_TRANSFER_WAVE {
            s.symbols
        } else {
            SIZE_TRANSFER_WAVE
        };
        emitted(
            SendLoopModel {
                phase: SendPhase::Burst { part: m.part, wave, left: wave, recv_seqno: 0 },
                ..l
            },
            s.transfer,
            m,
            true,
        )
    }
}

/// What the caller's event leads to within a slice that is neither
/// done nor moved on.
///
/// After a packet has gone out, the next one of the burst follows, and a
/// sleep follows the last one. After a sleep, news from the peer is taken
/// into the roundtrip estimate and starts the clock anew; without news
/// and beyond the wait the loop ends without success and reports the
/// backed-off roundtrip; in both other cases a new burst begins.
pub open spec fn continued(
    l: SendLoopModel,
    t: SendTransferModel,
    m: SendModel,
    event: SendEvent,
    elapsed: u64,
) -> SendOutcome {
    match l.phase {
        SendPhase::Burst { part, wave, left, recv_seqno } => match event {
            SendEvent::Ready => if left > 0 {
                emitted(l, t, m, false)
            } else {
                SendOutcome { looped: l, transfer: t, state: m, action: ActionModel::Sleep, reset_clock: false }
            },
            SendEvent::Woke => if m.seqno_recv > recv_seqno {
                emitted(
                    SendLoopModel {
                        phase: SendPhase::Burst { part, wave, left: wave, recv_seqno: m.seqno_recv },
                        ..measured(l, elapsed)
                    },
                    t,
                    m,
                    true,
                )
            } else if timed_out(l.timeout, recv_seqno, elapsed) {
                SendOutcome {
                    looped: SendLoopModel {
                        roundtrip: backed_off(l.roundtrip),
                        phase: SendPhase::Over { ok: false },
                        ..l
                    },
                    transfer: t,
                    state: m,
                    action: ActionModel::Finished(false, backed_off(l.roundtrip)),
                    reset_clock: false,
                }
            } else {
                emitted(
                    SendLoopModel { phase: SendPhase::Burst { part, wave, left: wave, recv_seqno }, ..l },
                    t,
                    m,
                    false,
                )
            },
        },
        _ => SendOutcome { looped: l, transfer: t, state: m, action: ActionModel::Sleep, reset_clock: false },
    }
}

/// One step of the send loop.
///
/// A loop that is over says so again. A loop between two slices starts
/// the next one. Within a slice the shared state is looked at first: an
/// inconsistent slice index ends the loop with an error; a slice that is
/// done, or moved on by the peer, is closed by taking its duration into
/// the roundtrip estimate, and then the loop ends with success where the
/// message is delivered, and the next slice is started where it is not;
/// else the caller's event decides.
pub open spec fn stepped(
    l: SendLoopModel,
    t: SendTransferModel,
    m: SendModel,
    event: SendEvent,
    elapsed: u64,
) -> SendOutcome {
    match l.phase {
        SendPhase::Over { ok } => SendOutcome {
            looped: l,
            transfer: t,
            state: m,
            action: ActionModel::Finished(ok, l.roundtrip),
            reset_clock: false,
        },
        SendPhase::Idle => begun(l, t, m),
        SendPhase::Burst { part, .. } => match checked(m, t.data.len(), part) {
            Err(e) => SendOutcome {
                looped: SendLoopModel { phase: SendPhase::Over { ok: false }, ..l },
                transfer: t,
                state: m,
                action: ActionModel::Failed(e),
                reset_clock: false,
            },
            Ok(true) => if finished(m, t.data.len()) {
                SendOutcome {
                    looped: SendLoopModel { phase: SendPhase::Over { ok: true }, ..measured(l, elapsed) },
                    transfer: t,
                    state: m,
                    action: ActionModel::Finished(true, measured(l, elapsed).roundtrip),
                    reset_clock: false,
                }
            } else {
                begun(SendLoopModel { phase: SendPhase::Idle, ..measured(l, elapsed) }, t, m)
            },
            Ok(false) => continued(l, t, m, event, elapsed),
        },
    }
}

/// What has just happened on the caller's side.
#[derive(Clone, Copy, Debug, PartialEq, Eq, Structural)]
pub enum SendEvent {
    /// The loop begins, or the packet handed out last has gone out.
    Ready,
    /// The sleep asked for last is over.
    Woke,
}

/// What the caller is to do next.
#[derive(Clone, Debug, PartialEq, Eq)]
pub enum SendAction {
    /// Send this packet, then come back with `Ready`.
    Transmit(MessagePart),
    /// Sleep for `SPINNER` milliseconds, then come back with `Woke`.
    Sleep,
    /// Stop: the message was delivered or not, and this is the roundtrip
    /// estimate to go on with.
    Finished(bool, u64),
}

/// An action, and whether the caller is to start measuring time anew
/// before it carries the action out.
#[derive(Clone, Debug, PartialEq, Eq)]
pub struct SendStep {
    pub action: SendAction,
    pub reset_clock: bool,
}

/// The action in a step's result, as a mathematical value.
pub open spec fn action_of(step: Result<SendStep, RldpError>) -> ActionModel {
    match step {
        Ok(step) => match step.action {
            SendAction::Transmit(message) => ActionModel::Transmit(message.seqno, message.data@),
            SendAction::Sleep => ActionModel::Sleep,
            SendAction::Finished(ok, roundtrip) => ActionModel::Finished(ok, roundtrip),
        },
        Err(e) => ActionModel::Failed(e),
    }
}

/// The pace of one send transfer.
#[derive(Clone, Copy, Debug)]
pub struct SendLoop {
    timeout: u64,
    roundtrip: u64,
    phase: SendPhase,
}

impl View for SendLoop {
    type V = SendLoopModel;

    closed spec fn view(&self) -> SendLoopModel {
        SendLoopModel { timeout: self.timeout, roundtrip: self.roundtrip, phase: self.phase }
    }
}

impl SendLoop {
    #[verifier::type_invariant]
    spec fn inv(self) -> bool {
        paced(self@)
    }

    /// A loop that has not begun, with the caller's roundtrip estimate
    /// if it has one.
    pub fn new(roundtrip: Option<u64>) -> (looped: Self)
        ensures
            looped@ == (SendLoopModel {
                timeout: timeout_for(roundtrip),
                roundtrip: match roundtrip {
                    Some(roundtrip) => roundtrip,
                    None => 0,
                },
                phase: SendPhase::Idle,
            }),
    {
        Self {
            timeout: RldpNode::calc_timeout(roundtrip),
            roundtrip: match roundtrip {
                Some(roundtrip) => roundtrip,
                None => 0,
            },
            phase: SendPhase::Idle,
        }
    }

    /// The roundtrip estimate as it stands.
    pub fn roundtrip(&self) -> (roundtrip: u64)
        ensures
            roundtrip == self@.roundtrip,
            paced(self@),
    {
        proof {
            use_type_invariant(self);
        }
        self.roundtrip
    }

    /// Milliseconds to wait for news before giving up.
    pub fn timeout(&self) -> (timeout: u64)
        ensures
            timeout == self@.timeout,
    {
        self.timeout
    }

    /// Where the loop stands.
    pub fn phase(&self) -> (phase: SendPhase)
        ensures
            phase == self@.phase,
    {
        self.phase
    }

    fn measure(&mut self, elapsed: u64)
        ensures
            final(self)@ == measured(old(self)@, elapsed),
    {
        proof {
            use_type_invariant(&*self);
        }
        let mut roundtrip = self.roundtrip;
        let timeout = RldpNode::update_roundtrip(&mut roundtrip, elapsed);
        self.roundtrip = roundtrip;
        self.timeout = timeout;
    }

    fn emit(
        &mut self,
        transfer: &mut SendTransfer,
        state: &mut SendTransferState,
        reset_clock: bool,
    ) -> (step: Result<SendStep, RldpError>)
        requires
            old(transfer).wf(),
            old(self)@.phase matches SendPhase::Burst { left, .. } && left > 0,
        ensures
            final(transfer).wf(),
            final(self)@ == emitted(old(self)@, old(transfer)@, old(state)@, reset_clock).looped,
            final(transfer)@ == emitted(
                old(self)@,
                old(transfer)@,
                old(state)@,
                reset_clock,
            ).transfer,
            final(state)@ == emitted(old(self)@, old(transfer)@, old(state)@, reset_clock).state,
            action_of(step) == emitted(old(self)@, old(transfer)@, old(state)@, reset_clock).action,
            step matches Ok(s) ==> s.reset_clock == reset_clock,
            step matches Ok(SendStep { action: SendAction::Transmit(message), .. }) ==> message
                == envelope(old(transfer)@, message.seqno, message.data),
            in_step(final(state)@),
    {
        proof {
            use_type_invariant(&*self);
        }
        match transfer.prepare_chunk(state) {
            Ok(message) => {
                match self.phase {
                    SendPhase::Burst { part, wave, left, recv_seqno } => {
                        self.phase = SendPhase::Burst { part, wave, left: left - 1, recv_seqno };
                    },
                    _ => {},
                }
                Ok(SendStep { action: SendAction::Transmit(message), reset_clock })
            },
            Err(e) => {
                self.phase = SendPhase::Over { ok: false };
                Err(e)
            },
        }
    }

    fn begin(&mut self, transfer: &mut SendTransfer, state: &mut SendTransferState) -> (step: Result<
        SendStep,
        RldpError,
    >)
        requires
            old(transfer).wf(),
        ensures
            final(transfer).wf(),
            final(self)@ == begun(old(self)@, old(transfer)@, old(state)@).looped,
            final(transfer)@ == begun(old(self)@, old(transfer)@, old(state)@).transfer,
            final(state)@ == begun(old(self)@, old(transfer)@, old(state)@).state,
            action_of(step) == begun(old(self)@, old(transfer)@, old(state)@).action,
            step matches Ok(s) ==> s.reset_clock == begun(
                old(self)@,
                old(transfer)@,
                old(state)@,
            ).reset_clock,
            step matches Ok(SendStep { action: SendAction::Transmit(message), .. }) ==> message
                == envelope(final(transfer)@, message.seqno, message.data),
            in_step(final(state)@),
    {
        proof {
            use_type_invariant(&*self);
        }
        let current = state.part();
        let symbols = transfer.start_next_part(state);
        if symbols == 0 {
            self.phase = SendPhase::Over { ok: true };
            return Ok(
                SendStep { action: SendAction::Finished(true, self.roundtrip), reset_clock: false },
            );
        }
        let wave = if symbols < SIZE_TRANSFER_WAVE {
            symbols
        } else {
            SIZE_TRANSFER_WAVE
        };
        self.phase = SendPhase::Burst { part: current, wave, left: wave, recv_seqno: 0 };
        self.emit(transfer, state, true)
    }

    /// Says what to do next, after `event` and `elapsed` milliseconds on
    /// the caller's clock.
    pub fn step(
        &mut self,
        transfer: &mut SendTransfer,
        state: &mut SendTransferState,
        event: SendEvent,
        elapsed: u64,
    ) -> (step: Result<SendStep, RldpError>)
        requires
            old(transfer).wf(),
        ensures
            final(transfer).wf(),
            final(self)@ == stepped(old(self)@, old(transfer)@, old(state)@, event, elapsed).looped,
            final(transfer)@ == stepped(
                old(self)@,
                old(transfer)@,
                old(state)@,
                event,
                elapsed,
            ).transfer,
            final(state)@ == stepped(old(self)@, old(transfer)@, old(state)@, event, elapsed).state,
            action_of(step) == stepped(
                old(self)@,
                old(transfer)@,
                old(state)@,
                event,
                elapsed,
            ).action,
            step matches Ok(s) ==> s.reset_clock == stepped(
                old(self)@,
                old(transfer)@,
                old(state)@,
                event,
                elapsed,
            ).reset_clock,
            step matches Ok(SendStep { action: SendAction::Transmit(message), .. }) ==> message
                == envelope(final(transfer)@, message.seqno, message.data),
            in_step(final(state)@),
            paced(final(self)@),
    {
        proof {
            use_type_invariant(&*self);
        }
        let _ = state.part();
        let step = match self.phase {
            SendPhase::Over { ok } => Ok(
                SendStep { action: SendAction::Finished(ok, self.roundtrip), reset_clock: false },
            ),
            SendPhase::Idle => self.begin(transfer, state),
            SendPhase::Burst { part, wave, left, recv_seqno } => {
                match transfer.is_finished_or_next_part(state, part) {
                    Err(e) => {
                        self.phase = SendPhase::Over { ok: false };
                        Err(e)
                    },
                    Ok(true) => {
                        self.measure(elapsed);
                        if transfer.is_finished(state) {
                            self.phase = SendPhase::Over { ok: true };
                            Ok(
                                SendStep {
                                    action: SendAction::Finished(true, self.roundtrip),
                                    reset_clock: false,
                                },
                            )
                        } else {
                            self.phase = SendPhase::Idle;
                            self.begin(transfer, state)
                        }
                    },
                    Ok(false) => match event {
                        SendEvent::Ready => {
                            if left > 0 {
                                self.emit(transfer, state, false)
                            } else {
                                Ok(SendStep { action: SendAction::Sleep, reset_clock: false })
                            }
                        },
                        SendEvent::Woke => {
                            let new_recv_seqno = state.seqno_recv();
                            if new_recv_seqno > recv_seqno {
                                self.measure(elapsed);
                                self.phase = SendPhase::Burst {
                                    part,
                                    wave,
                                    left: wave,
                                    recv_seqno: new_recv_seqno,
                                };
                                self.emit(transfer, state, true)
                            } else if RldpNode::is_timed_out(self.timeout, recv_seqno, elapsed) {
                                let roundtrip = if self.roundtrip < TIMEOUT_MAX / 2 {
                                    self.roundtrip * 2
                                } else {
                                    TIMEOUT_MAX
                                };
                                self.roundtrip = roundtrip;
                                self.phase = SendPhase::Over { ok: false };
                                Ok(
                                    SendStep {
                                        action: SendAction::Finished(false, roundtrip),
                                        reset_clock: false,
                                    },
                                )
                            } else {
                                self.phase = SendPhase::Burst { part, wave, left: wave, recv_seqno };
                                self.emit(transfer, state, false)
                            }
                        },
                    },
                }
            },
        };
        proof {
            use_type_invariant(&*self);
        }
        step
    }
}

impl RldpNode {
    /// One step of the send loop of the transfer that `transfer` names,
    /// on the shared state that the registry holds for it.
    ///
    /// Where the registry holds no send transfer under that identifier,
    /// nothing happens and the step fails.
    pub fn send_step(
        &mut self,
        looped: &mut SendLoop,
        transfer: &mut SendTransfer,
        event: SendEvent,
        elapsed: u64,
    ) -> (step: Result<SendStep, RldpError>)
        requires
            old(transfer).wf(),
        ensures
            final(transfer).wf(),
            match old(self).transfers().get(old(transfer)@.transfer_id@) {
                Some(TransferView::Send(state)) => {
                    let outcome = stepped(old(looped)@, old(transfer)@, state, event, elapsed);
                    &&& final(looped)@ == outcome.looped
                    &&& final(transfer)@ == outcome.transfer
                    &&& final(self).transfers() == old(self).transfers().insert(
                        old(transfer)@.transfer_id@,
                        TransferView::Send(outcome.state),
                    )
                    &&& action_of(step) == outcome.action
                    &&& step matches Ok(s) ==> s.reset_clock == outcome.reset_clock
                    &&& step matches Ok(SendStep { action: SendAction::Transmit(message), .. })
                        ==> message == envelope(final(transfer)@, message.seqno, message.data)
                },
                _ => {
                    &&& step == Err::<SendStep, RldpError>(RldpError::UnknownTransfer)
                    &&& final(looped)@ == old(looped)@
                    &&& final(transfer)@ == old(transfer)@
                    &&& final(self).transfers() == old(self).transfers()
                },
            },
    {
        let id = transfer.transfer_id();
        match self.send_state(&id) {
            Some(mut state) => {
                let step = looped.step(transfer, &mut state, event, elapsed);
                self.insert(id, crate::node::RldpTransfer::Send(state));
                step
            },
            None => Err(RldpError::UnknownTransfer),
        }
    }
}

// ---------------------------------------------------------------------
// Laws of the send loop
// ---------------------------------------------------------------------

/// Every packet that the loop hands out is for the slice at which the
/// shared state stands, and the loop and the sender's side go on
/// speaking of the same slice.
pub proof fn transmits_current_part(
    l: SendLoopModel,
    t: SendTransferModel,
    m: SendModel,
    event: SendEvent,
    elapsed: u64,
)
    requires
        paced(l),
        coupled(l, t),
        coherent(t),
    ensures
        coupled(stepped(l, t, m, event, elapsed).looped, stepped(l, t, m, event, elapsed).transfer),
        paced(stepped(l, t, m, event, elapsed).looped),
        stepped(l, t, m, event, elapsed).transfer.data == t.data,
        stepped(l, t, m, event, elapsed).transfer.transfer_id == t.transfer_id,
        stepped(l, t, m, event, elapsed).action is Transmit ==> stepped(
            l,
            t,
            m,
            event,
            elapsed,
        ).transfer.part == stepped(l, t, m, event, elapsed).state.part,
{
}

/// A loop that gives up reports twice its roundtrip estimate, and the
/// longest wait at most; it gives up only after a sleep, without news
/// from the peer, and beyond the wait.
pub proof fn gives_up_backed_off(
    l: SendLoopModel,
    t: SendTransferModel,
    m: SendModel,
    event: SendEvent,
    elapsed: u64,
    roundtrip: u64,
)
    requires
        !(l.phase is Over),
        stepped(l, t, m, event, elapsed).action == ActionModel::Finished(false, roundtrip),
    ensures
        roundtrip == backed_off(l.roundtrip),
        roundtrip <= TIMEOUT_MAX,
        event == SendEvent::Woke,
        l.phase matches SendPhase::Burst { recv_seqno, .. } && m.seqno_recv <= recv_seqno
            && timed_out(l.timeout, recv_seqno, elapsed),
{
}

/// A loop reports success only when the message is delivered or the
/// shared slice index points past the message's end.
pub proof fn finishes_when_delivered(
    l: SendLoopModel,
    t: SendTransferModel,
    m: SendModel,
    event: SendEvent,
    elapsed: u64,
    roundtrip: u64,
)
    requires
        !(l.phase is Over),
        stepped(l, t, m, event, elapsed).action == ActionModel::Finished(true, roundtrip),
    ensures
        crate::send::finished(m, t.data.len()) || !crate::send::has_slice(
            t.data.len(),
            m.part as nat,
        ),
{
}

// ---------------------------------------------------------------------
// The loop against a peer that stays silent
// ---------------------------------------------------------------------

/// The shared state of a transfer to which nothing has come back: no
/// reply, no `Confirm`, no `Complete`.
pub open spec fn silent(m: SendModel) -> bool {
    m.part == 0 && !m.reply && m.seqno_recv == 0
}

/// A loop that has not ended and has seen nothing come back.
pub open spec fn unanswered(l: SendLoopModel) -> bool {
    match l.phase {
        SendPhase::Idle => true,
        SendPhase::Burst { part, recv_seqno, .. } => part == 0 && recv_seqno == 0,
        SendPhase::Over { .. } => false,
    }
}

/// One step against a silent peer: the packet that goes out, if one does,
/// is of the first slice; the estimate and the wait stay as they are; and
/// the loop ends in no other way than by giving up with the backed-off
/// estimate, or on an identifier that no repair symbol can carry.
pub proof fn silent_peer_step(
    l: SendLoopModel,
    t: SendTransferModel,
    m: SendModel,
    event: SendEvent,
    elapsed: u64,
)
    requires
        paced(l),
        coupled(l, t),
        coherent(t),
        silent(m),
        unanswered(l),
        t.data.len() > 0,
    ensures
        ({
            let o = stepped(l, t, m, event, elapsed);
            &&& silent(o.state)
            &&& paced(o.looped)
            &&& coupled(o.looped, o.transfer)
            &&& coherent(o.transfer)
            &&& o.transfer.data == t.data
            &&& o.looped.phase is Over || (unanswered(o.looped) && o.looped.roundtrip
                == l.roundtrip && o.looped.timeout == l.timeout)
            &&& match o.action {
                ActionModel::Transmit(_, _) => o.transfer.part == 0 && !(o.looped.phase is Over),
                ActionModel::Sleep => !(o.looped.phase is Over),
                ActionModel::Finished(ok, roundtrip) => !ok && roundtrip == backed_off(l.roundtrip)
                    && event == SendEvent::Woke && o.looped == (SendLoopModel {
                    roundtrip,
                    phase: SendPhase::Over { ok: false },
                    ..l
                }),
                ActionModel::Failed(e) => e == RldpError::CannotEncodeRepair && o.looped.phase
                    == (SendPhase::Over { ok: false }),
            }
        }),
{
}

/// What a loop has come to after a run of events, each with the
/// milliseconds on the caller's clock, against a shared state that
/// nothing but the loop itself touches.
pub open spec fn run(
    l: SendLoopModel,
    t: SendTransferModel,
    m: SendModel,
    events: Seq<(SendEvent, u64)>,
) -> SendOutcome
    decreases events.len(),
{
    if events.len() == 0 {
        SendOutcome { looped: l, transfer: t, state: m, action: ActionModel::Sleep, reset_clock: false }
    } else {
        let before = run(l, t, m, events.drop_last());
        stepped(before.looped, before.transfer, before.state, events.last().0, events.last().1)
    }
}

/// Whether a step of a run has ended on an error.
pub open spec fn failed(
    l: SendLoopModel,
    t: SendTransferModel,
    m: SendModel,
    events: Seq<(SendEvent, u64)>,
) -> bool
    decreases events.len(),
{
    events.len() > 0 && (run(l, t, m, events).action is Failed || failed(
        l,
        t,
        m,
        events.drop_last(),
    ))
}

/// A whole run against a silent peer: whatever the caller's events and
/// clock, every packet that goes out is of the first slice, and where the
/// loop says that it has finished, it says so without success and with
/// twice the estimate it began with, the longest wait at most, unless an
/// earlier step ended on an error.
pub proof fn silent_peer_run(
    l: SendLoopModel,
    t: SendTransferModel,
    m: SendModel,
    events: Seq<(SendEvent, u64)>,
)
    requires
        paced(l),
        coupled(l, t),
        coherent(t),
        silent(m),
        unanswered(l),
        t.data.len() > 0,
        events.len() > 0,
    ensures
        ({
            let o = run(l, t, m, events);
            &&& silent(o.state)
            &&& o.transfer.data == t.data
            &&& o.action is Transmit ==> o.transfer.part == 0
            &&& o.action matches ActionModel::Finished(ok, roundtrip) ==> !ok && (roundtrip
                == backed_off(l.roundtrip) || failed(l, t, m, events))
            &&& unanswered(o.looped) ==> o.looped.roundtrip == l.roundtrip && o.looped.timeout
                == l.timeout && paced(o.looped) && coupled(o.looped, o.transfer) && coherent(
                o.transfer,
            )
            &&& !unanswered(o.looped) ==> o.looped.phase == (SendPhase::Over { ok: false }) && (
            o.looped.roundtrip == backed_off(l.roundtrip) || failed(l, t, m, events))
        }),
    decreases events.len(),
{
    let earlier = events.drop_last();
    let (event, elapsed) = events.last();
    if earlier.len() == 0 {
        silent_peer_step(l, t, m, event, elapsed);
    } else {
        silent_peer_run(l, t, m, earlier);
        let before = run(l, t, m, earlier);
        if unanswered(before.looped) {
            silent_peer_step(before.looped, before.transfer, before.state, event, elapsed);
        }
    }
}

} // verus!
