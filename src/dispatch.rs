//! What each exception and hardware interrupt handler decides: what it
//! reports, which vector it acknowledges, and whether execution resumes.
//! The port reads, the output and the acknowledgment itself are left to
//! the caller, which carries the decision out.

use vstd::prelude::*;
use pc_keyboard::DecodedKey;
use crate::interrupts::InterruptIndex;
use crate::keyboard::{decode_step, Decoder};

verus! {

/// An exception or interrupt as delivered by the processor.
#[derive(Clone, Copy, Debug, PartialEq, Eq, Structural)]
pub enum Event {
    Breakpoint,
    DoubleFault,
    Timer,
    /// The keyboard interrupt, with the byte read from the keyboard's data
    /// port.
    Keyboard(u8),
}

/// What a handler hands to the output sink.
#[derive(Clone, Copy, Debug, PartialEq, Eq)]
pub enum Output {
    /// The breakpoint report, with the trapped context.
    BreakpointReport,
    /// The one report of a double fault.
    DoubleFaultReport,
    /// The timer's heartbeat.
    Tick,
    /// A key decoded from the keyboard.
    Key(DecodedKey),
}

/// Where execution goes when the handler is done.
#[derive(Clone, Copy, Debug, PartialEq, Eq, Structural)]
pub enum Next {
    /// Return to the interrupted code, right where it stopped.
    Resume,
    /// Stop in an idle wait, for good.
    Halt,
}

/// A handler's decision.
#[derive(Clone, Copy, Debug, PartialEq, Eq)]
pub struct Response {
    pub output: Option<Output>,
    /// The vector to acknowledge at the interrupt controllers, as the last
    /// thing before leaving the handler.
    pub acknowledge: Option<u8>,
    pub next: Next,
}

/// The vector that an event arrives on, where it comes through the
/// interrupt controllers.
pub open spec fn hardware_vector(ev: Event) -> Option<u8> {
    match ev {
        Event::Timer => Some(InterruptIndex::Timer.vector()),
        Event::Keyboard(_) => Some(InterruptIndex::Keyboard.vector()),
        _ => None,
    }
}

/// The response `r` to `ev`, taken with the kernel halted or not, and
/// whether it is halted afterwards. Once halted, nothing more is reported or
/// acknowledged. A breakpoint is reported and resumed; a double fault is
/// reported and halts; each hardware interrupt is acknowledged on its own
/// vector, the timer with a tick, the keyboard with at most one key.
pub open spec fn responds(halted: bool, ev: Event, r: Response, halted_after: bool) -> bool {
    if halted {
        &&& r.output is None
        &&& r.acknowledge is None
        &&& r.next is Halt
        &&& halted_after
    } else {
        &&& r.acknowledge == hardware_vector(ev)
        &&& match ev {
            Event::Breakpoint => r.output == Some(Output::BreakpointReport),
            Event::DoubleFault => r.output == Some(Output::DoubleFaultReport),
            Event::Timer => r.output == Some(Output::Tick),
            Event::Keyboard(_) => r.output is None || r.output matches Some(Output::Key(_)),
        }
        &&& (r.next is Halt <==> ev is DoubleFault)
        &&& (halted_after <==> ev is DoubleFault)
    }
}

/// A run of the handlers: `halted[i]` is whether the kernel was halted
/// when `events[i]` arrived, `responses[i]` what the handler decided, and
/// `halted[i + 1]` whether it was halted afterwards.
pub open spec fn is_run(halted: Seq<bool>, events: Seq<Event>, responses: Seq<Response>) -> bool {
    &&& halted.len() == events.len() + 1
    &&& responses.len() == events.len()
    &&& forall|i: int|
        0 <= i < events.len() ==> responds(halted[i], events[i], responses[i], halted[i + 1])
}

/// How many of the first `n` responses acknowledge `vector`.
pub open spec fn acknowledgments(responses: Seq<Response>, vector: u8, n: nat) -> nat
    decreases n,
{
    if n == 0 {
        0
    } else {
        acknowledgments(responses, vector, (n - 1) as nat) + if responses[n - 1].acknowledge
            == Some(vector) {
            1nat
        } else {
            0nat
        }
    }
}

/// How many of the first `n` events arrived on `vector` through the
/// controllers while the kernel was running.
pub open spec fn deliveries(halted: Seq<bool>, events: Seq<Event>, vector: u8, n: nat) -> nat
    decreases n,
{
    if n == 0 {
        0
    } else {
        deliveries(halted, events, vector, (n - 1) as nat) + if !halted[n - 1] && hardware_vector(
            events[n - 1],
        ) == Some(vector) {
            1nat
        } else {
            0nat
        }
    }
}

/// How many of the first `n` responses report a double fault.
pub open spec fn fatal_reports(responses: Seq<Response>, n: nat) -> nat
    decreases n,
{
    if n == 0 {
        0
    } else {
        fatal_reports(responses, (n - 1) as nat) + if responses[n - 1].output == Some(
            Output::DoubleFaultReport,
        ) {
            1nat
        } else {
            0nat
        }
    }
}

/// Whether a double fault is among the first `n` events.
pub open spec fn faulted(events: Seq<Event>, n: int) -> bool {
    exists|i: int| 0 <= i < n && events[i] is DoubleFault
}

proof fn lemma_acknowledgments_prefix(
    halted: Seq<bool>,
    events: Seq<Event>,
    responses: Seq<Response>,
    vector: u8,
    n: nat,
)
    requires
        is_run(halted, events, responses),
        n <= events.len(),
    ensures
        acknowledgments(responses, vector, n) == deliveries(halted, events, vector, n),
    decreases n,
{
    if n > 0 {
        let k = n - 1;
        lemma_acknowledgments_prefix(halted, events, responses, vector, k as nat);
        assert(responds(halted[k], events[k], responses[k], halted[k + 1]));
    }
}

/// Every hardware interrupt delivered while the kernel runs is acknowledged
/// exactly once, on its own vector: for each vector, the acknowledgments
/// equal the deliveries.
pub proof fn lemma_acknowledgments_match_deliveries(
    halted: Seq<bool>,
    events: Seq<Event>,
    responses: Seq<Response>,
    vector: u8,
)
    requires
        is_run(halted, events, responses),
    ensures
        acknowledgments(responses, vector, responses.len()) == deliveries(
            halted,
            events,
            vector,
            events.len(),
        ),
{
    lemma_acknowledgments_prefix(halted, events, responses, vector, events.len());
}

proof fn lemma_fatal_prefix(halted: Seq<bool>, events: Seq<Event>, responses: Seq<Response>, n: nat)
    requires
        is_run(halted, events, responses),
        !halted[0],
        n <= events.len(),
    ensures
        halted[n as int] == faulted(events, n as int),
        fatal_reports(responses, n) == if faulted(events, n as int) {
            1nat
        } else {
            0nat
        },
    decreases n,
{
    if n == 0 {
        assert(!faulted(events, 0));
    } else {
        let k = n - 1;
        lemma_fatal_prefix(halted, events, responses, k as nat);
        assert(responds(halted[k], events[k], responses[k], halted[k + 1]));
        if faulted(events, k) {
            let w = choose|i: int| 0 <= i < k && events[i] is DoubleFault;
            assert(0 <= w < k + 1 && events[w] is DoubleFault);
        } else if events[k] is DoubleFault {
            assert(0 <= k < k + 1 && events[k] is DoubleFault);
        } else {
            assert forall|i: int| 0 <= i < k + 1 implies !(events[i] is DoubleFault) by {
                if i < k {
                    assert(!(0 <= i < k && events[i] is DoubleFault));
                }
            }
        }
    }
}

/// A run that starts with the kernel running reports a double fault
/// exactly once if one arrives, and never otherwise; from that fault on the
/// kernel is halted, and nothing is output, acknowledged or resumed.
pub proof fn lemma_single_fatal_report(
    halted: Seq<bool>,
    events: Seq<Event>,
    responses: Seq<Response>,
)
    requires
        is_run(halted, events, responses),
        !halted[0],
    ensures
        fatal_reports(responses, responses.len()) == if faulted(events, events.len() as int) {
            1nat
        } else {
            0nat
        },
        halted[events.len() as int] == faulted(events, events.len() as int),
        forall|i: int|
            0 <= i < events.len() && faulted(events, i) ==> responses[i].output is None
                && responses[i].acknowledge is None && responses[i].next is Halt,
{
    lemma_fatal_prefix(halted, events, responses, events.len());
    assert forall|i: int|
        0 <= i < events.len() && faulted(events, i) implies responses[i].output is None
            && responses[i].acknowledge is None && responses[i].next is Halt by {
        lemma_fatal_prefix(halted, events, responses, i as nat);
        assert(responds(halted[i], events[i], responses[i], halted[i + 1]));
    }
}

/// The state that the handlers share: the keyboard decoder, and whether a
/// double fault has halted the kernel.
pub struct InterruptHandlers {
    decoder: Decoder,
    halted: bool,
}

impl InterruptHandlers {
    pub closed spec fn decoder_spec(self) -> Decoder {
        self.decoder
    }

    pub closed spec fn is_halted(self) -> bool {
        self.halted
    }

    pub open spec fn wf(self) -> bool {
        self.decoder_spec().wf()
    }

    pub fn new() -> (r: InterruptHandlers)
        ensures
            r.wf(),
            !r.is_halted(),
            !r.decoder_spec().pending(),
    {
        InterruptHandlers { decoder: Decoder::new(), halted: false }
    }

    pub fn halted(&self) -> (r: bool)
        ensures
            r == self.is_halted(),
    {
        self.halted
    }

    fn silent() -> (r: Response)
        ensures
            r.output is None,
            r.acknowledge is None,
            r.next is Halt,
    {
        Response { output: None, acknowledge: None, next: Next::Halt }
    }

    /// The breakpoint trap: report it and resume.
    pub fn breakpoint_handler(&mut self) -> (r: Response)
        requires
            old(self).wf(),
        ensures
            *final(self) == *old(self),
            responds(old(self).is_halted(), Event::Breakpoint, r, final(self).is_halted()),
    {
        if self.halted {
            return Self::silent();
        }
        Response { output: Some(Output::BreakpointReport), acknowledge: None, next: Next::Resume }
    }

    /// The double fault: report it once and halt for good.
    pub fn double_fault_handler(&mut self) -> (r: Response)
        requires
            old(self).wf(),
        ensures
            final(self).wf(),
            final(self).decoder_spec() == old(self).decoder_spec(),
            responds(old(self).is_halted(), Event::DoubleFault, r, final(self).is_halted()),
    {
        if self.halted {
            return Self::silent();
        }
        self.halted = true;
        Response { output: Some(Output::DoubleFaultReport), acknowledge: None, next: Next::Halt }
    }

    /// The timer interrupt: one tick, then the acknowledgment.
    pub fn timer_handler(&mut self) -> (r: Response)
        requires
            old(self).wf(),
        ensures
            *final(self) == *old(self),
            responds(old(self).is_halted(), Event::Timer, r, final(self).is_halted()),
    {
        if self.halted {
            return Self::silent();
        }
        Response {
            output: Some(Output::Tick),
            acknowledge: Some(InterruptIndex::Timer.as_u8()),
            next: Next::Resume,
        }
    }

    /// The keyboard interrupt, with the byte read from the data port: the
    /// byte goes to the decoder, the key it completes, if any, is output,
    /// then the acknowledgment.
    pub fn keyboard_interrupt_handler(&mut self, scancode: u8) -> (r: Response)
        requires
            old(self).wf(),
        ensures
            final(self).wf(),
            final(self).is_halted() == old(self).is_halted(),
            responds(old(self).is_halted(), Event::Keyboard(scancode), r, final(self).is_halted()),
            old(self).is_halted() ==> final(self).decoder_spec() == old(self).decoder_spec(),
            !old(self).is_halted() ==> decode_step(
                old(self).decoder_spec(),
                scancode,
                final(self).decoder_spec(),
                r.output is Some,
            ),
            r.output matches Some(o) ==> o is Key,
    {
        if self.halted {
            return Self::silent();
        }
        let output = match self.decoder.decode(scancode) {
            Some(key) => Some(Output::Key(key)),
            None => None,
        };
        Response {
            output,
            acknowledge: Some(InterruptIndex::Keyboard.as_u8()),
            next: Next::Resume,
        }
    }

    /// Runs the handler that `ev` calls for.
    pub fn handle(&mut self, ev: Event) -> (r: Response)
        requires
            old(self).wf(),
        ensures
            final(self).wf(),
            responds(old(self).is_halted(), ev, r, final(self).is_halted()),
            !(ev is Keyboard) ==> final(self).decoder_spec() == old(self).decoder_spec(),
            ev is Keyboard && !old(self).is_halted() ==> decode_step(
                old(self).decoder_spec(),
                ev->Keyboard_0,
                final(self).decoder_spec(),
                r.output is Some,
            ),
    {
        match ev {
            Event::Breakpoint => self.breakpoint_handler(),
            Event::DoubleFault => self.double_fault_handler(),
            Event::Timer => self.timer_handler(),
            Event::Keyboard(b) => self.keyboard_interrupt_handler(b),
        }
    }
}

} // verus!
