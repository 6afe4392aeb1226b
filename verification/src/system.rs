//! The whole controller as one state machine over interrupt events. Because
//! the dispatcher totally orders handler invocations (see [`crate::dispatch`]:
//! critical sections exclude, and the configured equal priorities never
//! preempt), each handler's effect on the shared state is atomic, and the
//! system's observable behaviour is exactly this serialized model: one event
//! in, one handler's worth of state change out.

use vstd::prelude::*;

verus! {

use crate::framing::FrameBuffer;
use crate::framing::accum_model;
use crate::framing::frames_model;
use crate::framing::is_delimiter;
use crate::framing::push_model;
use crate::periodic::Liveness;
use crate::periodic::periodic_step;
use crate::periodic::status_query_spec;
use crate::receive::DisplayAction;
use crate::receive::on_byte;
use crate::text::trim_of;
use vstd::utf8::decode_utf8;
use vstd::utf8::valid_utf8;

/// One interrupt's worth of outside input.
#[derive(Clone, Copy, Debug, PartialEq, Eq)]
pub enum Event {
    /// The serial peripheral raised its interrupt; the payload is what the
    /// non-blocking read then found: a byte, or nothing (a spurious or
    /// already-drained interrupt, not an error).
    SerialIrq(Option<u8>),
    /// The hardware timer raised its period-elapsed interrupt.
    TimerIrq,
}

/// The mathematical state of the controller: the in-progress frame, the
/// liveness indicator's level, every byte ever transmitted, and every text
/// ever drawn on the display (one entry per full clear-draw-flush cycle).
pub struct SystemModel {
    /// Content of the receive accumulator.
    pub buf: Seq<u8>,
    /// Level of the liveness indicator.
    pub led_on: bool,
    /// All bytes transmitted over the serial link, in order.
    pub tx: Seq<u8>,
    /// All texts drawn and flushed to the display, in order.
    pub shown: Seq<Seq<char>>,
}

/// How one event transforms the controller's state: a timer period toggles
/// the indicator and transmits one status query; an empty serial poll changes
/// nothing; a byte advances the accumulation; a delimiter completes a frame,
/// which is displayed exactly when its bytes decode as UTF-8 (trimmed) and
/// discarded otherwise, the accumulator ending empty either way.
pub open spec fn step_model(s: SystemModel, ev: Event) -> SystemModel {
    match ev {
        Event::TimerIrq => SystemModel { led_on: !s.led_on, tx: s.tx + status_query_spec(), ..s },
        Event::SerialIrq(None) => s,
        Event::SerialIrq(Some(b)) => {
            if is_delimiter(b) {
                SystemModel {
                    buf: Seq::empty(),
                    shown: if valid_utf8(s.buf) {
                        s.shown.push(trim_of(decode_utf8(s.buf)))
                    } else {
                        s.shown
                    },
                    ..s
                }
            } else {
                SystemModel { buf: push_model(s.buf, b), ..s }
            }
        },
    }
}

/// [`step_model`] folded over a whole event sequence.
pub open spec fn run_model(s: SystemModel, events: Seq<Event>) -> SystemModel
    decreases events.len(),
{
    if events.len() == 0 {
        s
    } else {
        step_model(run_model(s, events.drop_last()), events.last())
    }
}

/// The state the controller starts in: everything empty, the indicator off.
pub open spec fn init_model() -> SystemModel {
    SystemModel { buf: Seq::empty(), led_on: false, tx: Seq::empty(), shown: Seq::empty() }
}

/// The controller's shared and local state, with its observable history: the
/// transmit log stands for the serial link's outbound side, the shown log for
/// the display panel.
pub struct System {
    buf: FrameBuffer,
    led: Liveness,
    tx_log: Vec<u8>,
    shown: Vec<String>,
}

impl View for System {
    type V = SystemModel;

    closed spec fn view(&self) -> SystemModel {
        SystemModel {
            buf: self.buf@,
            led_on: self.led.is_on(),
            tx: self.tx_log@,
            shown: self.shown.deep_view(),
        }
    }
}

impl System {
    /// The controller's standing invariant.
    pub closed spec fn wf(&self) -> bool {
        self.buf.wf()
    }

    /// The controller as it comes up after initialization.
    pub fn new() -> (s: System)
        ensures
            s.wf(),
            s@ == init_model(),
    {
        let s = System {
            buf: FrameBuffer::new(),
            led: Liveness::new(),
            tx_log: Vec::new(),
            shown: Vec::new(),
        };
        proof {
            assert(s@.shown =~= init_model().shown);
            assert(s@ == init_model());
        }
        s
    }

    /// Dispatch one event to its handler; the state changes exactly as
    /// [`step_model`] says.
    pub fn step(&mut self, ev: Event)
        requires
            old(self).wf(),
        ensures
            final(self).wf(),
            final(self)@ == step_model(old(self)@, ev),
    {
        match ev {
            Event::TimerIrq => {
                let q = periodic_step(&mut self.led);
                let ghost pre = *self;
                let mut i: usize = 0;
                while i < q.len()
                    invariant
                        i <= q.len(),
                        q@ == status_query_spec(),
                        self.buf == pre.buf,
                        self.led == pre.led,
                        self.shown == pre.shown,
                        self.tx_log@ == pre.tx_log@ + q@.take(i as int),
                    decreases q.len() - i,
                {
                    self.tx_log.push(q[i]);
                    proof {
                        assert(pre.tx_log@ + q@.take(i as int + 1) =~= (pre.tx_log@ + q@.take(
                            i as int,
                        )).push(q@[i as int]));
                    }
                    i += 1;
                }
                proof {
                    assert(q@.take(q@.len() as int) =~= q@);
                    assert(self@ == step_model(old(self)@, ev));
                }
            },
            Event::SerialIrq(None) => {},
            Event::SerialIrq(Some(b)) => {
                match on_byte(&mut self.buf, b) {
                    DisplayAction::Show(t) => {
                        self.shown.push(t);
                        proof {
                            assert(self@.shown =~= step_model(old(self)@, ev).shown);
                        }
                    },
                    DisplayAction::Idle => {},
                }
            },
        }
    }

    /// Replay a whole sequence of interrupt events in order.
    pub fn run(&mut self, events: &Vec<Event>)
        requires
            old(self).wf(),
        ensures
            final(self).wf(),
            final(self)@ == run_model(old(self)@, events@),
    {
        let ghost pre = *self;
        let mut i: usize = 0;
        while i < events.len()
            invariant
                i <= events.len(),
                self.wf(),
                self@ == run_model(pre@, events@.take(i as int)),
            decreases events.len() - i,
        {
            self.step(events[i]);
            proof {
                assert(events@.take(i as int + 1).drop_last() =~= events@.take(i as int));
                assert(events@.take(i as int + 1).last() == events@[i as int]);
            }
            i += 1;
        }
        proof {
            assert(events@.take(events@.len() as int) =~= events@);
        }
    }

    /// The liveness indicator's current level.
    pub fn led_on(&self) -> (b: bool)
        ensures
            b == self@.led_on,
    {
        self.led.level()
    }

    /// Every byte transmitted over the serial link so far, in order.
    pub fn tx_log(&self) -> (log: &Vec<u8>)
        ensures
            log@ == self@.tx,
    {
        &self.tx_log
    }

    /// Every text drawn and flushed to the display so far, in order.
    pub fn shown(&self) -> (texts: &Vec<String>)
        ensures
            texts.deep_view() == self@.shown,
    {
        &self.shown
    }

    /// The number of bytes currently sitting in the receive accumulator.
    pub fn pending_len(&self) -> (n: usize)
        ensures
            n == self@.buf.len(),
    {
        self.buf.len()
    }
}

/// The number of timer periods in an event sequence.
pub open spec fn timer_count(events: Seq<Event>) -> nat
    decreases events.len(),
{
    if events.len() == 0 {
        0
    } else {
        timer_count(events.drop_last()) + (if events.last() is TimerIrq {
            1nat
        } else {
            0nat
        })
    }
}

/// The transmit traffic of `n` periods: `n` status queries back to back.
pub open spec fn queries(n: nat) -> Seq<u8>
    decreases n,
{
    if n == 0 {
        Seq::empty()
    } else {
        queries((n - 1) as nat) + status_query_spec()
    }
}

/// Periodic independence: across any event sequence, the liveness indicator
/// ends at its starting level flipped once per timer period — it alternates
/// — and exactly one status query is transmitted per timer period, the
/// transmit log growing by nothing else, however much receive activity is
/// interleaved.
pub proof fn lemma_periodic_independence(s: SystemModel, events: Seq<Event>)
    ensures
        run_model(s, events).led_on == (if timer_count(events) % 2 == 0 {
            s.led_on
        } else {
            !s.led_on
        }),
        run_model(s, events).tx == s.tx + queries(timer_count(events)),
    decreases events.len(),
{
    if events.len() == 0 {
        assert(s.tx + queries(0) =~= s.tx);
    } else {
        let t = events.drop_last();
        lemma_periodic_independence(s, t);
        let prev = run_model(s, t);
        match events.last() {
            Event::TimerIrq => {
                assert(timer_count(events) == timer_count(t) + 1);
                assert(prev.tx + status_query_spec() =~= s.tx + queries(timer_count(events)));
            },
            Event::SerialIrq(b) => {
                assert(timer_count(events) == timer_count(t));
                assert(run_model(s, events).tx == prev.tx);
            },
        }
    }
}

/// Empty-frame handling: a delimiter arriving while the accumulator is empty
/// completes an empty frame, and that frame is still displayed — as the empty
/// text, without fault — while the accumulator stays empty.
pub proof fn lemma_empty_frame_is_displayed(s: SystemModel)
    requires
        s.buf == Seq::<u8>::empty(),
    ensures
        step_model(s, Event::SerialIrq(Some(10u8))).shown == s.shown.push(
            trim_of(decode_utf8(s.buf)),
        ),
        step_model(s, Event::SerialIrq(Some(10u8))).buf == Seq::<u8>::empty(),
{
    assert(valid_utf8(s.buf));
}

/// The serial interrupts that deliver a byte stream, one byte per interrupt.
pub open spec fn serial_events(bs: Seq<u8>) -> Seq<Event> {
    Seq::new(bs.len(), |i: int| Event::SerialIrq(Some(bs[i])))
}

/// The texts a sequence of completed frames puts on the display: each frame
/// that decodes as UTF-8, trimmed, in order; frames that do not decode are
/// dropped.
pub open spec fn displayed_of(frames: Seq<Seq<u8>>) -> Seq<Seq<char>>
    decreases frames.len(),
{
    if frames.len() == 0 {
        Seq::empty()
    } else if valid_utf8(frames.last()) {
        displayed_of(frames.drop_last()).push(trim_of(decode_utf8(frames.last())))
    } else {
        displayed_of(frames.drop_last())
    }
}

/// The running system refines the framing model: delivering a byte stream to
/// a fresh controller leaves in the accumulator exactly what
/// [`accum_model`] accumulates and shows exactly the decodable frames of
/// [`frames_model`], trimmed and in order — and receive activity alone never
/// moves the indicator or transmits a byte. Through this, the framing laws
/// of [`crate::framing`] carry over to the whole system.
pub proof fn lemma_receive_refines_framing(bs: Seq<u8>)
    ensures
        run_model(init_model(), serial_events(bs)).buf == accum_model(bs),
        run_model(init_model(), serial_events(bs)).shown == displayed_of(frames_model(bs)),
        run_model(init_model(), serial_events(bs)).led_on == false,
        run_model(init_model(), serial_events(bs)).tx == Seq::<u8>::empty(),
    decreases bs.len(),
{
    if bs.len() == 0 {
        assert(serial_events(bs) =~= Seq::<Event>::empty());
    } else {
        let t = bs.drop_last();
        lemma_receive_refines_framing(t);
        assert(serial_events(bs).drop_last() =~= serial_events(t));
        assert(serial_events(bs).last() == Event::SerialIrq(Some(bs.last())));
        if is_delimiter(bs.last()) {
            let fs = frames_model(t);
            let f = accum_model(t);
            assert(fs.push(f).drop_last() =~= fs);
            assert(fs.push(f).last() == f);
        }
    }
}

} // verus!
