use vstd::prelude::*;

use crate::touch::{is_touched, touched};

verus! {

/// HID usage ID of the "Page Down" key, the key that a touch sends.
pub const KEY_PAGE_DOWN: u8 = 0x4E;
/// Pause between two checks of the link while no host is connected.
pub const DISCONNECTED_POLL_MS: u32 = 100;
/// Pause after a key press, so that one long touch turns only one page.
pub const AFTER_PRESS_PAUSE_MS: u32 = 2000;
/// Pause between two samples of the touch pad.
pub const SAMPLE_PERIOD_MS: u32 = 200;

/// What the main loop does next.
#[derive(Debug, Clone, Copy, PartialEq, Eq)]
pub enum Poll {
    /// No host is connected: wait, then check again.
    WaitForConnection { delay_ms: u32 },
    /// A host is connected: read the touch pad and hand the reading to
    /// `PageTurner::on_sample`.
    ReadTouchPad,
}

/// What the main loop does with one reading of the touch pad.
#[derive(Debug, Clone, Copy, PartialEq, Eq)]
pub struct SampleOutcome {
    /// The key to send to the host, if any.
    pub key: Option<u8>,
    /// How long to pause after sending the key (0 when none is sent).
    pub pause_ms: u32,
    /// How long to wait before the next sample.
    pub next_sample_ms: u32,
}

/// Debouncing state of the page turner: whether the previous reading was a touch.
pub struct PageTurner {
    was_touched: bool,
}

/// A reading sends a key when it is a touch and the reading before was not.
pub open spec fn fires(was_touched: bool, reading: u16) -> bool {
    touched(reading) && !was_touched
}

/// For each reading of a run, whether it sends a key, when the run starts
/// after a reading whose touch state was `was_touched`.
pub open spec fn presses(readings: Seq<u16>, was_touched: bool) -> Seq<bool>
    decreases readings.len(),
{
    if readings.len() == 0 {
        Seq::empty()
    } else {
        seq![fires(was_touched, readings[0])] + presses(
            readings.drop_first(),
            touched(readings[0]),
        )
    }
}

/// Whether the reading at `i` is a rising edge: a touch whose predecessor
/// (or, for the first reading, the state before the run) was not a touch.
pub open spec fn rising_edge(readings: Seq<u16>, was_touched: bool, i: int) -> bool {
    touched(readings[i]) && !(if i == 0 {
        was_touched
    } else {
        touched(readings[i - 1])
    })
}

/// The main loop waits while no host is connected and samples the pad otherwise.
pub fn poll(connected: bool) -> (next: Poll)
    ensures
        !connected ==> next == (Poll::WaitForConnection { delay_ms: DISCONNECTED_POLL_MS }),
        connected ==> next == Poll::ReadTouchPad,
{
    if connected {
        Poll::ReadTouchPad
    } else {
        Poll::WaitForConnection { delay_ms: DISCONNECTED_POLL_MS }
    }
}

impl View for PageTurner {
    type V = bool;

    closed spec fn view(&self) -> bool {
        self.was_touched
    }
}

impl PageTurner {
    /// A page turner that has seen no touch yet.
    pub fn new() -> (turner: Self)
        ensures
            turner@ == false,
    {
        PageTurner { was_touched: false }
    }

    /// Whether the last reading handed to `on_sample` was a touch.
    pub fn was_touched(&self) -> (res: bool)
        ensures
            res == self@,
    {
        self.was_touched
    }

    /// Handles one reading of the touch pad: a new touch sends "Page Down" and
    /// pauses; a touch that goes on, or no touch, sends nothing.
    pub fn on_sample(&mut self, reading: u16) -> (outcome: SampleOutcome)
        ensures
            final(self)@ == touched(reading),
            fires(old(self)@, reading) ==> outcome == (SampleOutcome {
                key: Some(KEY_PAGE_DOWN),
                pause_ms: AFTER_PRESS_PAUSE_MS,
                next_sample_ms: SAMPLE_PERIOD_MS,
            }),
            !fires(old(self)@, reading) ==> outcome == (SampleOutcome {
                key: None,
                pause_ms: 0,
                next_sample_ms: SAMPLE_PERIOD_MS,
            }),
    {
        let touched_now = is_touched(reading);
        let fire = touched_now && !self.was_touched;
        self.was_touched = touched_now;
        if fire {
            SampleOutcome {
                key: Some(KEY_PAGE_DOWN),
                pause_ms: AFTER_PRESS_PAUSE_MS,
                next_sample_ms: SAMPLE_PERIOD_MS,
            }
        } else {
            SampleOutcome { key: None, pause_ms: 0, next_sample_ms: SAMPLE_PERIOD_MS }
        }
    }
}

/// Over any run of readings, a key is sent for exactly the readings that are
/// rising edges: a touch right after a reading that was no touch.
pub proof fn lemma_presses_are_rising_edges(readings: Seq<u16>, was_touched: bool)
    ensures
        presses(readings, was_touched).len() == readings.len(),
        forall|i: int|
            0 <= i < readings.len() ==> #[trigger] presses(readings, was_touched)[i]
                == rising_edge(readings, was_touched, i),
    decreases readings.len(),
{
    if readings.len() > 0 {
        let rest = readings.drop_first();
        lemma_presses_are_rising_edges(rest, touched(readings[0]));
        assert forall|i: int| 0 <= i < readings.len() implies #[trigger] presses(
            readings,
            was_touched,
        )[i] == rising_edge(readings, was_touched, i) by {
            if i > 0 {
                assert(presses(readings, was_touched)[i] == presses(rest, touched(readings[0]))[i
                    - 1]);
                assert(rest[i - 1] == readings[i]);
                if i > 1 {
                    assert(rest[i - 2] == readings[i - 1]);
                }
            }
        }
    }
}

/// A touch that lasts for several readings sends one key only: two readings
/// in a row never both send a key.
pub proof fn lemma_no_two_presses_in_a_row(readings: Seq<u16>, was_touched: bool, i: int)
    requires
        0 <= i,
        i + 1 < readings.len(),
    ensures
        !(presses(readings, was_touched)[i] && presses(readings, was_touched)[i + 1]),
{
    lemma_presses_are_rising_edges(readings, was_touched);
    assert(presses(readings, was_touched)[i] == rising_edge(readings, was_touched, i));
    assert(presses(readings, was_touched)[i + 1] == rising_edge(readings, was_touched, i + 1));
}

} // verus!
