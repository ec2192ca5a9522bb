//! The program as a state machine. Each state names one action for the board
//! to perform; the board reports whether it succeeded, and the machine moves
//! on. Any failure halts the machine for good.
use crate::display::{Display, Element, Font, Point, Screen};
use crate::text::Text;
use vstd::prelude::*;

verus! {

/// Timer ticks waited after the splash image is shown, before the loop.
pub const DELAY_TICKS: u8 = 10;

/// Frequency of the timer tick, in hertz.
pub const TICK_HZ: u32 = 2;

/// Clock rate of the two-wire display bus, in hertz.
pub const BUS_HZ: u32 = 400_000;

/// Horizontal position of the unit that follows the counter.
pub const UNIT_X: i32 = 104;

/// Vertical position of the counter and its unit.
pub const COUNTER_Y: i32 = 32;

/// One step for the board to perform.
#[derive(Clone, Copy, Debug, PartialEq, Eq, Structural)]
pub enum Action {
    /// Run the display's power-on handshake.
    InitDisplay,
    /// Reset the frame buffer to the background.
    ClearDisplay,
    /// Draw an element into the frame buffer.
    Draw(Element),
    /// Send the frame buffer to the screen.
    FlushDisplay,
    /// Block until the next timer tick.
    WaitTick,
    /// Drive the LED pin high.
    LedHigh,
    /// Drive the LED pin low.
    LedLow,
    /// Stop for good.
    Halt,
}

/// How the last action went.
#[derive(Clone, Copy, Debug, PartialEq, Eq, Structural)]
pub enum Event {
    Done,
    Failed,
}

/// Where the program stands.
#[derive(Clone, Copy, Debug, PartialEq, Eq, Structural)]
pub enum Stage {
    Start,
    SplashClear,
    SplashDraw,
    SplashFlush,
    /// The pre-loop delay, after `waited` ticks.
    Delay { waited: u8 },
    WaitHigh,
    High,
    WaitLow,
    Low,
    Clear,
    DrawCounter,
    DrawUnit,
    DrawTitle,
    Flush,
    Halted,
}

/// The state of the whole program, as the contracts see it.
pub struct State {
    pub stage: Stage,
    /// Completed loop iterations, modulo 2^32.
    pub counter: u32,
    /// Whether the LED pin is driven high; it starts low.
    pub led_high: bool,
    pub screen: Screen,
}

pub open spec fn splash_element() -> Element {
    Element::Splash { at: Point { x: 0, y: 0 } }
}

pub open spec fn counter_element(c: u32) -> Element {
    Element::Label { text: Text::Counter(c), at: Point { x: 0, y: COUNTER_Y }, font: Font::Emphasis }
}

pub open spec fn unit_element() -> Element {
    Element::Label { text: Text::Unit, at: Point { x: UNIT_X, y: COUNTER_Y }, font: Font::Emphasis }
}

pub open spec fn title_element() -> Element {
    Element::Label { text: Text::Title, at: Point { x: 0, y: 0 }, font: Font::Body }
}

/// The splash frame.
pub open spec fn splash_frame() -> Seq<Element> {
    seq![splash_element()]
}

/// The frame that shows counter value `c`.
pub open spec fn counter_frame(c: u32) -> Seq<Element> {
    seq![counter_element(c), unit_element(), title_element()]
}

/// The counter after one more iteration: it wraps from `u32::MAX` to zero.
pub open spec fn next_count(c: u32) -> u32 {
    if c == u32::MAX {
        0
    } else {
        (c + 1) as u32
    }
}

/// One more than `c`, wrapping from `u32::MAX` to zero.
pub fn increment(c: u32) -> (r: u32)
    ensures
        r == next_count(c),
{
    c.wrapping_add(1)
}

pub open spec fn initial_state() -> State {
    State { stage: Stage::Start, counter: 0, led_high: false, screen: Screen::blank() }
}

/// The action that a state asks for.
pub open spec fn action_of(s: State) -> Action {
    match s.stage {
        Stage::Start => Action::InitDisplay,
        Stage::SplashClear => Action::ClearDisplay,
        Stage::SplashDraw => Action::Draw(splash_element()),
        Stage::SplashFlush => Action::FlushDisplay,
        Stage::Delay { .. } => Action::WaitTick,
        Stage::WaitHigh => Action::WaitTick,
        Stage::High => Action::LedHigh,
        Stage::WaitLow => Action::WaitTick,
        Stage::Low => Action::LedLow,
        Stage::Clear => Action::ClearDisplay,
        Stage::DrawCounter => Action::Draw(counter_element(s.counter)),
        Stage::DrawUnit => Action::Draw(unit_element()),
        Stage::DrawTitle => Action::Draw(title_element()),
        Stage::Flush => Action::FlushDisplay,
        Stage::Halted => Action::Halt,
    }
}

/// The stage that follows a completed one.
pub open spec fn next_stage(stage: Stage) -> Stage {
    match stage {
        Stage::Start => Stage::SplashClear,
        Stage::SplashClear => Stage::SplashDraw,
        Stage::SplashDraw => Stage::SplashFlush,
        Stage::SplashFlush => Stage::Delay { waited: 0 },
        Stage::Delay { waited } => if waited + 1 >= DELAY_TICKS {
            Stage::WaitHigh
        } else {
            Stage::Delay { waited: (waited + 1) as u8 }
        },
        Stage::WaitHigh => Stage::High,
        Stage::High => Stage::WaitLow,
        Stage::WaitLow => Stage::Low,
        Stage::Low => Stage::Clear,
        Stage::Clear => Stage::DrawCounter,
        Stage::DrawCounter => Stage::DrawUnit,
        Stage::DrawUnit => Stage::DrawTitle,
        Stage::DrawTitle => Stage::Flush,
        Stage::Flush => Stage::WaitHigh,
        Stage::Halted => Stage::Halted,
    }
}

/// What a completed action does to the display.
pub open spec fn screen_after(screen: Screen, a: Action) -> Screen {
    match a {
        Action::ClearDisplay => screen.cleared(),
        Action::Draw(e) => screen.drawn(e),
        Action::FlushDisplay => screen.flushed(),
        _ => screen,
    }
}

/// What a completed action does to the LED.
pub open spec fn led_after(led_high: bool, a: Action) -> bool {
    match a {
        Action::LedHigh => true,
        Action::LedLow => false,
        _ => led_high,
    }
}

/// The state after the board reports `e` on the action of `s`.
pub open spec fn step(s: State, e: Event) -> State {
    if s.stage == Stage::Halted {
        s
    } else {
        match e {
            Event::Failed => State { stage: Stage::Halted, ..s },
            Event::Done => State {
                stage: next_stage(s.stage),
                counter: if s.stage == Stage::Flush {
                    next_count(s.counter)
                } else {
                    s.counter
                },
                led_high: led_after(s.led_high, action_of(s)),
                screen: screen_after(s.screen, action_of(s)),
            },
        }
    }
}

/// The program's decisions, with a record of the LED and the display.
pub struct Grinder {
    stage: Stage,
    counter: u32,
    led_high: bool,
    display: Display,
}

impl View for Grinder {
    type V = State;

    closed spec fn view(&self) -> State {
        State {
            stage: self.stage,
            counter: self.counter,
            led_high: self.led_high,
            screen: self.display@,
        }
    }
}

impl Grinder {
    /// The program before any setup.
    pub fn new() -> (r: Grinder)
        ensures
            r@ == initial_state(),
    {
        Grinder { stage: Stage::Start, counter: 0, led_high: false, display: Display::new() }
    }

    /// The action to perform now.
    pub fn next_action(&self) -> (a: Action)
        ensures
            a == action_of(self@),
    {
        match self.stage {
            Stage::Start => Action::InitDisplay,
            Stage::SplashClear => Action::ClearDisplay,
            Stage::SplashDraw => Action::Draw(Element::Splash { at: Point { x: 0, y: 0 } }),
            Stage::SplashFlush => Action::FlushDisplay,
            Stage::Delay { .. } => Action::WaitTick,
            Stage::WaitHigh => Action::WaitTick,
            Stage::High => Action::LedHigh,
            Stage::WaitLow => Action::WaitTick,
            Stage::Low => Action::LedLow,
            Stage::Clear => Action::ClearDisplay,
            Stage::DrawCounter => Action::Draw(
                Element::Label {
                    text: Text::Counter(self.counter),
                    at: Point { x: 0, y: COUNTER_Y },
                    font: Font::Emphasis,
                },
            ),
            Stage::DrawUnit => Action::Draw(
                Element::Label {
                    text: Text::Unit,
                    at: Point { x: UNIT_X, y: COUNTER_Y },
                    font: Font::Emphasis,
                },
            ),
            Stage::DrawTitle => Action::Draw(
                Element::Label { text: Text::Title, at: Point { x: 0, y: 0 }, font: Font::Body },
            ),
            Stage::Flush => Action::FlushDisplay,
            Stage::Halted => Action::Halt,
        }
    }

    /// Takes the outcome of the current action and returns the next one.
    pub fn on_event(&mut self, e: Event) -> (a: Action)
        ensures
            final(self)@ == step(old(self)@, e),
            a == action_of(final(self)@),
    {
        if self.stage != Stage::Halted {
            match e {
                Event::Failed => {
                    self.stage = Stage::Halted;
                },
                Event::Done => {
                    match self.next_action() {
                        Action::ClearDisplay => self.display.clear(),
                        Action::Draw(el) => self.display.draw(el),
                        Action::FlushDisplay => self.display.flush(),
                        Action::LedHigh => self.led_high = true,
                        Action::LedLow => self.led_high = false,
                        _ => {},
                    }
                    if self.stage == Stage::Flush {
                        self.counter = increment(self.counter);
                    }
                    self.stage = Self::following(self.stage);
                },
            }
        }
        self.next_action()
    }

    fn following(stage: Stage) -> (r: Stage)
        ensures
            r == next_stage(stage),
    {
        match stage {
            Stage::Start => Stage::SplashClear,
            Stage::SplashClear => Stage::SplashDraw,
            Stage::SplashDraw => Stage::SplashFlush,
            Stage::SplashFlush => Stage::Delay { waited: 0 },
            Stage::Delay { waited } => if waited >= DELAY_TICKS - 1 {
                Stage::WaitHigh
            } else {
                Stage::Delay { waited: waited + 1 }
            },
            Stage::WaitHigh => Stage::High,
            Stage::High => Stage::WaitLow,
            Stage::WaitLow => Stage::Low,
            Stage::Low => Stage::Clear,
            Stage::Clear => Stage::DrawCounter,
            Stage::DrawCounter => Stage::DrawUnit,
            Stage::DrawUnit => Stage::DrawTitle,
            Stage::DrawTitle => Stage::Flush,
            Stage::Flush => Stage::WaitHigh,
            Stage::Halted => Stage::Halted,
        }
    }

    /// Completed loop iterations, modulo 2^32.
    pub fn counter(&self) -> (r: u32)
        ensures
            r == self@.counter,
    {
        self.counter
    }

    /// Whether the LED is driven high.
    pub fn led_is_high(&self) -> (r: bool)
        ensures
            r == self@.led_high,
    {
        self.led_high
    }

    /// Whether a failure has stopped the program.
    pub fn is_halted(&self) -> (r: bool)
        ensures
            r == (self@.stage == Stage::Halted),
    {
        self.stage == Stage::Halted
    }

    /// The record of the display's buffer and screen.
    pub fn display(&self) -> (r: &Display)
        ensures
            r@ == self@.screen,
    {
        &self.display
    }
}

} // verus!
