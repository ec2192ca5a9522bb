//! A model of the display driver: drawing goes into a frame buffer, and only
//! a flush makes the buffer visible on the physical screen.
use crate::text::Text;
use vstd::prelude::*;

verus! {

/// A pixel position; the origin is the top-left corner of the screen.
#[derive(Clone, Copy, Debug, PartialEq, Eq, Structural)]
pub struct Point {
    pub x: i32,
    pub y: i32,
}

/// The two fonts that text is drawn in.
#[derive(Clone, Copy, Debug, PartialEq, Eq, Structural)]
pub enum Font {
    /// Glyphs of 12 by 16 pixels.
    Body,
    /// Glyphs of 24 by 32 pixels.
    Emphasis,
}

/// One thing drawn into the frame buffer.
#[derive(Clone, Copy, Debug, PartialEq, Eq, Structural)]
pub enum Element {
    /// The 64 by 64 splash image, with its top-left corner at `at`.
    Splash { at: Point },
    /// A text in the given font, with its top-left corner at `at`.
    Label { text: Text, at: Point, font: Font },
}

/// The state of the display as a whole: what has been drawn since the last
/// clear, and what the physical screen shows. An empty sequence is a blank
/// frame.
pub struct Screen {
    pub buffer: Seq<Element>,
    pub shown: Seq<Element>,
}

impl Screen {
    /// A blank buffer and a blank screen.
    pub open spec fn blank() -> Screen {
        Screen { buffer: Seq::empty(), shown: Seq::empty() }
    }

    /// The buffer is reset to the background; the screen is untouched.
    pub open spec fn cleared(self) -> Screen {
        Screen { buffer: Seq::empty(), shown: self.shown }
    }

    /// `e` is composited over what the buffer holds; the screen is untouched.
    pub open spec fn drawn(self, e: Element) -> Screen {
        Screen { buffer: self.buffer.push(e), shown: self.shown }
    }

    /// The screen now shows the buffer, which is kept.
    pub open spec fn flushed(self) -> Screen {
        Screen { buffer: self.buffer, shown: self.buffer }
    }
}

/// Clearing the buffer and flushing it at once, with nothing drawn between,
/// leaves a blank frame on the screen.
pub proof fn lemma_clear_then_flush_is_blank(s: Screen)
    ensures
        s.cleared().flushed().shown == Seq::<Element>::empty(),
        s.cleared().flushed().buffer == Seq::<Element>::empty(),
{
}

/// The frame buffer and the last frame sent to the screen.
pub struct Display {
    buffer: Vec<Element>,
    shown: Vec<Element>,
}

impl View for Display {
    type V = Screen;

    closed spec fn view(&self) -> Screen {
        Screen { buffer: self.buffer@, shown: self.shown@ }
    }
}

impl Display {
    /// A display whose buffer and screen are blank.
    pub fn new() -> (r: Display)
        ensures
            r@ == Screen::blank(),
    {
        Display { buffer: Vec::new(), shown: Vec::new() }
    }

    /// What has been drawn since the last clear, in order.
    pub fn buffer(&self) -> (r: &Vec<Element>)
        ensures
            r@ == self@.buffer,
    {
        &self.buffer
    }

    /// The frame on the screen, as it was drawn.
    pub fn shown(&self) -> (r: &Vec<Element>)
        ensures
            r@ == self@.shown,
    {
        &self.shown
    }

    /// Resets the buffer to the background colour.
    pub fn clear(&mut self)
        ensures
            final(self)@ == old(self)@.cleared(),
    {
        self.buffer = Vec::new();
    }

    /// Draws `e` into the buffer.
    pub fn draw(&mut self, e: Element)
        ensures
            final(self)@ == old(self)@.drawn(e),
    {
        self.buffer.push(e);
    }

    /// Records that the buffer was sent to the screen.
    pub fn flush(&mut self)
        ensures
            final(self)@ == old(self)@.flushed(),
    {
        let mut frame: Vec<Element> = Vec::new();
        let mut i: usize = 0;
        while i < self.buffer.len()
            invariant
                i <= self.buffer@.len(),
                frame@ == self.buffer@.subrange(0, i as int),
            decreases self.buffer@.len() - i,
        {
            frame.push(self.buffer[i]);
            i += 1;
        }
        assert(frame@ =~= self.buffer@);
        self.shown = frame;
    }
}

} // verus!
