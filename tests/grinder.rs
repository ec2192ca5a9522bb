use grindr::display::{Display, Element, Font, Point};
use grindr::grinder::{increment, Action, Event, Grinder, DELAY_TICKS};
use grindr::text::{Text, DIGITS_LEN};

fn counter(c: u32) -> Element {
    Element::Label { text: Text::Counter(c), at: Point { x: 0, y: 32 }, font: Font::Emphasis }
}

fn unit() -> Element {
    Element::Label { text: Text::Unit, at: Point { x: 104, y: 32 }, font: Font::Emphasis }
}

fn title() -> Element {
    Element::Label { text: Text::Title, at: Point { x: 0, y: 0 }, font: Font::Body }
}

fn splash() -> Element {
    Element::Splash { at: Point { x: 0, y: 0 } }
}

fn counter_frame(c: u32) -> Vec<Element> {
    vec![counter(c), unit(), title()]
}

/// Reports success until `ticks` ticks have been consumed and the machine
/// asks for the next one; returns that action.
fn run_until_ticks(g: &mut Grinder, ticks: u32) -> Action {
    let mut a = g.next_action();
    let mut seen = 0u32;
    loop {
        if a == Action::WaitTick {
            if seen == ticks {
                return a;
            }
            seen += 1;
        }
        a = g.on_event(Event::Done);
    }
}

#[test]
fn setup_actions_in_order() {
    let mut g = Grinder::new();
    let mut actions = vec![g.next_action()];
    for _ in 0..4 {
        actions.push(g.on_event(Event::Done));
    }
    assert_eq!(
        actions,
        vec![
            Action::InitDisplay,
            Action::ClearDisplay,
            Action::Draw(splash()),
            Action::FlushDisplay,
            Action::WaitTick,
        ]
    );
    assert_eq!(g.display().shown(), &vec![splash()]);
}

#[test]
fn splash_stays_through_delay_and_first_blink() {
    let mut g = Grinder::new();
    let mut a = g.next_action();
    while a != Action::WaitTick {
        a = g.on_event(Event::Done);
    }
    // From here on, nothing else is flushed until the first counter frame.
    let mut ticks = 0u32;
    loop {
        assert_eq!(g.display().shown(), &vec![splash()]);
        if a == Action::WaitTick {
            ticks += 1;
        }
        if a == Action::FlushDisplay {
            break;
        }
        a = g.on_event(Event::Done);
    }
    assert_eq!(ticks, DELAY_TICKS as u32 + 2);
    g.on_event(Event::Done);
    assert_eq!(g.display().shown(), &counter_frame(0));
}

#[test]
fn first_frame_after_twelve_ticks() {
    let mut g = Grinder::new();
    let a = run_until_ticks(&mut g, 12);
    assert_eq!(a, Action::WaitTick);
    assert_eq!(g.display().shown(), &counter_frame(0));
    assert!(!g.led_is_high());
    assert_eq!(g.counter(), 1);
    let mut buf = [0u8; DIGITS_LEN];
    assert_eq!(Text::Counter(0).render(&mut buf), "0");
    assert_eq!(Text::Unit.render(&mut buf), "g");
    assert_eq!(Text::Title.render(&mut buf), "Grinding...");
}

#[test]
fn each_iteration_blinks_then_renders() {
    let mut g = Grinder::new();
    run_until_ticks(&mut g, DELAY_TICKS as u32);
    for i in 0..4u32 {
        let mut actions = vec![g.next_action()];
        for _ in 0..8 {
            actions.push(g.on_event(Event::Done));
        }
        assert_eq!(
            actions,
            vec![
                Action::WaitTick,
                Action::LedHigh,
                Action::WaitTick,
                Action::LedLow,
                Action::ClearDisplay,
                Action::Draw(counter(i)),
                Action::Draw(unit()),
                Action::Draw(title()),
                Action::FlushDisplay,
            ]
        );
        g.on_event(Event::Done);
        assert_eq!(g.display().shown(), &counter_frame(i));
        assert_eq!(g.counter(), i + 1);
    }
}

#[test]
fn led_high_between_the_two_ticks() {
    let mut g = Grinder::new();
    run_until_ticks(&mut g, DELAY_TICKS as u32);
    assert_eq!(g.on_event(Event::Done), Action::LedHigh);
    assert!(!g.led_is_high());
    assert_eq!(g.on_event(Event::Done), Action::WaitTick);
    assert!(g.led_is_high());
    assert_eq!(g.on_event(Event::Done), Action::LedLow);
    assert!(g.led_is_high());
    assert_eq!(g.on_event(Event::Done), Action::ClearDisplay);
    assert!(!g.led_is_high());
}

#[test]
fn counter_text_is_decimal() {
    let mut buf = [0u8; DIGITS_LEN];
    assert_eq!(Text::Counter(7).render(&mut buf), "7");
    assert_eq!(Text::Counter(10).render(&mut buf), "10");
    assert_eq!(Text::Counter(1234).render(&mut buf), "1234");
    assert_eq!(Text::Counter(162392).render(&mut buf), "162392");
    assert_eq!(Text::Counter(u32::MAX).render(&mut buf), "4294967295");
    // The buffer is reused: a shorter number after a longer one.
    assert_eq!(Text::Counter(42).render(&mut buf), "42");
}

#[test]
fn counter_wraps_to_zero() {
    assert_eq!(increment(0), 1);
    assert_eq!(increment(41), 42);
    assert_eq!(increment(u32::MAX - 1), u32::MAX);
    assert_eq!(increment(u32::MAX), 0);
}

#[test]
fn flush_failure_halts() {
    let mut g = Grinder::new();
    let mut a = run_until_ticks(&mut g, DELAY_TICKS as u32 + 2);
    // Complete one frame, then fail the next flush.
    assert_eq!(g.display().shown(), &counter_frame(0));
    while a != Action::FlushDisplay {
        a = g.on_event(Event::Done);
    }
    assert_eq!(g.on_event(Event::Failed), Action::Halt);
    assert!(g.is_halted());
    for _ in 0..20 {
        assert_eq!(g.on_event(Event::Done), Action::Halt);
    }
    assert_eq!(g.display().shown(), &counter_frame(0));
    assert_eq!(g.counter(), 1);
}

#[test]
fn init_failure_halts_before_any_frame() {
    let mut g = Grinder::new();
    assert_eq!(g.next_action(), Action::InitDisplay);
    assert_eq!(g.on_event(Event::Failed), Action::Halt);
    assert_eq!(g.on_event(Event::Done), Action::Halt);
    assert!(g.display().shown().is_empty());
}

#[test]
fn clear_then_flush_is_blank() {
    let mut d = Display::new();
    d.draw(splash());
    d.flush();
    assert_eq!(d.shown(), &vec![splash()]);
    d.clear();
    assert_eq!(d.shown(), &vec![splash()]);
    d.flush();
    assert!(d.shown().is_empty());
    assert!(d.buffer().is_empty());
}

#[test]
fn draws_are_invisible_until_flush() {
    let mut d = Display::new();
    d.draw(counter(3));
    d.draw(unit());
    assert!(d.shown().is_empty());
    assert_eq!(d.buffer(), &vec![counter(3), unit()]);
    d.flush();
    assert_eq!(d.shown(), &vec![counter(3), unit()]);
}
