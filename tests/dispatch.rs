use pc_keyboard::DecodedKey;
use rust_os::dispatch::{Event, InterruptHandlers, Next, Output, Response};

fn run(h: &mut InterruptHandlers, events: &[Event]) -> Vec<Response> {
    events.iter().map(|e| h.handle(*e)).collect()
}

fn acks(rs: &[Response], vector: u8) -> usize {
    rs.iter().filter(|r| r.acknowledge == Some(vector)).count()
}

#[test]
fn breakpoint_reports_and_resumes() {
    let mut h = InterruptHandlers::new();
    for _ in 0..3 {
        let r = h.breakpoint_handler();
        assert_eq!(r.output, Some(Output::BreakpointReport));
        assert_eq!(r.acknowledge, None);
        assert_eq!(r.next, Next::Resume);
    }
    assert!(!h.halted());
    // the kernel goes on serving interrupts afterwards
    assert_eq!(h.timer_handler().output, Some(Output::Tick));
}

#[test]
fn double_fault_reports_once_then_halts() {
    let mut h = InterruptHandlers::new();
    let rs = run(
        &mut h,
        &[Event::Timer, Event::DoubleFault, Event::DoubleFault, Event::Timer, Event::Keyboard(0x1E), Event::Breakpoint],
    );
    let reports = rs.iter().filter(|r| r.output == Some(Output::DoubleFaultReport)).count();
    assert_eq!(reports, 1);
    assert_eq!(rs[1].next, Next::Halt);
    assert!(h.halted());
    for r in &rs[2..] {
        assert_eq!(r.output, None);
        assert_eq!(r.acknowledge, None);
        assert_eq!(r.next, Next::Halt);
    }
}

#[test]
fn timer_load_then_one_key() {
    let mut h = InterruptHandlers::new();
    let mut events = vec![Event::Timer; 25];
    events.push(Event::Keyboard(0x1E));
    let rs = run(&mut h, &events);
    let ticks = rs.iter().filter(|r| r.output == Some(Output::Tick)).count();
    let keys: Vec<Output> = rs.iter().filter_map(|r| r.output).filter(|o| matches!(o, Output::Key(_))).collect();
    assert_eq!(ticks, 25);
    assert_eq!(rs.iter().filter(|r| r.acknowledge.is_some()).count(), 26);
    assert_eq!(acks(&rs, 32), 25);
    assert_eq!(acks(&rs, 33), 1);
    // the A key without shift or caps lock decodes to a small letter
    assert_eq!(keys, vec![Output::Key(DecodedKey::Unicode('a'))]);
}

#[test]
fn timer_load_then_shifted_key() {
    let mut h = InterruptHandlers::new();
    let mut events = vec![Event::Timer; 25];
    events.push(Event::Keyboard(0x2A));
    events.push(Event::Keyboard(0x1E));
    let rs = run(&mut h, &events);
    let keys: Vec<Output> = rs.iter().filter_map(|r| r.output).filter(|o| matches!(o, Output::Key(_))).collect();
    assert_eq!(acks(&rs, 32), 25);
    assert_eq!(acks(&rs, 33), 2);
    assert_eq!(keys, vec![Output::Key(DecodedKey::Unicode('A'))]);
}

#[test]
fn every_hardware_interrupt_acknowledged_on_its_vector() {
    let mut h = InterruptHandlers::new();
    let mut events = Vec::new();
    for i in 0..200u32 {
        events.push(if i % 3 == 0 { Event::Keyboard((i % 256) as u8) } else { Event::Timer });
        if i % 50 == 0 {
            events.push(Event::Breakpoint);
        }
    }
    let rs = run(&mut h, &events);
    let timers = events.iter().filter(|e| **e == Event::Timer).count();
    let keyboards = events.iter().filter(|e| matches!(e, Event::Keyboard(_))).count();
    assert_eq!(acks(&rs, 32), timers);
    assert_eq!(acks(&rs, 33), keyboards);
    for (e, r) in events.iter().zip(rs.iter()) {
        match e {
            Event::Timer => assert_eq!(r.acknowledge, Some(32)),
            Event::Keyboard(_) => assert_eq!(r.acknowledge, Some(33)),
            _ => assert_eq!(r.acknowledge, None),
        }
    }
}

#[test]
fn keyboard_prefix_byte_outputs_nothing_but_is_acknowledged() {
    let mut h = InterruptHandlers::new();
    let r = h.keyboard_interrupt_handler(0xE0);
    assert_eq!(r.output, None);
    assert_eq!(r.acknowledge, Some(33));
    assert_eq!(r.next, Next::Resume);
    let r = h.keyboard_interrupt_handler(0x48);
    assert_eq!(r.output, Some(Output::Key(DecodedKey::RawKey(pc_keyboard::KeyCode::ArrowUp))));
    assert_eq!(r.acknowledge, Some(33));
}
