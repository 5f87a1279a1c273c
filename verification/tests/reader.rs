use editor_core::keys::{KeyCode, KeyEvent, KeyEventKind};
use editor_core::reader::{Polled, ReadStep, Reader, TerminalEvent, POLL_TIMEOUT_MS};

#[test]
fn a_wait_lasts_half_a_second() {
    assert_eq!(POLL_TIMEOUT_MS, 500);
    assert_eq!(Reader.start(), ReadStep::Poll(500));
}

#[test]
fn timeout_leads_to_another_wait() {
    assert_eq!(Reader.read_key(Polled::TimedOut), ReadStep::Poll(500));
}

#[test]
fn events_that_are_no_keys_are_dropped() {
    assert_eq!(Reader.read_key(Polled::Event(TerminalEvent::Other)), ReadStep::Poll(500));
}

#[test]
fn key_events_are_delivered_whatever_their_kind() {
    for kind in [KeyEventKind::Press, KeyEventKind::Repeat, KeyEventKind::Release] {
        for (modifiers, state) in [(0, 0), (2, 0), (7, 9)] {
            let event = KeyEvent { code: KeyCode::Char('q'), modifiers, kind, state };
            assert_eq!(
                Reader.read_key(Polled::Event(TerminalEvent::Key(event))),
                ReadStep::Deliver(event)
            );
        }
    }
}
