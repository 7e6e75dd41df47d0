use pico_link::command::payload;
use pico_link::sender::{
    Phase, SendOutcome, Sender, SenderAction, SenderEvent, DEBOUNCE_MS, SEND_TIMEOUT_MS,
};

fn sent_payloads(actions: &[SenderAction]) -> Vec<Vec<u8>> {
    actions
        .iter()
        .filter_map(|a| match a {
            SenderAction::Send { on, .. } => Some(payload(*on).to_vec()),
            _ => None,
        })
        .collect()
}

#[test]
fn press_hold_release_sends_on_then_off() {
    let mut s = Sender::new(DEBOUNCE_MS, SEND_TIMEOUT_MS);
    assert_eq!(s.action(), SenderAction::ReadLevel);
    let mut actions = Vec::new();
    // input idle, matches "off": wait for an edge
    actions.push(s.step(SenderEvent::Sampled(false)));
    assert_eq!(actions[0], SenderAction::WaitForEdge);
    // pressed; still held 100 ms later (held for 150 ms)
    actions.push(s.step(SenderEvent::Edge));
    assert_eq!(actions[1], SenderAction::SampleAfter(100));
    actions.push(s.step(SenderEvent::Sampled(true)));
    actions.push(s.step(SenderEvent::OutputApplied));
    actions.push(s.step(SenderEvent::SendFinished(SendOutcome::Delivered)));
    actions.push(s.step(SenderEvent::Sampled(true)));
    // released at 300 ms, still released after the delay
    actions.push(s.step(SenderEvent::Edge));
    actions.push(s.step(SenderEvent::Sampled(false)));
    actions.push(s.step(SenderEvent::OutputApplied));
    actions.push(s.step(SenderEvent::SendFinished(SendOutcome::Delivered)));
    assert_eq!(
        sent_payloads(&actions),
        vec![b"on".to_vec(), b"off".to_vec()]
    );
    assert_eq!(s.phase, Phase::Compare);
    assert!(!s.on);
}

#[test]
fn output_is_set_before_the_send() {
    let mut s = Sender::new(DEBOUNCE_MS, SEND_TIMEOUT_MS);
    s.step(SenderEvent::Sampled(true));
    assert_eq!(s.step(SenderEvent::Sampled(true)), SenderAction::SetOutput(true));
    assert_eq!(
        s.step(SenderEvent::OutputApplied),
        SenderAction::Send { on: true, timeout_ms: 100 }
    );
}

#[test]
fn bounce_during_delay_sends_only_the_settled_level() {
    let mut s = Sender::new(DEBOUNCE_MS, SEND_TIMEOUT_MS);
    s.step(SenderEvent::Sampled(false));
    s.step(SenderEvent::Edge);
    // a press that bounced back before the delay ended: the sample reads released
    assert_eq!(s.step(SenderEvent::Sampled(false)), SenderAction::SetOutput(false));
    assert_eq!(
        s.step(SenderEvent::OutputApplied),
        SenderAction::Send { on: false, timeout_ms: 100 }
    );
    s.step(SenderEvent::SendFinished(SendOutcome::Delivered));
    assert!(!s.on);
}

#[test]
fn timeout_does_not_stall_the_next_edge() {
    let mut s = Sender::new(DEBOUNCE_MS, SEND_TIMEOUT_MS);
    s.step(SenderEvent::Sampled(true));
    s.step(SenderEvent::Sampled(true));
    s.step(SenderEvent::OutputApplied);
    assert_eq!(
        s.step(SenderEvent::SendFinished(SendOutcome::TimedOut)),
        SenderAction::ReadLevel
    );
    // released meanwhile: sampled again after one debounce delay
    assert_eq!(s.step(SenderEvent::Sampled(false)), SenderAction::SampleAfter(100));
}

#[test]
fn send_error_is_not_retried() {
    let mut s = Sender::new(DEBOUNCE_MS, SEND_TIMEOUT_MS);
    s.step(SenderEvent::Sampled(true));
    s.step(SenderEvent::Sampled(true));
    s.step(SenderEvent::OutputApplied);
    assert_eq!(
        s.step(SenderEvent::SendFinished(SendOutcome::Failed)),
        SenderAction::ReadLevel
    );
    assert_eq!(s.step(SenderEvent::Sampled(true)), SenderAction::WaitForEdge);
}

#[test]
fn unexpected_event_changes_nothing() {
    let mut s = Sender::new(DEBOUNCE_MS, SEND_TIMEOUT_MS);
    let before = s;
    assert_eq!(s.step(SenderEvent::Edge), SenderAction::ReadLevel);
    assert_eq!(s, before);
    s.step(SenderEvent::Sampled(false));
    assert_eq!(s.step(SenderEvent::OutputApplied), SenderAction::WaitForEdge);
}

#[test]
fn configured_intervals_are_used() {
    let mut s = Sender::new(25, 40);
    s.step(SenderEvent::Sampled(false));
    assert_eq!(s.step(SenderEvent::Edge), SenderAction::SampleAfter(25));
    s.step(SenderEvent::Sampled(true));
    assert_eq!(
        s.step(SenderEvent::OutputApplied),
        SenderAction::Send { on: true, timeout_ms: 40 }
    );
}
