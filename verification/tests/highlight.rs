use openlogi_presenter::binding::HighlightMode;
use openlogi_presenter::highlight::{HighlightObservation, HighlightSession, HighlightState};

#[test]
fn a_press_shows_the_pressed_mode_from_hidden() {
    let mut session = HighlightSession::default();
    session.toggle(HighlightMode::Highlight);
    assert_eq!(
        session.current(),
        Some(HighlightState {
            mode: HighlightMode::Highlight
        })
    );
}

#[test]
fn a_second_press_hides_it_regardless_of_mode_argument() {
    let mut session = HighlightSession::default();
    session.toggle(HighlightMode::Highlight);
    session.toggle(HighlightMode::Spotlight);
    assert_eq!(session.current(), None);
}

#[test]
fn a_fresh_session_is_hidden_at_generation_one() {
    let session = HighlightSession::default();
    assert_eq!(
        session.observation(),
        HighlightObservation {
            generation: 1,
            active: None
        }
    );
    assert_eq!(session.current(), None);
}

#[test]
fn each_press_moves_the_generation_on_by_one() {
    let mut session = HighlightSession::default();
    session.toggle(HighlightMode::Spotlight);
    assert_eq!(session.observation().generation, 2);
    session.toggle(HighlightMode::Spotlight);
    assert_eq!(session.observation().generation, 3);
    session.toggle(HighlightMode::Highlight);
    assert_eq!(
        session.observation(),
        HighlightObservation {
            generation: 4,
            active: Some(HighlightState {
                mode: HighlightMode::Highlight
            })
        }
    );
}

#[test]
fn a_stale_generation_is_answered_at_once() {
    let mut session = HighlightSession::default();
    session.toggle(HighlightMode::Spotlight);
    let observed = session
        .observe_ready(1)
        .expect("a changed generation must not wait out the hold");
    assert_eq!(
        observed.active,
        Some(HighlightState {
            mode: HighlightMode::Spotlight
        })
    );
    assert_eq!(observed.generation, 2);
}

#[test]
fn the_current_generation_waits() {
    let session = HighlightSession::default();
    assert_eq!(session.observe_ready(1), None);
}

#[test]
fn a_toggle_readies_a_waiting_observer() {
    let mut session = HighlightSession::default();
    assert_eq!(session.observe_ready(1), None, "nothing has changed yet");
    session.toggle(HighlightMode::Highlight);
    let observed = session
        .observe_ready(1)
        .expect("the toggle above must answer the waiting observer");
    assert_eq!(
        observed.active,
        Some(HighlightState {
            mode: HighlightMode::Highlight
        })
    );
}

#[test]
fn an_observer_that_has_seen_nothing_is_answered_at_once() {
    let session = HighlightSession::default();
    assert_eq!(session.observe_ready(0), Some(session.observation()));
}
