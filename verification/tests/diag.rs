use openlogi_presenter::diag::{DiagHighlight, PresenterArgs, DEFAULT_LISTEN_SECONDS};

#[test]
fn the_default_listens_for_a_minute_on_any_device() {
    let args = PresenterArgs::default();
    assert_eq!(args.device, None);
    assert_eq!(args.seconds, 60);
    assert_eq!(DEFAULT_LISTEN_SECONDS, 60);
}

#[test]
fn presses_alternate_the_printed_state() {
    let mut highlight = DiagHighlight::new();
    assert!(!highlight.on);
    assert_eq!(highlight.press(), "ON");
    assert!(highlight.on);
    assert_eq!(highlight.press(), "off");
    assert!(!highlight.on);
    assert_eq!(highlight.press(), "ON");
}
