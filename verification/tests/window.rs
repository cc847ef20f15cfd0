use pomodoro_client::window::{is_pip_window_open, WindowCall, PIP_LABEL};

#[test]
fn the_window_is_labelled_pip() {
    assert_eq!(PIP_LABEL, "pip");
}

#[test]
fn a_missing_window_is_not_open() {
    assert_eq!(is_pip_window_open(None), Ok(false));
}

#[test]
fn a_visible_window_is_open() {
    assert_eq!(is_pip_window_open(Some(Ok(true))), Ok(true));
}

#[test]
fn a_hidden_window_is_not_open() {
    assert_eq!(is_pip_window_open(Some(Ok(false))), Ok(false));
}

#[test]
fn a_failed_visibility_query_is_handed_on() {
    assert_eq!(
        is_pip_window_open(Some(Err("failed to receive message from webview".to_string()))),
        Err("failed to receive message from webview".to_string())
    );
    assert_eq!(is_pip_window_open(Some(Err(String::new()))), Err(String::new()));
}

#[test]
fn window_calls_are_told_apart() {
    assert_ne!(WindowCall::Show, WindowCall::SetFocus);
    assert_ne!(WindowCall::Show, WindowCall::Hide);
    assert_ne!(WindowCall::SetFocus, WindowCall::Hide);
    let call = WindowCall::Hide;
    let copy = call;
    assert_eq!(call, copy);
}
