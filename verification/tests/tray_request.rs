use desktop_shell::menu::MenuEntry;
use desktop_shell::tray::{
    HostCall, TrayRequest, TRAY_ICON_AS_TEMPLATE, TRAY_ID, TRAY_MENU_ON_LEFT_CLICK, TRAY_TOOLTIP,
};

/// Runs a request against a platform on which an icon is registered or not
/// and on which the call with index `fail_at` fails. Returns the calls made
/// and what the request returned.
fn trace_request(
    visible: bool,
    registered: bool,
    fail_at: Option<usize>,
) -> (Vec<HostCall>, Result<(), String>) {
    let mut calls = Vec::new();
    let mut request = TrayRequest::begin(true, visible);
    loop {
        request = match request {
            TrayRequest::Call(call) => {
                let outcome = if fail_at == Some(calls.len()) {
                    Err(format!("call {} failed", calls.len()))
                } else {
                    Ok(())
                };
                calls.push(call);
                TrayRequest::after_call(call, outcome)
            }
            TrayRequest::Lookup { reveal } => {
                assert_eq!(reveal, visible);
                TrayRequest::after_lookup(reveal, registered)
            }
            TrayRequest::Finished(result) => return (calls, result),
        };
    }
}

fn menu_calls() -> Vec<HostCall> {
    vec![
        HostCall::CreateEntry(MenuEntry::Show),
        HostCall::CreateEntry(MenuEntry::Hide),
        HostCall::CreateEntry(MenuEntry::Quit),
        HostCall::CreateEntry(MenuEntry::Separator),
        HostCall::AssembleMenu,
    ]
}

#[test]
fn icon_constants() {
    assert_eq!(TRAY_ID, "status");
    assert_eq!(TRAY_TOOLTIP, "Konnyaku Translator");
    assert!(TRAY_ICON_AS_TEMPLATE);
    assert!(!TRAY_MENU_ON_LEFT_CLICK);
}

#[test]
fn nothing_to_do_without_a_status_area() {
    assert_eq!(TrayRequest::begin(false, true), TrayRequest::Finished(Ok(())));
    assert_eq!(TrayRequest::begin(false, false), TrayRequest::Finished(Ok(())));
}

#[test]
fn showing_starts_with_the_menu() {
    assert_eq!(
        TrayRequest::begin(true, true),
        TrayRequest::Call(HostCall::CreateEntry(MenuEntry::Show))
    );
}

#[test]
fn hiding_starts_with_the_lookup() {
    assert_eq!(TrayRequest::begin(true, false), TrayRequest::Lookup { reveal: false });
}

#[test]
fn showing_a_new_icon_builds_it_once_and_reveals_it() {
    let (calls, result) = trace_request(true, false, None);
    let mut expected = menu_calls();
    expected.push(HostCall::BuildIcon);
    expected.push(HostCall::SetIconVisible(true));
    assert_eq!(calls, expected);
    assert_eq!(result, Ok(()));
}

#[test]
fn showing_a_registered_icon_reuses_it() {
    let (calls, result) = trace_request(true, true, None);
    let mut expected = menu_calls();
    expected.push(HostCall::AttachMenu);
    expected.push(HostCall::SetMenuOnLeftClick(false));
    expected.push(HostCall::SetIconVisible(true));
    assert_eq!(calls, expected);
    assert!(!calls.contains(&HostCall::BuildIcon));
    assert_eq!(result, Ok(()));
}

#[test]
fn hiding_a_registered_icon_makes_one_call() {
    let (calls, result) = trace_request(false, true, None);
    assert_eq!(calls, vec![HostCall::SetIconVisible(false)]);
    assert_eq!(result, Ok(()));
}

#[test]
fn hiding_without_an_icon_makes_no_call() {
    let (calls, result) = trace_request(false, false, None);
    assert_eq!(calls, vec![]);
    assert_eq!(result, Ok(()));
}

#[test]
fn a_failed_call_ends_the_request_with_its_message() {
    for registered in [false, true] {
        let (all, _) = trace_request(true, registered, None);
        for at in 0..all.len() {
            let (calls, result) = trace_request(true, registered, Some(at));
            assert_eq!(calls, all[..=at].to_vec());
            assert_eq!(result, Err(format!("call {at} failed")));
        }
    }
    let (calls, result) = trace_request(false, true, Some(0));
    assert_eq!(calls, vec![HostCall::SetIconVisible(false)]);
    assert_eq!(result, Err("call 0 failed".to_string()));
}

#[test]
fn a_failure_carries_the_message_unchanged() {
    let request = TrayRequest::after_call(HostCall::BuildIcon, Err("no status area: \u{2717}".to_string()));
    assert_eq!(request, TrayRequest::Finished(Err("no status area: \u{2717}".to_string())));
    let request = TrayRequest::after_call(HostCall::AssembleMenu, Err(String::new()));
    assert_eq!(request, TrayRequest::Finished(Err(String::new())));
}

#[test]
fn each_call_has_its_successor() {
    let ok = || Ok::<(), String>(());
    assert_eq!(
        TrayRequest::after_call(HostCall::CreateEntry(MenuEntry::Show), ok()),
        TrayRequest::Call(HostCall::CreateEntry(MenuEntry::Hide))
    );
    assert_eq!(
        TrayRequest::after_call(HostCall::CreateEntry(MenuEntry::Hide), ok()),
        TrayRequest::Call(HostCall::CreateEntry(MenuEntry::Quit))
    );
    assert_eq!(
        TrayRequest::after_call(HostCall::CreateEntry(MenuEntry::Quit), ok()),
        TrayRequest::Call(HostCall::CreateEntry(MenuEntry::Separator))
    );
    assert_eq!(
        TrayRequest::after_call(HostCall::CreateEntry(MenuEntry::Separator), ok()),
        TrayRequest::Call(HostCall::AssembleMenu)
    );
    assert_eq!(
        TrayRequest::after_call(HostCall::AssembleMenu, ok()),
        TrayRequest::Lookup { reveal: true }
    );
    assert_eq!(
        TrayRequest::after_call(HostCall::AttachMenu, ok()),
        TrayRequest::Call(HostCall::SetMenuOnLeftClick(false))
    );
    assert_eq!(
        TrayRequest::after_call(HostCall::SetMenuOnLeftClick(false), ok()),
        TrayRequest::Call(HostCall::SetIconVisible(true))
    );
    assert_eq!(
        TrayRequest::after_call(HostCall::BuildIcon, ok()),
        TrayRequest::Call(HostCall::SetIconVisible(true))
    );
    assert_eq!(
        TrayRequest::after_call(HostCall::SetIconVisible(true), ok()),
        TrayRequest::Finished(Ok(()))
    );
    assert_eq!(
        TrayRequest::after_call(HostCall::SetIconVisible(false), ok()),
        TrayRequest::Finished(Ok(()))
    );
}

#[test]
fn the_lookup_decides_between_reuse_and_construction() {
    assert_eq!(TrayRequest::after_lookup(true, true), TrayRequest::Call(HostCall::AttachMenu));
    assert_eq!(TrayRequest::after_lookup(true, false), TrayRequest::Call(HostCall::BuildIcon));
    assert_eq!(
        TrayRequest::after_lookup(false, true),
        TrayRequest::Call(HostCall::SetIconVisible(false))
    );
    assert_eq!(TrayRequest::after_lookup(false, false), TrayRequest::Finished(Ok(())));
}

#[test]
fn finished_requests_give_their_result() {
    assert!(TrayRequest::Finished(Ok(())).is_finished());
    assert!(TrayRequest::Finished(Err("x".to_string())).is_finished());
    assert!(!TrayRequest::Call(HostCall::BuildIcon).is_finished());
    assert!(!TrayRequest::Lookup { reveal: true }.is_finished());
    assert_eq!(TrayRequest::Finished(Ok(())).into_result(), Some(Ok(())));
    assert_eq!(
        TrayRequest::Finished(Err("x".to_string())).into_result(),
        Some(Err("x".to_string()))
    );
    assert_eq!(TrayRequest::Call(HostCall::AssembleMenu).into_result(), None);
    assert_eq!(TrayRequest::Lookup { reveal: false }.into_result(), None);
}

#[test]
fn every_request_finishes_within_nine_calls() {
    for visible in [false, true] {
        for registered in [false, true] {
            for fail_at in [None, Some(0), Some(3), Some(7)] {
                let (calls, _) = trace_request(visible, registered, fail_at);
                assert!(calls.len() <= 9);
            }
        }
    }
}
