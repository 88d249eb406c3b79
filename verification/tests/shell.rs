use vista_shell::model::{
    Placement, SleepRequest, Teardown, WindowStatus, PLATFORM_TAB, RECONNECT_DELAY_MS,
    TEARDOWN_DELAY_MS, TITLE_BAR,
};
use vista_shell::notice::Notice;
use vista_shell::page::PageUrl;
use vista_shell::shell::{CloseOutcome, Closing, OpenOutcome, Placed, Shell};

const READY: WindowStatus = WindowStatus::Ready;

fn page(segment: &str) -> PageUrl {
    PageUrl::parse(&format!("https://platform.vistainterface.com/manage/7/{segment}")).unwrap()
}

fn entries(notice: &Notice) -> Vec<(&str, &str)> {
    notice.entries.iter().map(|(k, v)| (*k, v.as_str())).collect()
}

fn layout(placed: &[Placed]) -> Vec<(&str, Placement)> {
    placed.iter().map(|p| (p.label.as_str(), p.placement)).collect()
}

/// Opens a page as a new tab and returns its label.
fn open(shell: &mut Shell, segment: &str, live: &Vec<String>) -> String {
    let url = page(segment);
    match shell.open_tab(&url, live, READY) {
        OpenOutcome::Create(label) => {
            shell.tab_added(&label, &url, READY);
            label
        }
        other => panic!("{other:?}"),
    }
}

fn closing(outcome: CloseOutcome) -> Closing {
    match outcome {
        CloseOutcome::Closed(closing) => closing,
        other => panic!("{other:?}"),
    }
}

#[test]
fn starts_with_the_platform_tab() {
    let shell = Shell::new();
    assert_eq!(shell.order(), &vec![PLATFORM_TAB.to_string()]);
    assert_eq!(shell.active(), "content");
    assert!(!shell.is_call_active());
}

#[test]
fn new_tabs_get_fresh_labels() {
    let mut shell = Shell::new();
    for n in 0..12 {
        assert_eq!(open(&mut shell, "pos", &vec![]), format!("tab-{n}"));
    }
    assert_eq!(shell.order().len(), 13);
    assert_eq!(shell.active(), "tab-11");
}

#[test]
fn a_label_is_used_up_even_if_the_webview_fails() {
    let mut shell = Shell::new();
    let outcome = shell.open_tab(&page("pos"), &vec![], READY);
    assert!(matches!(outcome, OpenOutcome::Create(label) if label == "tab-0"));
    assert_eq!(shell.order().len(), 1);
    assert_eq!(open(&mut shell, "pos", &vec![]), "tab-1");
}

#[test]
fn opening_tells_the_title_bar() {
    let mut shell = Shell::new();
    let url = page("voice-settings");
    let OpenOutcome::Create(label) = shell.open_tab(&url, &vec![], READY) else {
        panic!("no tab");
    };
    let (placed, notice) = shell.tab_added(&label, &url, READY);
    assert_eq!(notice.name, "tab:opened");
    assert_eq!(entries(&notice), vec![("label", "tab-0"), ("title", "Phone settings")]);
    assert_eq!(
        layout(&placed),
        vec![("content", Placement::Hidden), ("tab-0", Placement::Foreground)]
    );
}

#[test]
fn no_window_no_tab() {
    let mut shell = Shell::new();
    let outcome = shell.open_tab(&page("pos"), &vec![], WindowStatus::Missing);
    assert!(matches!(outcome, OpenOutcome::Nothing));
    assert_eq!(open(&mut shell, "pos", &vec![]), "tab-0");
}

#[test]
fn a_tab_in_a_window_of_unknown_size_is_recorded() {
    let mut shell = Shell::new();
    let url = page("pos");
    let outcome = shell.open_tab(&url, &vec![], WindowStatus::Unsized);
    assert!(matches!(outcome, OpenOutcome::Create(_)));
    let (placed, notice) = shell.tab_added("tab-0", &url, WindowStatus::Unsized);
    assert!(placed.is_empty());
    assert_eq!(notice.name, "tab:opened");
    assert_eq!(shell.order().len(), 2);
    assert_eq!(shell.active(), "tab-0");
}

#[test]
fn focusing_in_a_window_of_unknown_size_is_recorded() {
    let mut shell = Shell::new();
    let phone = open(&mut shell, "voice", &vec![]);
    open(&mut shell, "pos", &vec![]);
    match shell.open_tab(&page("voice"), &vec![phone.clone()], WindowStatus::Unsized) {
        OpenOutcome::Focused(placed, notice) => {
            assert!(placed.is_empty());
            assert_eq!(entries(&notice), vec![("label", "tab-0")]);
        }
        other => panic!("{other:?}"),
    }
    assert_eq!(shell.active(), phone);
}

#[test]
fn reopening_the_phone_focuses_it() {
    let mut shell = Shell::new();
    let phone = open(&mut shell, "voice", &vec![]);
    open(&mut shell, "pos", &vec![]);
    let live = vec!["content".to_string(), phone.clone(), "tab-1".to_string()];
    match shell.open_tab(&page("voice"), &live, READY) {
        OpenOutcome::Focused(placed, notice) => {
            assert_eq!(
                layout(&placed),
                vec![
                    ("content", Placement::Hidden),
                    ("tab-0", Placement::Foreground),
                    ("tab-1", Placement::Hidden),
                ]
            );
            assert_eq!(notice.name, "tab:focused");
            assert_eq!(entries(&notice), vec![("label", "tab-0")]);
        }
        other => panic!("{other:?}"),
    }
    assert_eq!(shell.active(), phone);
    assert_eq!(shell.order().len(), 3);
}

#[test]
fn settings_and_phone_are_separate_singletons() {
    let mut shell = Shell::new();
    let phone = open(&mut shell, "voice", &vec![]);
    let live = vec![phone.clone()];
    let settings = open(&mut shell, "voice-settings", &live);
    let live = vec![phone, settings.clone()];
    let outcome = shell.open_tab(&page("voice-settings"), &live, READY);
    assert!(matches!(outcome, OpenOutcome::Focused(..)));
    assert_eq!(shell.active(), settings);
}

#[test]
fn a_dead_phone_tab_is_not_focused() {
    let mut shell = Shell::new();
    open(&mut shell, "voice", &vec![]);
    let outcome = shell.open_tab(&page("voice"), &vec!["content".to_string()], READY);
    assert!(matches!(outcome, OpenOutcome::Create(label) if label == "tab-1"));
}

#[test]
fn ordinary_pages_are_never_deduplicated() {
    let mut shell = Shell::new();
    let first = open(&mut shell, "pos", &vec![]);
    let second = open(&mut shell, "pos", &vec![first.clone()]);
    assert_ne!(first, second);
}

#[test]
fn switching_parks_the_phone_and_hides_the_rest() {
    let mut shell = Shell::new();
    open(&mut shell, "voice", &vec![]);
    open(&mut shell, "pos", &vec![]);
    let placed = shell.switch_tab("content", READY);
    assert_eq!(
        layout(&placed),
        vec![
            ("content", Placement::Foreground),
            ("tab-0", Placement::Parked),
            ("tab-1", Placement::Hidden),
        ]
    );
    assert_eq!(shell.active(), "content");
}

#[test]
fn switching_needs_a_ready_window() {
    let mut shell = Shell::new();
    open(&mut shell, "pos", &vec![]);
    assert!(shell.switch_tab("content", WindowStatus::Missing).is_empty());
    assert!(shell.activate("content", WindowStatus::Unsized).is_empty());
    assert_eq!(shell.active(), "tab-0");
}

#[test]
fn switching_takes_any_label() {
    let mut shell = Shell::new();
    let placed = shell.switch_tab("gone", READY);
    assert_eq!(layout(&placed), vec![("content", Placement::Hidden)]);
    assert_eq!(shell.active(), "gone");
}

#[test]
fn resizing_fits_title_bar_and_active_tab() {
    let mut shell = Shell::new();
    open(&mut shell, "pos", &vec![]);
    assert_eq!(
        layout(&shell.relayout(READY)),
        vec![(TITLE_BAR, Placement::TitleBar), ("tab-0", Placement::Fitted)]
    );
    assert!(shell.relayout(WindowStatus::Missing).is_empty());
    assert!(shell.relayout(WindowStatus::Unsized).is_empty());
}

#[test]
fn the_platform_tab_cannot_be_closed() {
    let mut shell = Shell::new();
    assert!(matches!(shell.close_tab("content", Some(true), READY), CloseOutcome::Ignored));
    assert_eq!(shell.order().len(), 1);
}

#[test]
fn closing_the_active_tab_brings_its_right_neighbor() {
    let mut shell = Shell::new();
    open(&mut shell, "pos", &vec![]);
    open(&mut shell, "messaging", &vec![]);
    open(&mut shell, "schedule", &vec![]);
    shell.switch_tab("tab-0", READY);
    let closed = closing(shell.close_tab("tab-0", None, READY));
    assert_eq!(closed.teardown, Teardown::Immediate);
    assert_eq!(closed.sleep, None);
    assert_eq!(
        layout(&closed.layout),
        vec![
            ("content", Placement::Hidden),
            ("tab-1", Placement::Foreground),
            ("tab-2", Placement::Hidden),
        ]
    );
    assert_eq!(closed.notice.name, "tab:closed");
    assert_eq!(entries(&closed.notice), vec![("label", "tab-0"), ("active", "tab-1")]);
    assert_eq!(shell.active(), "tab-1");
}

#[test]
fn closing_the_active_last_tab_brings_its_left_neighbor() {
    let mut shell = Shell::new();
    open(&mut shell, "pos", &vec![]);
    open(&mut shell, "messaging", &vec![]);
    open(&mut shell, "schedule", &vec![]);
    let closed = closing(shell.close_tab("tab-2", None, READY));
    assert_eq!(
        layout(&closed.layout),
        vec![
            ("content", Placement::Hidden),
            ("tab-0", Placement::Hidden),
            ("tab-1", Placement::Foreground),
        ]
    );
    assert_eq!(shell.active(), "tab-1");
}

#[test]
fn closing_a_shown_label_that_is_not_open_brings_the_last_tab() {
    let mut shell = Shell::new();
    open(&mut shell, "pos", &vec![]);
    open(&mut shell, "messaging", &vec![]);
    shell.switch_tab("gone", READY);
    let closed = closing(shell.close_tab("gone", None, READY));
    assert_eq!(entries(&closed.notice), vec![("label", "gone"), ("active", "tab-1")]);
}

#[test]
fn closing_a_background_tab_moves_nothing() {
    let mut shell = Shell::new();
    open(&mut shell, "pos", &vec![]);
    open(&mut shell, "messaging", &vec![]);
    let closed = closing(shell.close_tab("tab-0", None, READY));
    assert!(closed.layout.is_empty());
    assert_eq!(entries(&closed.notice), vec![("label", "tab-0"), ("active", "tab-1")]);
    assert_eq!(shell.order(), &vec!["content".to_string(), "tab-1".to_string()]);
}

#[test]
fn closing_falls_back_whatever_the_window() {
    for window in [WindowStatus::Missing, WindowStatus::Unsized] {
        let mut shell = Shell::new();
        open(&mut shell, "pos", &vec![]);
        open(&mut shell, "messaging", &vec![]);
        let closed = closing(shell.close_tab("tab-1", None, window));
        assert!(closed.layout.is_empty());
        assert_eq!(entries(&closed.notice), vec![("label", "tab-1"), ("active", "tab-0")]);
        assert_eq!(shell.active(), "tab-0");
        assert_eq!(shell.order(), &vec!["content".to_string(), "tab-0".to_string()]);
    }
}

#[test]
fn closing_an_unknown_tab_is_reported() {
    let mut shell = Shell::new();
    let closed = closing(shell.close_tab("tab-9", None, READY));
    assert_eq!(entries(&closed.notice), vec![("label", "tab-9"), ("active", "content")]);
    assert_eq!(shell.order().len(), 1);
}

#[test]
fn closing_undoes_opening() {
    let mut shell = Shell::new();
    open(&mut shell, "pos", &vec![]);
    let before = shell.order().clone();
    let label = open(&mut shell, "voice", &vec![]);
    closing(shell.close_tab(&label, Some(true), READY));
    assert_eq!(shell.order(), &before);
    assert_eq!(shell.active(), "tab-0");
    let outcome = shell.open_tab(&page("voice"), &vec![label], READY);
    assert!(matches!(outcome, OpenOutcome::Create(_)));
}

#[test]
fn a_call_keeps_the_phone_tab_open() {
    let mut shell = Shell::new();
    let phone = open(&mut shell, "voice", &vec![]);
    assert_eq!(shell.set_call_active(true), SleepRequest::Hold);
    for force in [None, Some(false)] {
        match shell.close_tab(&phone, force, READY) {
            CloseOutcome::Blocked(notice) => {
                assert_eq!(notice.name, "call:close-blocked");
                assert_eq!(entries(&notice), vec![("kind", "tab"), ("label", "tab-0")]);
            }
            other => panic!("{other:?}"),
        }
    }
    assert_eq!(shell.order().len(), 2);
    assert!(shell.is_call_active());
}

#[test]
fn a_call_does_not_keep_other_tabs_open() {
    let mut shell = Shell::new();
    open(&mut shell, "voice", &vec![]);
    let pos = open(&mut shell, "pos", &vec![]);
    shell.set_call_active(true);
    let closed = closing(shell.close_tab(&pos, None, READY));
    assert_eq!(closed.sleep, None);
    assert!(shell.is_call_active());
}

#[test]
fn insisting_closes_the_phone_tab_and_ends_the_call() {
    let mut shell = Shell::new();
    let phone = open(&mut shell, "voice", &vec![]);
    shell.set_call_active(true);
    let closed = closing(shell.close_tab(&phone, Some(true), READY));
    assert_eq!(closed.sleep, Some(SleepRequest::Release));
    assert_eq!(closed.teardown, Teardown::Terminate);
    assert!(!shell.is_call_active());
    assert!(shell.window_close_requested().is_none());
}

#[test]
fn an_idle_phone_tab_closes_unasked() {
    let mut shell = Shell::new();
    let phone = open(&mut shell, "voice", &vec![]);
    let closed = closing(shell.close_tab_impl(&phone, false, READY));
    assert_eq!(closed.teardown, Teardown::Terminate);
    assert_eq!(closed.sleep, Some(SleepRequest::Release));
}

#[test]
fn a_call_keeps_the_window_open() {
    let mut shell = Shell::new();
    assert!(shell.window_close_requested().is_none());
    shell.set_call_active(true);
    let notice = shell.window_close_requested().unwrap();
    assert_eq!(notice.name, "call:close-blocked");
    assert_eq!(entries(&notice), vec![("kind", "window")]);
    assert_eq!(shell.set_call_active(false), SleepRequest::Release);
    assert!(shell.window_close_requested().is_none());
}

#[test]
fn reconnecting_replaces_the_phone_tab() {
    let mut shell = Shell::new();
    let phone = open(&mut shell, "voice", &vec![]);
    assert_eq!(shell.phone_tab(), Some("tab-0"));
    let reconnect = shell.reconnect_voice(true, READY).unwrap();
    assert_eq!(reconnect.label, phone);
    assert_eq!(reconnect.reopen_after_ms, Some(RECONNECT_DELAY_MS));
    assert_eq!(closing(reconnect.outcome).teardown, Teardown::Terminate);
    assert_eq!(shell.active(), "content");
    // The old webview may still be alive when the new one opens.
    let fresh = open(&mut shell, "voice", &vec![phone]);
    assert_eq!(fresh, "tab-1");
    assert!(TEARDOWN_DELAY_MS < RECONNECT_DELAY_MS);
}

#[test]
fn reconnecting_without_a_phone_tab_does_nothing() {
    let mut shell = Shell::new();
    open(&mut shell, "pos", &vec![]);
    assert_eq!(shell.phone_tab(), None);
    assert!(shell.reconnect_voice(true, READY).is_none());
    assert_eq!(shell.order().len(), 2);
}

#[test]
fn an_unknown_address_is_not_reopened() {
    let mut shell = Shell::new();
    open(&mut shell, "voice", &vec![]);
    let reconnect = shell.reconnect_voice(false, READY).unwrap();
    assert_eq!(reconnect.reopen_after_ms, None);
    assert_eq!(shell.order().len(), 1);
}
