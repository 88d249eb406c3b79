use vista_shell::page::PageUrl;
use vista_shell::routing::{
    decide_new_window, decide_platform_navigation, decide_tab_navigation, grants_permission,
    is_auth_popup_host, is_trusted_page, read_call_flag, route_new_window, Navigation, NewWindow, Route,
    AGENT_READY_SENTINEL, CALL_SENTINEL, CLOSE_SENTINEL, PLATFORM_HOST, RECONNECT_SENTINEL,
};

fn url(text: &str) -> PageUrl {
    PageUrl::parse(text).unwrap()
}

fn new_window(text: &str) -> NewWindow {
    decide_new_window(&url(text))
}

#[test]
fn sign_in_hosts_are_recognized() {
    for host in [
        "acme.my.connect.aws",
        "d-123.awsapps.com",
        "us-east-1.signin.aws.amazon.com",
        "signin.aws.amazon.com",
        "s3.amazonaws.com",
        "pool.auth.us-east-1.amazoncognito.com",
    ] {
        assert!(is_auth_popup_host(host), "{host}");
    }
}

#[test]
fn other_hosts_are_no_sign_in_hosts() {
    for host in [
        "",
        PLATFORM_HOST,
        "awsapps.com",
        "my.connect.aws",
        "amazonaws.com.example.org",
        "notamazonaws.com",
        "amazon.com",
    ] {
        assert!(!is_auth_popup_host(host), "{host}");
    }
}

#[test]
fn call_flag_follows_the_sentinel() {
    assert_eq!(read_call_flag("https://vista-desktop.invalid/__call_active__/1"), Some(true));
    assert_eq!(read_call_flag("https://vista-desktop.invalid/__call_active__/0"), Some(false));
    assert_eq!(read_call_flag("https://vista-desktop.invalid/__call_active__/"), Some(false));
    assert_eq!(read_call_flag("https://vista-desktop.invalid/__call_active__/10"), Some(true));
    assert_eq!(read_call_flag("https://vista-desktop.invalid/__call_active__/01"), Some(false));
    assert_eq!(read_call_flag("https://vista-desktop.invalid/__call_active__"), None);
}

#[test]
fn sentinels_open_nothing() {
    assert_eq!(new_window(&format!("{CALL_SENTINEL}1")), NewWindow::SetCallActive(true));
    assert_eq!(new_window(&format!("{CALL_SENTINEL}0")), NewWindow::SetCallActive(false));
    assert_eq!(new_window(AGENT_READY_SENTINEL), NewWindow::CloseLogin);
    assert_eq!(new_window(RECONNECT_SENTINEL), NewWindow::ReconnectVoice);
    assert_eq!(new_window(&format!("{RECONNECT_SENTINEL}?again")), NewWindow::ReconnectVoice);
}

#[test]
fn close_sentinel_is_no_new_window_signal() {
    assert_eq!(new_window(CLOSE_SENTINEL), NewWindow::OpenBrowser);
}

#[test]
fn sign_in_pages_open_in_the_managed_window() {
    assert_eq!(new_window("https://acme.my.connect.aws/login"), NewWindow::OpenLogin);
    assert_eq!(new_window("https://signin.aws.amazon.com/manage/"), NewWindow::OpenLogin);
}

#[test]
fn staff_pages_open_as_tabs() {
    assert_eq!(new_window("https://platform.vistainterface.com/manage/7/pos"), NewWindow::OpenTab);
    assert_eq!(route_new_window(&url("https://platform.vistainterface.com/manage/")), Route::Tab);
}

#[test]
fn everything_else_opens_in_the_browser() {
    for text in [
        "https://platform.vistainterface.com/",
        "https://platform.vistainterface.com/manage",
        "https://platform.vistainterface.com/book/manage/7",
        "https://app.vistainterface.com/manage/7/pos",
        "https://example.com/manage/7/pos",
        "mailto:desk@example.com",
    ] {
        assert_eq!(new_window(text), NewWindow::OpenBrowser, "{text}");
        assert_eq!(route_new_window(&url(text)), Route::Browser, "{text}");
    }
}

#[test]
fn platform_tab_understands_the_voice_signals() {
    assert_eq!(
        decide_platform_navigation(&format!("{CALL_SENTINEL}1")),
        Navigation::SetCallActive(true)
    );
    assert_eq!(decide_platform_navigation(AGENT_READY_SENTINEL), Navigation::CloseLogin);
    assert_eq!(decide_platform_navigation(CLOSE_SENTINEL), Navigation::Proceed);
    assert_eq!(decide_platform_navigation(RECONNECT_SENTINEL), Navigation::Proceed);
    assert_eq!(
        decide_platform_navigation("https://platform.vistainterface.com/"),
        Navigation::Proceed
    );
}

#[test]
fn other_tabs_can_close_themselves() {
    assert_eq!(decide_tab_navigation(CLOSE_SENTINEL), Navigation::CloseTab);
    assert_eq!(
        decide_tab_navigation(&format!("{CALL_SENTINEL}0")),
        Navigation::SetCallActive(false)
    );
    assert_eq!(decide_tab_navigation(AGENT_READY_SENTINEL), Navigation::CloseLogin);
    assert_eq!(decide_tab_navigation("https://example.com/__close__"), Navigation::Proceed);
}

#[test]
fn microphone_goes_to_trusted_origins_only() {
    assert!(grants_permission(true, "https://platform.vistainterface.com/manage/7/voice"));
    assert!(grants_permission(true, "https://acme.my.connect.aws/ccp-v2"));
    assert!(grants_permission(true, "https://d-123.awsapps.com/"));
    assert!(grants_permission(true, "http://acme.my.connect.aws/"));
    assert!(!grants_permission(true, "https://example.com/"));
    assert!(!grants_permission(true, "http://platform.vistainterface.com/"));
    assert!(!grants_permission(true, ""));
    assert!(!grants_permission(false, "https://platform.vistainterface.com/"));
}

#[test]
fn lookalike_hosts_keep_the_prompt() {
    for uri in [
        "https://platform.vistainterface.com.evil.example/",
        "https://platform.vistainterface.community/",
        "https://platform.vistainterface.com@evil.example/",
        "https://evil-platform.vistainterface.com/",
        "https://acme.my.connect.aws.evil.example/",
        "https://d-123.awsapps.com.evil.example/",
        "https://awsapps.com/",
        "https://evilawsapps.com/",
    ] {
        assert!(!grants_permission(true, uri), "{uri}");
    }
}

#[test]
fn trusted_names_outside_the_host_keep_the_prompt() {
    for uri in [
        "https://evil.example/?x=.awsapps.com",
        "https://evil.example/?x=.my.connect.aws",
        "https://evil.example/.awsapps.com",
        "https://evil.example/#https://platform.vistainterface.com",
        "https://x.awsapps.com@evil.example/",
        "data:text/plain,https://x.awsapps.com",
        "no url at all",
    ] {
        assert!(!grants_permission(true, uri), "{uri}");
    }
}

#[test]
fn trust_goes_by_host_and_scheme() {
    assert!(is_trusted_page(&url("https://PLATFORM.vistainterface.com:8443/manage/7/voice")));
    assert!(is_trusted_page(&url("https://platform.vistainterface.com")));
    assert!(!is_trusted_page(&url("http://platform.vistainterface.com/")));
    assert!(is_trusted_page(&url("http://acme.my.connect.aws/")));
    assert!(is_trusted_page(&url("http://d-123.awsapps.com/")));
    assert!(!is_trusted_page(&url("http://acme.my.connect.aws.evil.example/")));
    assert!(!is_trusted_page(&url("https://vistainterface.com/")));
    assert!(!is_trusted_page(&url("mailto:desk@platform.vistainterface.com")));
}
