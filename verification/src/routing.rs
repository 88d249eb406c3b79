//! Where a navigation or a new-window request goes.

use vstd::prelude::*;

use crate::page::{parsed_url, PageUrl};
use crate::text::{ends_with, same_text, starts_with};

verus! {

/// Host of the Platform app. It tells an internal staff page, which opens as a
/// tab, from an external link, which opens in the system browser.
pub const PLATFORM_HOST: &'static str = "platform.vistainterface.com";

/// Path under which the internal staff pages live.
pub const STAFF_PATH: &'static str = "/manage/";

/// Address to which a tab's page navigates in place of `window.close()`.
///
/// `.invalid` is a reserved top-level domain that never resolves, so no
/// sentinel address can reach a server.
pub const CLOSE_SENTINEL: &'static str = "https://vista-desktop.invalid/__close__";

/// Address by which the softphone page reports that a call began (followed by
/// `1`) or ended (followed by `0`).
pub const CALL_SENTINEL: &'static str = "https://vista-desktop.invalid/__call_active__/";

/// Address by which the softphone page reports that the agent session is live.
pub const AGENT_READY_SENTINEL: &'static str = "https://vista-desktop.invalid/__agent_ready__";

/// Address by which the softphone page asks for a hard reconnect.
pub const RECONNECT_SENTINEL: &'static str = "https://vista-desktop.invalid/__reconnect_phone__";

/// What to do with a request for a new window.
#[derive(Debug, Clone, Copy, PartialEq, Eq, Structural)]
pub enum NewWindow {
    /// Open nothing; record whether a call is live.
    SetCallActive(bool),
    /// Open nothing; close the sign-in window.
    CloseLogin,
    /// Open nothing; replace the Phone tab by a fresh one.
    ReconnectVoice,
    /// Open the managed sign-in window.
    OpenLogin,
    /// Open the page as a tab.
    OpenTab,
    /// Open the page in the system browser.
    OpenBrowser,
}

/// What to do with a navigation inside a content webview.
#[derive(Debug, Clone, Copy, PartialEq, Eq, Structural)]
pub enum Navigation {
    /// Let the page go there.
    Proceed,
    /// Cancel, and close the tab.
    CloseTab,
    /// Cancel, and record whether a call is live.
    SetCallActive(bool),
    /// Cancel, and close the sign-in window.
    CloseLogin,
}

/// Where a page that is neither a sentinel nor a sign-in page opens.
#[derive(Debug, Clone, Copy, PartialEq, Eq, Structural)]
pub enum Route {
    /// As a tab of the shell.
    Tab,
    /// In the system browser.
    Browser,
}

/// The host belongs to the Connect sign-in.
pub open spec fn auth_popup_host(host: Seq<char>) -> bool {
    ||| ".my.connect.aws"@.is_suffix_of(host)
    ||| ".awsapps.com"@.is_suffix_of(host)
    ||| ".aws.amazon.com"@.is_suffix_of(host)
    ||| ".amazonaws.com"@.is_suffix_of(host)
    ||| ".amazoncognito.com"@.is_suffix_of(host)
    ||| host == "signin.aws.amazon.com"@
}

/// Hosts whose popups must stay inside the shell's own cookie jar, so that the
/// sign-in session lands where the softphone frame can read it.
pub fn is_auth_popup_host(host: &str) -> (r: bool)
    ensures
        r == auth_popup_host(host@),
{
    ends_with(host, ".my.connect.aws") || ends_with(host, ".awsapps.com") || ends_with(
        host,
        ".aws.amazon.com",
    ) || ends_with(host, ".amazonaws.com") || ends_with(host, ".amazoncognito.com") || same_text(
        host,
        "signin.aws.amazon.com",
    )
}

/// What a call sentinel says of the call: the flag behind the sentinel begins
/// with `1` while a call is live. `None` where `href` is no call sentinel.
pub open spec fn call_flag(href: Seq<char>) -> Option<bool> {
    if CALL_SENTINEL@.is_prefix_of(href) {
        let flag = href.skip(CALL_SENTINEL@.len() as int);
        Some(flag.len() > 0 && flag[0] == '1')
    } else {
        None
    }
}

/// Reads the call flag out of an address.
pub fn read_call_flag(href: &str) -> (r: Option<bool>)
    ensures
        r == call_flag(href@),
{
    if starts_with(href, CALL_SENTINEL) {
        let at: usize = CALL_SENTINEL.unicode_len();
        Some(href.unicode_len() > at && href.get_char(at) == '1')
    } else {
        None
    }
}

/// The host of a URL, empty where it has none.
pub open spec fn host_or_empty(host: Option<Seq<char>>) -> Seq<char> {
    match host {
        Some(h) => h,
        None => Seq::empty(),
    }
}

/// The page is a staff page of the Platform app.
pub open spec fn staff_page(host: Option<Seq<char>>, path: Seq<char>) -> bool {
    host == Some(PLATFORM_HOST@) && STAFF_PATH@.is_prefix_of(path)
}

/// Where an ordinary page opens.
pub open spec fn route(host: Option<Seq<char>>, path: Seq<char>) -> Route {
    if staff_page(host, path) {
        Route::Tab
    } else {
        Route::Browser
    }
}

/// Opens an internal `/manage/` page as a tab and anything else in the system
/// browser.
pub fn route_new_window(url: &PageUrl) -> (r: Route)
    ensures
        r == route(url@.1, url@.2),
{
    let on_platform: bool = match &url.host {
        Some(host) => same_text(host.as_str(), PLATFORM_HOST),
        None => false,
    };
    if on_platform && starts_with(url.path.as_str(), STAFF_PATH) {
        Route::Tab
    } else {
        Route::Browser
    }
}

/// Where a new-window request for the URL with these parts goes.
pub open spec fn new_window(href: Seq<char>, host: Option<Seq<char>>, path: Seq<char>) -> NewWindow {
    match call_flag(href) {
        Some(active) => NewWindow::SetCallActive(active),
        None => if AGENT_READY_SENTINEL@.is_prefix_of(href) {
            NewWindow::CloseLogin
        } else if RECONNECT_SENTINEL@.is_prefix_of(href) {
            NewWindow::ReconnectVoice
        } else if auth_popup_host(host_or_empty(host)) {
            NewWindow::OpenLogin
        } else {
            match route(host, path) {
                Route::Tab => NewWindow::OpenTab,
                Route::Browser => NewWindow::OpenBrowser,
            }
        },
    }
}

/// Decides where a new-window request (`target="_blank"` or `window.open`)
/// goes. Sentinels open nothing, sign-in pages open in the managed window,
/// staff pages open as tabs and everything else opens in the system browser.
pub fn decide_new_window(url: &PageUrl) -> (r: NewWindow)
    ensures
        r == new_window(url@.0, url@.1, url@.2),
{
    let href: &str = url.href.as_str();
    if let Some(active) = read_call_flag(href) {
        return NewWindow::SetCallActive(active);
    }
    if starts_with(href, AGENT_READY_SENTINEL) {
        return NewWindow::CloseLogin;
    }
    if starts_with(href, RECONNECT_SENTINEL) {
        return NewWindow::ReconnectVoice;
    }
    let sign_in: bool = match &url.host {
        Some(host) => is_auth_popup_host(host.as_str()),
        None => {
            let none: String = String::new();
            is_auth_popup_host(none.as_str())
        },
    };
    if sign_in {
        return NewWindow::OpenLogin;
    }
    match route_new_window(url) {
        Route::Tab => NewWindow::OpenTab,
        Route::Browser => NewWindow::OpenBrowser,
    }
}

/// What becomes of a navigation of the Platform tab to `href`.
pub open spec fn platform_navigation(href: Seq<char>) -> Navigation {
    match call_flag(href) {
        Some(active) => Navigation::SetCallActive(active),
        None => if AGENT_READY_SENTINEL@.is_prefix_of(href) {
            Navigation::CloseLogin
        } else {
            Navigation::Proceed
        },
    }
}

/// What becomes of a navigation of any other tab to `href`.
pub open spec fn tab_navigation(href: Seq<char>) -> Navigation {
    if CLOSE_SENTINEL@.is_prefix_of(href) {
        Navigation::CloseTab
    } else {
        platform_navigation(href)
    }
}

/// Decides on a navigation of the Platform tab.
pub fn decide_platform_navigation(href: &str) -> (r: Navigation)
    ensures
        r == platform_navigation(href@),
{
    if let Some(active) = read_call_flag(href) {
        return Navigation::SetCallActive(active);
    }
    if starts_with(href, AGENT_READY_SENTINEL) {
        return Navigation::CloseLogin;
    }
    Navigation::Proceed
}

/// Decides on a navigation of a tab other than the Platform tab.
pub fn decide_tab_navigation(href: &str) -> (r: Navigation)
    ensures
        r == tab_navigation(href@),
{
    if starts_with(href, CLOSE_SENTINEL) {
        return Navigation::CloseTab;
    }
    decide_platform_navigation(href)
}

/// The host serves the Connect frames.
pub open spec fn connect_frame_host(host: Seq<char>) -> bool {
    ".my.connect.aws"@.is_suffix_of(host) || ".awsapps.com"@.is_suffix_of(host)
}

/// The page with this address and host belongs to the Platform app, loaded
/// securely, or to a Connect frame.
pub open spec fn trusted_page(href: Seq<char>, host: Option<Seq<char>>) -> bool {
    host matches Some(h) && (("https://"@.is_prefix_of(href) && h == PLATFORM_HOST@)
        || connect_frame_host(h))
}

/// Whether a page may use the microphone without a prompt. Its host decides:
/// the Platform host itself, by https, or a host of the Connect frames.
pub fn is_trusted_page(page: &PageUrl) -> (r: bool)
    ensures
        r == trusted_page(page@.0, page@.1),
{
    match &page.host {
        Some(host) => starts_with(page.href.as_str(), "https://") && same_text(
            host.as_str(),
            PLATFORM_HOST,
        ) || ends_with(host.as_str(), ".my.connect.aws") || ends_with(
            host.as_str(),
            ".awsapps.com",
        ),
        None => false,
    }
}

/// Whether a permission request from `uri` is granted without a prompt: only
/// the microphone is, and only to the Platform app and the Connect frames. Every
/// other request keeps the default prompt, one from an address that is no URL
/// included.
pub fn grants_permission(is_microphone: bool, uri: &str) -> (r: bool)
    ensures
        r == (is_microphone && (parsed_url(uri@) matches Some(p) && trusted_page(p.0, p.1))),
{
    if !is_microphone {
        return false;
    }
    match PageUrl::parse(uri) {
        Some(page) => is_trusted_page(&page),
        None => false,
    }
}

/// The address is one of the sentinels of the softphone page.
pub open spec fn voice_sentinel(href: Seq<char>) -> bool {
    ||| CALL_SENTINEL@.is_prefix_of(href)
    ||| AGENT_READY_SENTINEL@.is_prefix_of(href)
    ||| RECONNECT_SENTINEL@.is_prefix_of(href)
}

/// No address carries two sentinels at once.
proof fn lemma_sentinels_differ(href: Seq<char>)
    ensures
        CALL_SENTINEL@.is_prefix_of(href) ==> !AGENT_READY_SENTINEL@.is_prefix_of(href)
            && !RECONNECT_SENTINEL@.is_prefix_of(href) && !CLOSE_SENTINEL@.is_prefix_of(href),
        AGENT_READY_SENTINEL@.is_prefix_of(href) ==> !RECONNECT_SENTINEL@.is_prefix_of(href)
            && !CLOSE_SENTINEL@.is_prefix_of(href),
        RECONNECT_SENTINEL@.is_prefix_of(href) ==> !CLOSE_SENTINEL@.is_prefix_of(href),
{
    reveal_strlit("https://vista-desktop.invalid/__close__");
    reveal_strlit("https://vista-desktop.invalid/__call_active__/");
    reveal_strlit("https://vista-desktop.invalid/__agent_ready__");
    reveal_strlit("https://vista-desktop.invalid/__reconnect_phone__");
    if CALL_SENTINEL@.is_prefix_of(href) {
        assert(href[32] == CALL_SENTINEL@[32]);
        assert(href[33] == CALL_SENTINEL@[33]);
    }
    if AGENT_READY_SENTINEL@.is_prefix_of(href) {
        assert(href[32] == AGENT_READY_SENTINEL@[32]);
    }
    if RECONNECT_SENTINEL@.is_prefix_of(href) {
        assert(href[32] == RECONNECT_SENTINEL@[32]);
    }
    if CLOSE_SENTINEL@.is_prefix_of(href) {
        assert(href[32] == CLOSE_SENTINEL@[32]);
        assert(href[33] == CLOSE_SENTINEL@[33]);
    }
}

/// Each signal of the softphone page is read as what it says, whatever follows
/// it, both as a new window and as a navigation.
pub proof fn law_signals_are_understood(
    rest: Seq<char>,
    host: Option<Seq<char>>,
    path: Seq<char>,
)
    ensures
        new_window(CALL_SENTINEL@ + seq!['1'] + rest, host, path) == NewWindow::SetCallActive(true),
        new_window(CALL_SENTINEL@ + seq!['0'] + rest, host, path) == NewWindow::SetCallActive(false),
        new_window(AGENT_READY_SENTINEL@ + rest, host, path) == NewWindow::CloseLogin,
        new_window(RECONNECT_SENTINEL@ + rest, host, path) == NewWindow::ReconnectVoice,
        platform_navigation(CALL_SENTINEL@ + seq!['1'] + rest) == Navigation::SetCallActive(true),
        platform_navigation(CALL_SENTINEL@ + seq!['0'] + rest) == Navigation::SetCallActive(false),
        platform_navigation(AGENT_READY_SENTINEL@ + rest) == Navigation::CloseLogin,
        tab_navigation(CALL_SENTINEL@ + seq!['1'] + rest) == Navigation::SetCallActive(true),
        tab_navigation(CALL_SENTINEL@ + seq!['0'] + rest) == Navigation::SetCallActive(false),
        tab_navigation(AGENT_READY_SENTINEL@ + rest) == Navigation::CloseLogin,
        tab_navigation(CLOSE_SENTINEL@ + rest) == Navigation::CloseTab,
{
    let on = CALL_SENTINEL@ + seq!['1'] + rest;
    let off = CALL_SENTINEL@ + seq!['0'] + rest;
    let ready = AGENT_READY_SENTINEL@ + rest;
    let again = RECONNECT_SENTINEL@ + rest;
    assert(CALL_SENTINEL@.is_prefix_of(on)) by {
        assert(on.take(CALL_SENTINEL@.len() as int) =~= CALL_SENTINEL@);
    }
    assert(CALL_SENTINEL@.is_prefix_of(off)) by {
        assert(off.take(CALL_SENTINEL@.len() as int) =~= CALL_SENTINEL@);
    }
    assert(AGENT_READY_SENTINEL@.is_prefix_of(ready)) by {
        assert(ready.take(AGENT_READY_SENTINEL@.len() as int) =~= AGENT_READY_SENTINEL@);
    }
    assert(RECONNECT_SENTINEL@.is_prefix_of(again)) by {
        assert(again.take(RECONNECT_SENTINEL@.len() as int) =~= RECONNECT_SENTINEL@);
    }
    assert(CLOSE_SENTINEL@.is_prefix_of(CLOSE_SENTINEL@ + rest)) by {
        assert((CLOSE_SENTINEL@ + rest).take(CLOSE_SENTINEL@.len() as int) =~= CLOSE_SENTINEL@);
    }
    lemma_sentinels_differ(on);
    lemma_sentinels_differ(off);
    lemma_sentinels_differ(ready);
    lemma_sentinels_differ(again);
}

/// A sentinel opens nothing: no tab, no browser page and no sign-in window.
pub proof fn law_sentinel_opens_nothing(
    href: Seq<char>,
    host: Option<Seq<char>>,
    path: Seq<char>,
)
    requires
        voice_sentinel(href),
    ensures
        new_window(href, host, path) != NewWindow::OpenLogin,
        new_window(href, host, path) != NewWindow::OpenTab,
        new_window(href, host, path) != NewWindow::OpenBrowser,
{
}

/// A tab goes wherever it is sent, except to the sentinels that it understands.
pub proof fn law_navigation_proceeds(href: Seq<char>)
    ensures
        platform_navigation(href) == Navigation::Proceed <==> !CALL_SENTINEL@.is_prefix_of(href)
            && !AGENT_READY_SENTINEL@.is_prefix_of(href),
        tab_navigation(href) == Navigation::Proceed <==> !CALL_SENTINEL@.is_prefix_of(href)
            && !AGENT_READY_SENTINEL@.is_prefix_of(href) && !CLOSE_SENTINEL@.is_prefix_of(href),
{
}

/// A sign-in popup always opens in the managed window, never in the system
/// browser and never as a tab.
pub proof fn law_sign_in_stays_in_the_shell(href: Seq<char>, host: Seq<char>, path: Seq<char>)
    requires
        auth_popup_host(host),
        !voice_sentinel(href),
    ensures
        new_window(href, Some(host), path) == NewWindow::OpenLogin,
{
}

/// The Platform host is no sign-in host.
pub proof fn law_platform_is_no_sign_in_host()
    ensures
        !auth_popup_host(PLATFORM_HOST@),
{
    reveal_strlit("platform.vistainterface.com");
    reveal_strlit(".my.connect.aws");
    reveal_strlit(".awsapps.com");
    reveal_strlit(".aws.amazon.com");
    reveal_strlit(".amazonaws.com");
    reveal_strlit(".amazoncognito.com");
    reveal_strlit("signin.aws.amazon.com");
    let host = PLATFORM_HOST@;
    // The host ends in `e.com`; one suffix ends in `s`, the others in `s.com`,
    // `n.com` or `o.com`.
    assert(host[26] == 'm' && host[22] == 'e');
    if ".my.connect.aws"@.is_suffix_of(host) {
        assert(host.skip(12)[14] == host[26]);
    }
    if ".awsapps.com"@.is_suffix_of(host) {
        assert(host.skip(15)[7] == host[22]);
    }
    if ".aws.amazon.com"@.is_suffix_of(host) {
        assert(host.skip(12)[10] == host[22]);
    }
    if ".amazonaws.com"@.is_suffix_of(host) {
        assert(host.skip(13)[9] == host[22]);
    }
    if ".amazoncognito.com"@.is_suffix_of(host) {
        assert(host.skip(9)[13] == host[22]);
    }
    assert(host.len() != "signin.aws.amazon.com"@.len());
}

/// Every staff page of the Platform app opens as a tab.
pub proof fn law_staff_page_opens_as_tab(href: Seq<char>, path: Seq<char>)
    requires
        STAFF_PATH@.is_prefix_of(path),
        !voice_sentinel(href),
    ensures
        new_window(href, Some(PLATFORM_HOST@), path) == NewWindow::OpenTab,
{
    law_platform_is_no_sign_in_host();
}

/// The system browser gets what is neither a sentinel nor a sign-in page nor a
/// staff page, and nothing else; only staff pages become tabs.
pub proof fn law_external_links_leave_the_shell(
    href: Seq<char>,
    host: Option<Seq<char>>,
    path: Seq<char>,
)
    ensures
        new_window(href, host, path) == NewWindow::OpenBrowser <==> !voice_sentinel(href)
            && !auth_popup_host(host_or_empty(host)) && !staff_page(host, path),
        new_window(href, host, path) == NewWindow::OpenTab ==> staff_page(host, path),
{
}

/// Every secure page on the Platform host may use the microphone.
pub proof fn law_platform_has_the_microphone(rest: Seq<char>)
    ensures
        trusted_page("https://"@ + rest, Some(PLATFORM_HOST@)),
{
    assert(("https://"@ + rest).take("https://"@.len() as int) =~= "https://"@);
}

/// Every page on a host of the Connect frames may use the microphone.
pub proof fn law_connect_frame_has_the_microphone(href: Seq<char>, host: Seq<char>)
    requires
        connect_frame_host(host),
    ensures
        trusted_page(href, Some(host)),
{
}

/// The microphone is for hosts: the address of a page gives it nothing beyond
/// its being secure, and a page without a host never has it.
pub proof fn law_only_the_host_is_trusted(
    href: Seq<char>,
    other: Seq<char>,
    host: Option<Seq<char>>,
)
    ensures
        "https://"@.is_prefix_of(href) == "https://"@.is_prefix_of(other) ==> trusted_page(
            href,
            host,
        ) == trusted_page(other, host),
        trusted_page(href, host) ==> (host matches Some(h) && (h == PLATFORM_HOST@
            || connect_frame_host(h))),
{
}

/// A host that goes on behind the Platform host keeps the prompt, unless it is
/// a Connect host itself.
pub proof fn law_lookalike_host_keeps_the_prompt(href: Seq<char>, rest: Seq<char>)
    requires
        rest.len() > 0,
        !connect_frame_host(PLATFORM_HOST@ + rest),
    ensures
        !trusted_page(href, Some(PLATFORM_HOST@ + rest)),
{
    assert((PLATFORM_HOST@ + rest).len() > PLATFORM_HOST@.len());
}

proof fn lemma_ends_with_suffix(t: Seq<char>, suffix: Seq<char>)
    ensures
        suffix.is_suffix_of(t + suffix),
{
    assert((t + suffix).skip(t.len() as int) =~= suffix);
    assert((t + suffix).subrange(t.len() as int, (t + suffix).len() as int) =~= suffix);
}

proof fn lemma_begins_with_prefix(prefix: Seq<char>, rest: Seq<char>)
    ensures
        prefix.is_prefix_of(prefix + rest),
{
    assert((prefix + rest).take(prefix.len() as int) =~= prefix);
    assert((prefix + rest).subrange(0, prefix.len() as int) =~= prefix);
}

/// Whatever stands before it, a host under one of the five sign-in domains opens in
/// the managed sign-in window, unless the address is a sentinel.
pub proof fn law_every_sign_in_domain_opens_the_sign_in_window(
    url: &PageUrl,
    r: NewWindow,
    host: String,
    t: Seq<char>,
)
    requires
        call_ensures(decide_new_window, (url,), r),
        url.host == Some(host),
        !CALL_SENTINEL@.is_prefix_of(url.href@),
        !AGENT_READY_SENTINEL@.is_prefix_of(url.href@),
        !RECONNECT_SENTINEL@.is_prefix_of(url.href@),
    ensures
        host@ == t + ".my.connect.aws"@ ==> r == NewWindow::OpenLogin,
        host@ == t + ".awsapps.com"@ ==> r == NewWindow::OpenLogin,
        host@ == t + ".aws.amazon.com"@ ==> r == NewWindow::OpenLogin,
        host@ == t + ".amazonaws.com"@ ==> r == NewWindow::OpenLogin,
        host@ == t + ".amazoncognito.com"@ ==> r == NewWindow::OpenLogin,
{
    lemma_ends_with_suffix(t, ".my.connect.aws"@);
    lemma_ends_with_suffix(t, ".awsapps.com"@);
    lemma_ends_with_suffix(t, ".aws.amazon.com"@);
    lemma_ends_with_suffix(t, ".amazonaws.com"@);
    lemma_ends_with_suffix(t, ".amazoncognito.com"@);
    assert(url@.1 == Some(host@));
}

/// The host lies under one of the five sign-in domains.
pub open spec fn under_sign_in_domain(host: Seq<char>) -> bool {
    ||| exists|t: Seq<char>| host == #[trigger] (t + ".my.connect.aws"@)
    ||| exists|t: Seq<char>| host == #[trigger] (t + ".awsapps.com"@)
    ||| exists|t: Seq<char>| host == #[trigger] (t + ".aws.amazon.com"@)
    ||| exists|t: Seq<char>| host == #[trigger] (t + ".amazonaws.com"@)
    ||| exists|t: Seq<char>| host == #[trigger] (t + ".amazoncognito.com"@)
}

proof fn lemma_suffix_splits(host: Seq<char>, suffix: Seq<char>)
    requires
        suffix.is_suffix_of(host),
    ensures
        host == host.take(host.len() - suffix.len()) + suffix,
{
    assert(host =~= host.take(host.len() - suffix.len()) + suffix);
}

proof fn lemma_sign_in_hosts(host: Seq<char>)
    ensures
        auth_popup_host(host) <==> under_sign_in_domain(host),
{
    if auth_popup_host(host) {
        if host == "signin.aws.amazon.com"@ {
            reveal_strlit("signin.aws.amazon.com");
            reveal_strlit("signin");
            reveal_strlit(".aws.amazon.com");
            assert(host =~= "signin"@ + ".aws.amazon.com"@);
        } else if ".my.connect.aws"@.is_suffix_of(host) {
            lemma_suffix_splits(host, ".my.connect.aws"@);
        } else if ".awsapps.com"@.is_suffix_of(host) {
            lemma_suffix_splits(host, ".awsapps.com"@);
        } else if ".aws.amazon.com"@.is_suffix_of(host) {
            lemma_suffix_splits(host, ".aws.amazon.com"@);
        } else if ".amazonaws.com"@.is_suffix_of(host) {
            lemma_suffix_splits(host, ".amazonaws.com"@);
        } else {
            lemma_suffix_splits(host, ".amazoncognito.com"@);
        }
    }
    if under_sign_in_domain(host) {
        if exists|t: Seq<char>| host == #[trigger] (t + ".my.connect.aws"@) {
            let t = choose|t: Seq<char>| host == #[trigger] (t + ".my.connect.aws"@);
            lemma_ends_with_suffix(t, ".my.connect.aws"@);
        } else if exists|t: Seq<char>| host == #[trigger] (t + ".awsapps.com"@) {
            let t = choose|t: Seq<char>| host == #[trigger] (t + ".awsapps.com"@);
            lemma_ends_with_suffix(t, ".awsapps.com"@);
        } else if exists|t: Seq<char>| host == #[trigger] (t + ".aws.amazon.com"@) {
            let t = choose|t: Seq<char>| host == #[trigger] (t + ".aws.amazon.com"@);
            lemma_ends_with_suffix(t, ".aws.amazon.com"@);
        } else if exists|t: Seq<char>| host == #[trigger] (t + ".amazonaws.com"@) {
            let t = choose|t: Seq<char>| host == #[trigger] (t + ".amazonaws.com"@);
            lemma_ends_with_suffix(t, ".amazonaws.com"@);
        } else {
            let t = choose|t: Seq<char>| host == #[trigger] (t + ".amazoncognito.com"@);
            lemma_ends_with_suffix(t, ".amazoncognito.com"@);
        }
    }
}

/// The sign-in hosts are the hosts under the five sign-in domains, and no others.
pub proof fn law_sign_in_hosts_lie_under_five_domains(host: &str, r: bool)
    requires
        call_ensures(is_auth_popup_host, (host,), r),
    ensures
        r <==> under_sign_in_domain(host@),
{
    lemma_sign_in_hosts(host@);
}

/// The flag is read from the one character behind the sentinel, whatever follows.
pub proof fn law_flag_is_one_character(href: &str, r: Option<bool>, rest: Seq<char>)
    requires
        call_ensures(read_call_flag, (href,), r),
    ensures
        href@ == CALL_SENTINEL@ + rest ==> r == Some(rest.len() > 0 && rest[0] == '1'),
        r is Some ==> CALL_SENTINEL@.is_prefix_of(href@),
{
    if href@ == CALL_SENTINEL@ + rest {
        lemma_begins_with_prefix(CALL_SENTINEL@, rest);
        assert(href@.skip(CALL_SENTINEL@.len() as int) =~= rest);
    }
}

/// Every new-window request goes one way. The call sentinel sets the flag that it
/// carries, the agent-ready sentinel closes the sign-in window, and the reconnect
/// sentinel replaces the Phone tab. Of all other addresses those under a sign-in domain
/// open in the sign-in window, those under `/manage/` on the Platform host as a tab,
/// and the rest in the system browser.
pub proof fn law_new_windows_go_one_way(url: &PageUrl, r: NewWindow, rest: Seq<char>)
    requires
        call_ensures(decide_new_window, (url,), r),
    ensures
        url.href@ == CALL_SENTINEL@ + rest ==> r == NewWindow::SetCallActive(
            rest.len() > 0 && rest[0] == '1',
        ),
        r is SetCallActive <==> CALL_SENTINEL@.is_prefix_of(url.href@),
        r == NewWindow::CloseLogin <==> AGENT_READY_SENTINEL@.is_prefix_of(url.href@),
        r == NewWindow::ReconnectVoice <==> RECONNECT_SENTINEL@.is_prefix_of(url.href@),
        ({
            let sentinel = CALL_SENTINEL@.is_prefix_of(url.href@)
                || AGENT_READY_SENTINEL@.is_prefix_of(url.href@)
                || RECONNECT_SENTINEL@.is_prefix_of(url.href@);
            let sign_in = url.host matches Some(h) && under_sign_in_domain(h@);
            let staff = (url.host matches Some(h) && h@ == "platform.vistainterface.com"@)
                && "/manage/"@.is_prefix_of(url.path@);
            &&& r == NewWindow::OpenLogin <==> !sentinel && sign_in
            &&& r == NewWindow::OpenTab <==> !sentinel && staff
            &&& r == NewWindow::OpenBrowser <==> !sentinel && !sign_in && !staff
        }),
{
    lemma_sentinels_differ(url.href@);
    if url.href@ == CALL_SENTINEL@ + rest {
        lemma_begins_with_prefix(CALL_SENTINEL@, rest);
        assert(url.href@.skip(CALL_SENTINEL@.len() as int) =~= rest);
    }
    law_platform_is_no_sign_in_host();
    match url.host {
        Some(h) => {
            lemma_sign_in_hosts(h@);
        },
        None => {
            reveal_strlit(".my.connect.aws");
            reveal_strlit(".awsapps.com");
            reveal_strlit(".aws.amazon.com");
            reveal_strlit(".amazonaws.com");
            reveal_strlit(".amazoncognito.com");
            reveal_strlit("signin.aws.amazon.com");
            assert(".my.connect.aws"@.len() > 0 && ".awsapps.com"@.len() > 0
                && ".aws.amazon.com"@.len() > 0 && ".amazonaws.com"@.len() > 0
                && ".amazoncognito.com"@.len() > 0 && "signin.aws.amazon.com"@.len() > 0);
            assert(!auth_popup_host(Seq::empty()));
        },
    }
}

/// An ordinary page opens as a tab exactly where its host is the Platform host and its
/// path begins with `/manage/`.
pub proof fn law_only_staff_pages_become_tabs(url: &PageUrl, r: Route)
    requires
        call_ensures(route_new_window, (url,), r),
    ensures
        r == Route::Tab <==> (url.host matches Some(h) && h@ == "platform.vistainterface.com"@)
            && "/manage/"@.is_prefix_of(url.path@),
        r == Route::Browser <==> r != Route::Tab,
{
}

/// A navigation inside a tab is cancelled for the sentinels that the tab understands
/// and goes ahead for every other address. The Platform tab does not understand the
/// close sentinel; in all else the tabs agree.
pub proof fn law_navigations_go_one_way(
    href: &str,
    platform: Navigation,
    tab: Navigation,
    rest: Seq<char>,
)
    requires
        call_ensures(decide_platform_navigation, (href,), platform),
        call_ensures(decide_tab_navigation, (href,), tab),
    ensures
        href@ == CALL_SENTINEL@ + rest ==> platform == Navigation::SetCallActive(
            rest.len() > 0 && rest[0] == '1',
        ),
        platform is SetCallActive <==> CALL_SENTINEL@.is_prefix_of(href@),
        platform == Navigation::CloseLogin <==> AGENT_READY_SENTINEL@.is_prefix_of(href@),
        platform == Navigation::Proceed <==> !CALL_SENTINEL@.is_prefix_of(href@)
            && !AGENT_READY_SENTINEL@.is_prefix_of(href@),
        tab == Navigation::CloseTab <==> CLOSE_SENTINEL@.is_prefix_of(href@),
        tab != Navigation::CloseTab ==> tab == platform,
        platform != Navigation::CloseTab,
{
    lemma_sentinels_differ(href@);
    if href@ == CALL_SENTINEL@ + rest {
        lemma_begins_with_prefix(CALL_SENTINEL@, rest);
        assert(href@.skip(CALL_SENTINEL@.len() as int) =~= rest);
    }
}

/// A page is trusted with the microphone on the Platform host by https, and on every
/// host under the two domains of the Connect frames, whatever stands before them and
/// whatever the scheme; on no other page.
pub proof fn law_trusted_pages(page: &PageUrl, r: bool, t: Seq<char>)
    requires
        call_ensures(is_trusted_page, (page,), r),
    ensures
        page.host is None ==> !r,
        page.host matches Some(h) ==> {
            &&& h@ == t + ".my.connect.aws"@ ==> r
            &&& h@ == t + ".awsapps.com"@ ==> r
            &&& h@ == "platform.vistainterface.com"@ ==> (r <==> "https://"@.is_prefix_of(
                page.href@,
            ))
            &&& r && h@ != "platform.vistainterface.com"@ ==> ".my.connect.aws"@.is_suffix_of(h@)
                || ".awsapps.com"@.is_suffix_of(h@)
        },
{
    lemma_ends_with_suffix(t, ".my.connect.aws"@);
    lemma_ends_with_suffix(t, ".awsapps.com"@);
    law_platform_is_no_sign_in_host();
}

/// Only the microphone is granted, and only to the page that the request's address
/// leads to, where that page is trusted. An address that is no URL is granted nothing.
pub proof fn law_permission_goes_to_trusted_pages(
    is_microphone: bool,
    uri: &str,
    r: bool,
    parsed: Option<PageUrl>,
    trusted: bool,
)
    requires
        call_ensures(grants_permission, (is_microphone, uri), r),
        call_ensures(PageUrl::parse, (uri,), parsed),
        parsed matches Some(page) ==> call_ensures(is_trusted_page, (&page,), trusted),
    ensures
        r <==> is_microphone && parsed is Some && trusted,
{
}

} // verus!
