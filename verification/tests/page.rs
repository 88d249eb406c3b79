use vista_shell::page::{
    find_last_segment, is_settings_url, is_voice_url, production_page, tab_title,
    title_for_segment, PageUrl, PRODUCTION_URL,
};

fn page(path: &str) -> PageUrl {
    PageUrl {
        href: format!("https://platform.vistainterface.com{path}"),
        host: Some("platform.vistainterface.com".to_string()),
        path: path.to_string(),
    }
}

#[test]
fn parse_splits_a_url() {
    let url = PageUrl::parse("HTTPS://Platform.VistaInterface.com/manage/7/voice?x=1#top").unwrap();
    assert_eq!(url.href, "https://platform.vistainterface.com/manage/7/voice?x=1#top");
    assert_eq!(url.host.as_deref(), Some("platform.vistainterface.com"));
    assert_eq!(url.path, "/manage/7/voice");
}

#[test]
fn parse_encodes_the_path() {
    let url = PageUrl::parse("https://example.com/countries/việt nam").unwrap();
    assert_eq!(url.path, "/countries/vi%E1%BB%87t%20nam");
    assert!(url.path.is_ascii());
}

#[test]
fn parse_keeps_a_missing_host_missing() {
    let url = PageUrl::parse("mailto:desk@example.com").unwrap();
    assert_eq!(url.host, None);
    assert_eq!(url.path, "desk@example.com");
}

#[test]
fn parse_rejects_what_is_no_url() {
    assert!(PageUrl::parse("manage/7/voice").is_none());
    assert!(PageUrl::parse("").is_none());
}

#[test]
fn parsing_a_serialized_url_changes_nothing() {
    for text in ["https://a.b/c d/é", "http://EXAMPLE.com:80/x/../y", "data:text/plain,Stuff"] {
        let once = PageUrl::parse(text).unwrap();
        let twice = PageUrl::parse(&once.href).unwrap();
        assert_eq!(once.href, twice.href);
        assert_eq!(once.host, twice.host);
        assert_eq!(once.path, twice.path);
    }
}

#[test]
fn production_page_is_the_platform_host() {
    let url = production_page().unwrap();
    assert_eq!(PRODUCTION_URL, "https://platform.vistainterface.com");
    assert_eq!(url.href, "https://platform.vistainterface.com/");
    assert_eq!(url.host.as_deref(), Some("platform.vistainterface.com"));
    assert_eq!(url.path, "/");
}

#[test]
fn last_segment_skips_empty_ones() {
    assert_eq!(find_last_segment("/manage/7/pos").as_deref(), Some("pos"));
    assert_eq!(find_last_segment("/manage/7/pos//").as_deref(), Some("pos"));
    assert_eq!(find_last_segment("pos").as_deref(), Some("pos"));
    assert_eq!(find_last_segment("a/ü").as_deref(), Some("ü"));
    assert_eq!(find_last_segment("///"), None);
    assert_eq!(find_last_segment(""), None);
}

#[test]
fn voice_page_is_recognized() {
    assert!(is_voice_url(&page("/manage/7/voice")));
    assert!(is_voice_url(&page("/manage/7/voice/")));
    assert!(!is_voice_url(&page("/manage/7/voice-settings")));
    assert!(!is_voice_url(&page("/manage/7/voice/log")));
    assert!(!is_voice_url(&page("/")));
}

#[test]
fn settings_page_is_recognized() {
    assert!(is_settings_url(&page("/manage/7/voice-settings")));
    assert!(is_settings_url(&page("/manage/7/voice-settings//")));
    assert!(!is_settings_url(&page("/manage/7/voice")));
    assert!(!is_settings_url(&page("")));
}

#[test]
fn known_pages_have_their_titles() {
    for (segment, title) in [
        ("pos", "POS"),
        ("messaging", "Messaging"),
        ("marketing", "Marketing"),
        ("waitlist", "Waitlist"),
        ("schedule", "Schedule"),
        ("voice", "Phone"),
        ("voice-settings", "Phone settings"),
    ] {
        assert_eq!(tab_title(&page(&format!("/manage/7/{segment}"))), title);
    }
}

#[test]
fn other_pages_are_capitalized() {
    assert_eq!(tab_title(&page("/manage/7/clients")), "Clients");
    assert_eq!(tab_title(&page("/manage/7/x")), "X");
    assert_eq!(tab_title(&page("/manage/7/POS")), "POS");
    assert_eq!(tab_title(&page("/manage/42")), "42");
    assert_eq!(tab_title(&page("/manage/7/%C3%A9t%C3%A9")), "%C3%A9t%C3%A9");
}

#[test]
fn initials_may_grow_in_upper_case() {
    assert_eq!(tab_title(&page("/manage/ßa")), "SSa");
    assert_eq!(tab_title(&page("/manage/éa")), "Éa");
    assert_eq!(tab_title(&page("/manage/山")), "山");
}

#[test]
fn ascii_initials_are_raised() {
    for code in 0u8..128 {
        let initial = code as char;
        if initial == '/' {
            continue;
        }
        let expected = format!("{}zz", initial.to_ascii_uppercase());
        assert_eq!(tab_title(&page(&format!("/m/{initial}zz"))), expected);
    }
}

#[test]
fn a_page_without_segment_is_a_page() {
    assert_eq!(tab_title(&page("/")), "Page");
    assert_eq!(tab_title(&page("")), "Page");
}

#[test]
fn titles_take_the_given_initial() {
    assert_eq!(title_for_segment("clients", "K".to_string()), "Klients");
    assert_eq!(title_for_segment("voice", "K".to_string()), "Phone");
    assert_eq!(title_for_segment("", "K".to_string()), "Page");
}

#[test]
fn trailing_slash_keeps_the_title() {
    assert_eq!(tab_title(&page("/manage/7/clients")), tab_title(&page("/manage/7/clients/")));
}
