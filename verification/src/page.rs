//! Page addresses: the parts of a URL that the shell looks at, the segment
//! that names a page, and the title shown on a page's tab.

use vstd::prelude::*;

use crate::text::{chars_of, same_text};

verus! {

/// Address of the first (Platform) tab.
///
/// It is the Platform host and not the sign-in host: an unauthenticated visit
/// to Platform sets the cookie that brings the user back after sign-in.
pub const PRODUCTION_URL: &'static str = "https://platform.vistainterface.com";

/// The parts of a URL that the shell reads.
#[derive(Debug)]
pub struct PageUrl {
    /// The whole URL in its serialized form.
    pub href: String,
    /// The host, where the URL has one.
    pub host: Option<String>,
    /// The path, percent-encoded.
    pub path: String,
}

/// The contents of an optional string.
pub open spec fn optional_text(s: Option<String>) -> Option<Seq<char>> {
    match s {
        Some(t) => Some(t@),
        None => None,
    }
}

impl View for PageUrl {
    type V = (Seq<char>, Option<Seq<char>>, Seq<char>);

    /// Serialized form, host and path.
    open spec fn view(&self) -> (Seq<char>, Option<Seq<char>>, Seq<char>) {
        (self.href@, optional_text(self.host), self.path@)
    }
}

/// All characters of `text` are ASCII.
pub open spec fn ascii_text(text: Seq<char>) -> bool {
    forall|i: int| 0 <= i < text.len() ==> (#[trigger] text[i] as int) < 128
}

/// What `url::Url::parse` makes of `input`: the serialized URL, its host and
/// its path, or nothing where it reports an error.
pub uninterp spec fn parsed_url(input: Seq<char>) -> Option<
    (Seq<char>, Option<Seq<char>>, Seq<char>),
>;

/// Calls `url::Url::parse` and reads the result with `as_str`, `host_str` and
/// `path`. The result depends on the text alone and is called `parsed_url`; the
/// path is percent-encoded, so that all of its characters are ASCII. Nothing is
/// claimed about which texts are accepted.
#[verifier::external_body]
fn parse_with_url(input: &str) -> (r: Option<PageUrl>)
    ensures
        match r {
            Some(page) => parsed_url(input@) == Some(page@) && ascii_text(page.path@),
            None => parsed_url(input@) is None,
        },
{
    let url = url::Url::parse(input).ok()?;
    Some(
        PageUrl {
            href: url.as_str().to_string(),
            host: url.host_str().map(str::to_string),
            path: url.path().to_string(),
        },
    )
}

impl PageUrl {
    /// The parts of the URL written in `input`; `None` where it is no URL.
    pub fn parse(input: &str) -> (r: Option<PageUrl>)
        ensures
            match r {
                Some(page) => parsed_url(input@) == Some(page@) && ascii_text(page.path@),
                None => parsed_url(input@) is None,
            },
    {
        parse_with_url(input)
    }
}

/// The page of the first tab.
pub fn production_page() -> (r: Option<PageUrl>)
    ensures
        match r {
            Some(page) => parsed_url(PRODUCTION_URL@) == Some(page@) && ascii_text(page.path@),
            None => parsed_url(PRODUCTION_URL@) is None,
        },
{
    PageUrl::parse(PRODUCTION_URL)
}

/// `path` without the slashes at its end.
pub open spec fn trim_slashes(path: Seq<char>) -> Seq<char>
    decreases path.len(),
{
    if path.len() > 0 && path.last() == '/' {
        trim_slashes(path.drop_last())
    } else {
        path
    }
}

/// What follows the last slash of `path`; all of it where there is none.
pub open spec fn after_last_slash(path: Seq<char>) -> Seq<char>
    decreases path.len(),
{
    if path.len() == 0 || path.last() == '/' {
        Seq::empty()
    } else {
        after_last_slash(path.drop_last()).push(path.last())
    }
}

/// The last of the non-empty parts between the slashes of `path`.
pub open spec fn last_segment(path: Seq<char>) -> Option<Seq<char>> {
    let trimmed = trim_slashes(path);
    if trimmed.len() == 0 {
        None
    } else {
        Some(after_last_slash(trimmed))
    }
}

/// `path[from..to]` is a non-empty segment with nothing but slashes behind it.
pub open spec fn ends_in_segment(path: Seq<char>, from: int, to: int) -> bool {
    &&& 0 <= from < to <= path.len()
    &&& from == 0 || path[from - 1] == '/'
    &&& forall|i: int| from <= i < to ==> path[i] != '/'
    &&& forall|i: int| to <= i < path.len() ==> path[i] == '/'
}

proof fn lemma_trim_slashes(path: Seq<char>, to: int)
    requires
        0 <= to <= path.len(),
        to > 0 ==> path[to - 1] != '/',
        forall|i: int| to <= i < path.len() ==> path[i] == '/',
    ensures
        trim_slashes(path) == path.take(to),
    decreases path.len(),
{
    if to < path.len() {
        lemma_trim_slashes(path.drop_last(), to);
        assert(path.drop_last().take(to) =~= path.take(to));
    } else {
        assert(path.take(to) =~= path);
    }
}

proof fn lemma_after_last_slash(path: Seq<char>, from: int)
    requires
        0 <= from <= path.len(),
        from == 0 || path[from - 1] == '/',
        forall|i: int| from <= i < path.len() ==> path[i] != '/',
    ensures
        after_last_slash(path) == path.skip(from),
    decreases path.len(),
{
    if from < path.len() {
        lemma_after_last_slash(path.drop_last(), from);
        assert(path.drop_last().skip(from).push(path.last()) =~= path.skip(from));
    } else {
        assert(path.skip(from) =~= Seq::empty());
    }
}

/// The last segment is the one non-empty, slash-free stretch that begins the
/// path or follows a slash and has only slashes behind it.
pub proof fn law_last_segment(path: Seq<char>, from: int, to: int)
    requires
        ends_in_segment(path, from, to),
    ensures
        last_segment(path) == Some(path.subrange(from, to)),
{
    lemma_trim_slashes(path, to);
    assert forall|i: int| from <= i < to implies path.take(to)[i] != '/' by {
        assert(path[i] != '/');
    }
    lemma_after_last_slash(path.take(to), from);
    assert(path.take(to).skip(from) =~= path.subrange(from, to));
}

/// A path has no last segment exactly where it holds nothing but slashes.
pub proof fn law_no_segment(path: Seq<char>)
    ensures
        last_segment(path) is None <==> forall|i: int| 0 <= i < path.len() ==> path[i] == '/',
    decreases path.len(),
{
    if path.len() > 0 && path.last() == '/' {
        law_no_segment(path.drop_last());
        if last_segment(path) is None {
            assert forall|i: int| 0 <= i < path.len() implies path[i] == '/' by {
                if i < path.len() - 1 {
                    assert(path.drop_last()[i] == path[i]);
                }
            }
        }
    }
}

/// The last non-empty segment of `path`.
pub fn find_last_segment(path: &str) -> (r: Option<String>)
    ensures
        optional_text(r) == last_segment(path@),
{
    let chars: Vec<char> = chars_of(path);
    let mut to: usize = chars.len();
    while to > 0 && chars[to - 1] == '/'
        invariant
            to <= chars@.len(),
            forall|i: int| to <= i < chars@.len() ==> chars@[i] == '/',
        decreases to,
    {
        to = to - 1;
    }
    if to == 0 {
        proof {
            law_no_segment(path@);
            assert(chars@ == path@);
        }
        return None;
    }
    let mut from: usize = to;
    while from > 0 && chars[from - 1] != '/'
        invariant
            from <= to <= chars@.len(),
            forall|i: int| from <= i < to ==> chars@[i] != '/',
        decreases from,
    {
        from = from - 1;
    }
    proof {
        assert(ends_in_segment(path@, from as int, to as int));
        law_last_segment(path@, from as int, to as int);
    }
    Some(path.substring_char(from, to).to_owned())
}

/// True when a URL is the softphone page (`/manage/<company>/voice`).
pub fn is_voice_url(url: &PageUrl) -> (r: bool)
    ensures
        r == is_voice_path(url.path@),
{
    match find_last_segment(url.path.as_str()) {
        Some(segment) => same_text(segment.as_str(), "voice"),
        None => false,
    }
}

/// True when a URL is the softphone's settings page.
pub fn is_settings_url(url: &PageUrl) -> (r: bool)
    ensures
        r == is_settings_path(url.path@),
{
    match find_last_segment(url.path.as_str()) {
        Some(segment) => same_text(segment.as_str(), "voice-settings"),
        None => false,
    }
}

/// The path leads to the softphone page.
pub open spec fn is_voice_path(path: Seq<char>) -> bool {
    last_segment(path) == Some("voice"@)
}

/// The path leads to the softphone's settings page.
pub open spec fn is_settings_path(path: Seq<char>) -> bool {
    last_segment(path) == Some("voice-settings"@)
}

/// The uppercase mapping of `c` in the Unicode tables of the standard library.
pub uninterp spec fn uppercase_mapping(c: char) -> Seq<char>;

/// The uppercase form of an ASCII character.
pub open spec fn ascii_uppercase(c: char) -> char {
    if 'a' <= c <= 'z' {
        ((c as int) - 32) as char
    } else {
        c
    }
}

/// Calls `char::to_uppercase` and collects what it yields. The mapping is a
/// function of the character and is called `uppercase_mapping`; it has one or
/// more characters, and on ASCII it turns `a` to `z` into `A` to `Z` and keeps
/// every other character.
#[verifier::external_body]
fn to_uppercase(c: char) -> (r: String)
    ensures
        r@ == uppercase_mapping(c),
        r@.len() >= 1,
        (c as int) < 128 ==> r@ == seq![ascii_uppercase(c)],
{
    c.to_uppercase().collect()
}

/// The title of a page that goes by a name of its own.
pub open spec fn known_title(segment: Seq<char>) -> Option<Seq<char>> {
    if segment == "pos"@ {
        Some("POS"@)
    } else if segment == "messaging"@ {
        Some("Messaging"@)
    } else if segment == "marketing"@ {
        Some("Marketing"@)
    } else if segment == "waitlist"@ {
        Some("Waitlist"@)
    } else if segment == "schedule"@ {
        Some("Schedule"@)
    } else if segment == "voice"@ {
        Some("Phone"@)
    } else if segment == "voice-settings"@ {
        Some("Phone settings"@)
    } else {
        None
    }
}

/// The title of the page that `segment` names, where `initial` is the
/// uppercase form of the segment's first character.
pub open spec fn segment_title(segment: Seq<char>, initial: Seq<char>) -> Seq<char> {
    match known_title(segment) {
        Some(title) => title,
        None => if segment.len() == 0 {
            "Page"@
        } else {
            initial + segment.skip(1)
        },
    }
}

/// The segment that names the page at `path`.
pub open spec fn naming_segment(path: Seq<char>) -> Seq<char> {
    match last_segment(path) {
        Some(segment) => segment,
        None => "Page"@,
    }
}

/// The title of the tab that shows the page at `path`.
pub open spec fn title_of_path(path: Seq<char>) -> Seq<char> {
    let segment = naming_segment(path);
    segment_title(segment, uppercase_mapping(segment[0]))
}

/// The title for a page named `segment`, where `initial` is the uppercase form
/// of the segment's first character.
pub fn title_for_segment(segment: &str, initial: String) -> (r: String)
    ensures
        r@ == segment_title(segment@, initial@),
{
    if same_text(segment, "pos") {
        "POS".to_owned()
    } else if same_text(segment, "messaging") {
        "Messaging".to_owned()
    } else if same_text(segment, "marketing") {
        "Marketing".to_owned()
    } else if same_text(segment, "waitlist") {
        "Waitlist".to_owned()
    } else if same_text(segment, "schedule") {
        "Schedule".to_owned()
    } else if same_text(segment, "voice") {
        // The softphone page, labeled how the front desk talks about it.
        "Phone".to_owned()
    } else if same_text(segment, "voice-settings") {
        "Phone settings".to_owned()
    } else if segment.is_empty() {
        "Page".to_owned()
    } else {
        let end: usize = segment.unicode_len();
        assert(segment@.subrange(1, end as int) =~= segment@.skip(1));
        initial.concat(segment.substring_char(1, end))
    }
}

/// Human label for a tab from its URL's last path segment.
///
/// A segment that begins with an ASCII character, as every segment of a parsed
/// path does, has its first letter raised to upper case.
pub fn tab_title(url: &PageUrl) -> (r: String)
    ensures
        r@ == title_of_path(url.path@),
        r@.len() > 0,
        ({
            let segment = naming_segment(url.path@);
            (segment[0] as int) < 128 ==> r@ == segment_title(
                segment,
                seq![ascii_uppercase(segment[0])],
            )
        }),
{
    let segment: String = match find_last_segment(url.path.as_str()) {
        Some(found) => found,
        None => {
            proof {
                reveal_strlit("Page");
            }
            "Page".to_owned()
        },
    };
    proof {
        law_segment_is_nonempty(url.path@);
    }
    let initial: String = to_uppercase(segment.as_str().get_char(0));
    proof {
        law_title_is_nonempty(segment@, initial@);
    }
    title_for_segment(segment.as_str(), initial)
}

/// A last segment is never empty and never holds a slash.
pub proof fn law_segment_is_nonempty(path: Seq<char>)
    ensures
        last_segment(path) matches Some(segment) ==> segment.len() > 0 && !segment.contains('/'),
{
    if last_segment(path) is Some {
        let trimmed = trim_slashes(path);
        lemma_trimmed_end(path);
        assert(after_last_slash(trimmed).len() > 0);
        lemma_no_slash_after_last(trimmed);
    }
}

proof fn lemma_trimmed_end(path: Seq<char>)
    ensures
        trim_slashes(path).len() > 0 ==> trim_slashes(path).last() != '/',
    decreases path.len(),
{
    if path.len() > 0 && path.last() == '/' {
        lemma_trimmed_end(path.drop_last());
    }
}

proof fn lemma_no_slash_after_last(path: Seq<char>)
    ensures
        !after_last_slash(path).contains('/'),
    decreases path.len(),
{
    if path.len() > 0 && path.last() != '/' {
        lemma_no_slash_after_last(path.drop_last());
        let rest = after_last_slash(path.drop_last());
        assert forall|i: int| 0 <= i < after_last_slash(path).len() implies after_last_slash(path)[i]
            != '/' by {
            if i < rest.len() {
                assert(after_last_slash(path)[i] == rest[i]);
                assert(rest.contains(rest[i]));
            }
        }
    }
}

/// The softphone page and its settings page are different pages.
pub proof fn law_voice_is_not_settings(path: Seq<char>)
    ensures
        !(is_voice_path(path) && is_settings_path(path)),
{
    reveal_strlit("voice");
    reveal_strlit("voice-settings");
    assert("voice"@.len() != "voice-settings"@.len());
}

/// A page keeps its name and title whatever slashes follow its address.
pub proof fn law_trailing_slash_keeps_page(path: Seq<char>)
    ensures
        last_segment(path.push('/')) == last_segment(path),
        title_of_path(path.push('/')) == title_of_path(path),
        is_voice_path(path.push('/')) == is_voice_path(path),
        is_settings_path(path.push('/')) == is_settings_path(path),
{
    assert(path.push('/').drop_last() =~= path);
}

/// A non-empty name behind the last slash of an address names the page.
pub proof fn law_name_behind_last_slash(directory: Seq<char>, name: Seq<char>)
    requires
        name.len() > 0,
        !name.contains('/'),
    ensures
        last_segment(directory.push('/') + name) == Some(name),
{
    let path = directory.push('/') + name;
    let from = directory.len() + 1;
    assert forall|i: int| from <= i < path.len() implies path[i] != '/' by {
        assert(path[i] == name[i - from]);
        assert(name.contains(name[i - from]));
    }
    law_last_segment(path, from as int, path.len() as int);
    assert(path.subrange(from as int, path.len() as int) =~= name);
}

/// The segment that names a page is a stretch of its path, and so ASCII where
/// the path is.
pub proof fn law_ascii_path_has_ascii_name(path: Seq<char>)
    requires
        ascii_text(path),
    ensures
        ascii_text(naming_segment(path)),
{
    reveal_strlit("Page");
    lemma_trim_keeps_ascii(path);
    lemma_after_slash_keeps_ascii(trim_slashes(path));
}

proof fn lemma_trim_keeps_ascii(path: Seq<char>)
    requires
        ascii_text(path),
    ensures
        ascii_text(trim_slashes(path)),
    decreases path.len(),
{
    if path.len() > 0 && path.last() == '/' {
        lemma_trim_keeps_ascii(path.drop_last());
    }
}

proof fn lemma_after_slash_keeps_ascii(path: Seq<char>)
    requires
        ascii_text(path),
    ensures
        ascii_text(after_last_slash(path)),
    decreases path.len(),
{
    if path.len() > 0 && path.last() != '/' {
        lemma_after_slash_keeps_ascii(path.drop_last());
    }
}

/// No title is empty.
pub proof fn law_title_is_nonempty(segment: Seq<char>, initial: Seq<char>)
    requires
        initial.len() > 0,
    ensures
        segment_title(segment, initial).len() > 0,
{
    reveal_strlit("Page");
    reveal_strlit("POS");
    reveal_strlit("Messaging");
    reveal_strlit("Marketing");
    reveal_strlit("Waitlist");
    reveal_strlit("Schedule");
    reveal_strlit("Phone");
    reveal_strlit("Phone settings");
}

/// The segment that is found is the non-empty stretch before the slashes at the end
/// of the path, back to the slash before it; none is found exactly where the path
/// holds nothing but slashes.
pub proof fn law_found_segment_is_the_last(path: &str, r: Option<String>, from: int, to: int)
    requires
        call_ensures(find_last_segment, (path,), r),
    ensures
        ends_in_segment(path@, from, to) ==> (r matches Some(segment) && segment@
            == path@.subrange(from, to)),
        r is None <==> forall|i: int| 0 <= i < path@.len() ==> path@[i] == '/',
{
    law_no_segment(path@);
    if ends_in_segment(path@, from, to) {
        law_last_segment(path@, from, to);
    }
}

/// A page is the softphone page or its settings page exactly where its path ends in
/// `voice` or `voice-settings`, whatever directory it stands in and whatever slashes
/// follow. A path of slashes is neither.
pub proof fn law_voice_pages_go_by_the_last_segment(
    url: &PageUrl,
    is_voice: bool,
    is_settings: bool,
    from: int,
    to: int,
)
    requires
        call_ensures(is_voice_url, (url,), is_voice),
        call_ensures(is_settings_url, (url,), is_settings),
    ensures
        ends_in_segment(url.path@, from, to) ==> {
            &&& is_voice <==> url.path@.subrange(from, to) == "voice"@
            &&& is_settings <==> url.path@.subrange(from, to) == "voice-settings"@
        },
        (forall|i: int| 0 <= i < url.path@.len() ==> url.path@[i] == '/') ==> !is_voice
            && !is_settings,
{
    law_no_segment(url.path@);
    if ends_in_segment(url.path@, from, to) {
        law_last_segment(url.path@, from, to);
    }
}

/// Under whatever directory it stands, a page with a name of its own has its title,
/// and any other page has the segment that names it, with a small ASCII letter at its
/// beginning raised and all else kept.
pub proof fn law_titles_go_by_the_last_segment(url: &PageUrl, r: String, from: int, to: int)
    requires
        call_ensures(tab_title, (url,), r),
        ends_in_segment(url.path@, from, to),
    ensures
        ({
            let segment = url.path@.subrange(from, to);
            let first = segment[0];
            &&& segment == "pos"@ ==> r@ == "POS"@
            &&& segment == "messaging"@ ==> r@ == "Messaging"@
            &&& segment == "marketing"@ ==> r@ == "Marketing"@
            &&& segment == "waitlist"@ ==> r@ == "Waitlist"@
            &&& segment == "schedule"@ ==> r@ == "Schedule"@
            &&& segment == "voice"@ ==> r@ == "Phone"@
            &&& segment == "voice-settings"@ ==> r@ == "Phone settings"@
            &&& segment != "pos"@ && segment != "messaging"@ && segment != "marketing"@ && segment
                != "waitlist"@ && segment != "schedule"@ && segment != "voice"@ && segment
                != "voice-settings"@ ==> {
                &&& r@ == uppercase_mapping(first) + segment.skip(1)
                &&& (first as int) < 128 ==> {
                    &&& r@.len() == segment.len()
                    &&& r@.skip(1) == segment.skip(1)
                    &&& 97 <= first as int <= 122 ==> r@[0] as int == first as int - 32
                    &&& !(97 <= first as int <= 122) ==> r@[0] == first
                }
            }
        }),
{
    law_last_segment(url.path@, from, to);
    let segment = url.path@.subrange(from, to);
    lemma_known_segments_differ();
    assert(naming_segment(url.path@) == segment);
    if (segment[0] as int) < 128 {
        let raised = seq![ascii_uppercase(segment[0])];
        assert((raised + segment.skip(1)).skip(1) =~= segment.skip(1));
        assert((raised + segment.skip(1)).len() == segment.len());
        assert((raised + segment.skip(1))[0] == ascii_uppercase(segment[0]));
    }
}

/// A page whose path is nothing but slashes is called `Page`.
pub proof fn law_nameless_page_is_a_page(url: &PageUrl, r: String)
    requires
        call_ensures(tab_title, (url,), r),
        forall|i: int| 0 <= i < url.path@.len() ==> url.path@[i] == '/',
    ensures
        r@ == "Page"@,
{
    law_no_segment(url.path@);
    lemma_known_segments_differ();
    reveal_strlit("Page");
    assert(naming_segment(url.path@) == "Page"@);
    assert(seq![ascii_uppercase("Page"@[0])] + "Page"@.skip(1) =~= "Page"@);
    assert("Page"@[0] == 'P');
    reveal_strlit("pos");
    reveal_strlit("messaging");
    reveal_strlit("marketing");
    reveal_strlit("waitlist");
    reveal_strlit("schedule");
    reveal_strlit("voice");
    reveal_strlit("voice-settings");
    assert("pos"@[0] == 'p');
    assert("messaging"@[0] == 'm');
    assert("marketing"@[0] == 'm');
    assert("waitlist"@[0] == 'w');
    assert("schedule"@[0] == 's');
    assert("voice"@[0] == 'v');
    assert("voice-settings"@[0] == 'v');
}

/// Without a name of its own, a page that is named by `segment` has the given initial
/// followed by the rest of the segment; by an empty segment it is called `Page`.
pub proof fn law_title_takes_the_initial(segment: &str, initial: String, r: String)
    requires
        call_ensures(title_for_segment, (segment, initial), r),
    ensures
        segment@ == "pos"@ ==> r@ == "POS"@,
        segment@ == "messaging"@ ==> r@ == "Messaging"@,
        segment@ == "marketing"@ ==> r@ == "Marketing"@,
        segment@ == "waitlist"@ ==> r@ == "Waitlist"@,
        segment@ == "schedule"@ ==> r@ == "Schedule"@,
        segment@ == "voice"@ ==> r@ == "Phone"@,
        segment@ == "voice-settings"@ ==> r@ == "Phone settings"@,
        segment@.len() == 0 ==> r@ == "Page"@,
        segment@.len() > 0 && segment@ != "pos"@ && segment@ != "messaging"@ && segment@
            != "marketing"@ && segment@ != "waitlist"@ && segment@ != "schedule"@ && segment@
            != "voice"@ && segment@ != "voice-settings"@ ==> r@ == initial@ + segment@.skip(1),
{
    lemma_known_segments_differ();
}

proof fn lemma_known_segments_differ()
    ensures
        "pos"@.len() == 3,
        "messaging"@.len() == 9,
        "marketing"@.len() == 9,
        "messaging"@ != "marketing"@,
        "waitlist"@.len() == 8,
        "schedule"@.len() == 8,
        "waitlist"@ != "schedule"@,
        "voice"@.len() == 5,
        "voice-settings"@.len() == 14,
{
    reveal_strlit("pos");
    reveal_strlit("messaging");
    reveal_strlit("marketing");
    reveal_strlit("waitlist");
    reveal_strlit("schedule");
    reveal_strlit("voice");
    reveal_strlit("voice-settings");
    assert("messaging"@[1] == 'e');
    assert("marketing"@[1] == 'a');
    assert("waitlist"@[0] == 'w');
    assert("schedule"@[0] == 's');
}

/// The page of the first tab is what the Platform address is parsed to.
pub proof fn law_production_page_is_the_platform(r: Option<PageUrl>, parsed: Option<PageUrl>, text: &str)
    requires
        call_ensures(production_page, (), r),
        text@ == "https://platform.vistainterface.com"@,
        call_ensures(PageUrl::parse, (text,), parsed),
    ensures
        r is Some <==> parsed is Some,
        r matches Some(page) ==> page.href@ == parsed->0.href@ && page.path@ == parsed->0.path@
            && optional_text(page.host) == optional_text(parsed->0.host),
{
}

/// Parsing hands on all three parts as they were parsed: the serialized form, the host
/// where there is one, and the path.
pub proof fn law_parse_hands_on_the_parts(input: &str, r: Option<PageUrl>)
    requires
        call_ensures(PageUrl::parse, (input,), r),
    ensures
        r is None <==> parsed_url(input@) is None,
        r matches Some(page) ==> {
            let parts = parsed_url(input@)->0;
            &&& page.href@ == parts.0
            &&& page.host is None <==> parts.1 is None
            &&& page.host matches Some(host) ==> parts.1 == Some(host@)
            &&& page.path@ == parts.2
            &&& forall|i: int| 0 <= i < page.path@.len() ==> (#[trigger] page.path@[i] as int) < 128
        },
{
}

} // verus!
