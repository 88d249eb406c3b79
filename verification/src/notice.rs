//! What the shell tells the title bar.

use vstd::prelude::*;

verus! {

/// An event for the title bar: its name, and the entries of its payload.
#[derive(Debug)]
pub struct Notice {
    /// Name under which the title bar listens.
    pub name: &'static str,
    /// Keys and values of the payload.
    pub entries: Vec<(&'static str, String)>,
}

/// A notice as plain values.
pub type NoticeModel = (Seq<char>, Seq<(Seq<char>, Seq<char>)>);

impl View for Notice {
    type V = NoticeModel;

    open spec fn view(&self) -> NoticeModel {
        (self.name@, entry_texts(self.entries@))
    }
}

/// A tab was opened: the title bar draws it.
pub open spec fn opened(label: Seq<char>, title: Seq<char>) -> NoticeModel {
    ("tab:opened"@, seq![("label"@, label), ("title"@, title)])
}

/// A tab that was there already came to the front.
pub open spec fn focused(label: Seq<char>) -> NoticeModel {
    ("tab:focused"@, seq![("label"@, label)])
}

/// A tab was closed, and `active` shows now.
pub open spec fn closed(label: Seq<char>, active: Seq<char>) -> NoticeModel {
    ("tab:closed"@, seq![("label"@, label), ("active"@, active)])
}

/// A tab stays open because of a call; the title bar asks the user.
pub open spec fn tab_kept(label: Seq<char>) -> NoticeModel {
    ("call:close-blocked"@, seq![("kind"@, "tab"@), ("label"@, label)])
}

/// The window stays open because of a call; the title bar asks the user.
pub open spec fn window_kept() -> NoticeModel {
    ("call:close-blocked"@, seq![("kind"@, "window"@)])
}

/// The text that `serde_json` writes for the object with these entries.
pub uninterp spec fn json_object(entries: Seq<(Seq<char>, Seq<char>)>) -> Seq<char>;

/// The entries of a payload as plain values.
pub open spec fn entry_texts(entries: Seq<(&'static str, String)>) -> Seq<(Seq<char>, Seq<char>)> {
    entries.map_values(|e: (&'static str, String)| (e.0@, e.1@))
}

/// Collects the entries into a `serde_json::Map` and writes that object as text
/// with the `to_string` of `serde_json::Value`. The text depends on the entries
/// alone and is called `json_object`; nothing is claimed about how it reads.
#[verifier::external_body]
fn write_json(entries: &Vec<(&'static str, String)>) -> (r: String)
    ensures
        r@ == json_object(entry_texts(entries@)),
{
    let object: serde_json::Map<String, serde_json::Value> = entries.iter().map(
        |e| (e.0.to_string(), serde_json::Value::from(e.1.as_str())),
    ).collect();
    serde_json::Value::Object(object).to_string()
}

impl Notice {
    /// The payload as JSON text, as the title bar receives it.
    pub fn payload(&self) -> (r: String)
        ensures
            r@ == json_object(self@.1),
    {
        write_json(&self.entries)
    }

    /// A notice with one entry.
    fn with_one(name: &'static str, key: &'static str, value: String) -> (r: Notice)
        ensures
            r@ == (name@, seq![(key@, value@)]),
    {
        let mut entries: Vec<(&'static str, String)> = Vec::new();
        entries.push((key, value));
        let r = Notice { name, entries };
        assert(r@.1 =~= seq![(key@, value@)]);
        r
    }

    /// A notice with two entries.
    fn with_two(
        name: &'static str,
        key: &'static str,
        value: String,
        second_key: &'static str,
        second_value: String,
    ) -> (r: Notice)
        ensures
            r@ == (name@, seq![(key@, value@), (second_key@, second_value@)]),
    {
        let mut entries: Vec<(&'static str, String)> = Vec::new();
        entries.push((key, value));
        entries.push((second_key, second_value));
        let r = Notice { name, entries };
        assert(r@.1 =~= seq![(key@, value@), (second_key@, second_value@)]);
        r
    }

    /// Tells that a tab was opened.
    pub fn opened(label: &str, title: String) -> (r: Notice)
        ensures
            r@ == opened(label@, title@),
    {
        Notice::with_two("tab:opened", "label", label.to_owned(), "title", title)
    }

    /// Tells that an existing tab came to the front.
    pub fn focused(label: &str) -> (r: Notice)
        ensures
            r@ == focused(label@),
    {
        Notice::with_one("tab:focused", "label", label.to_owned())
    }

    /// Tells that a tab was closed, and which one shows now.
    pub fn closed(label: &str, active: &str) -> (r: Notice)
        ensures
            r@ == closed(label@, active@),
    {
        Notice::with_two("tab:closed", "label", label.to_owned(), "active", active.to_owned())
    }

    /// Tells that a tab stays open because of a call.
    pub fn tab_kept(label: &str) -> (r: Notice)
        ensures
            r@ == tab_kept(label@),
    {
        Notice::with_two("call:close-blocked", "kind", "tab".to_owned(), "label", label.to_owned())
    }

    /// Tells that the window stays open because of a call.
    pub fn window_kept() -> (r: Notice)
        ensures
            r@ == window_kept(),
    {
        Notice::with_one("call:close-blocked", "kind", "window".to_owned())
    }
}

/// The notice goes out under `name` with one entry.
pub open spec fn tells_one(notice: Notice, name: Seq<char>, key: Seq<char>, value: Seq<char>) -> bool {
    &&& notice.name@ == name
    &&& notice.entries@.len() == 1
    &&& notice.entries@[0].0@ == key
    &&& notice.entries@[0].1@ == value
}

/// The notice goes out under `name` with two entries.
pub open spec fn tells_two(
    notice: Notice,
    name: Seq<char>,
    key: Seq<char>,
    value: Seq<char>,
    second_key: Seq<char>,
    second_value: Seq<char>,
) -> bool {
    &&& notice.name@ == name
    &&& notice.entries@.len() == 2
    &&& notice.entries@[0].0@ == key
    &&& notice.entries@[0].1@ == value
    &&& notice.entries@[1].0@ == second_key
    &&& notice.entries@[1].1@ == second_value
}

/// A notice with one entry holds that entry.
pub proof fn lemma_tells_one(notice: Notice, name: Seq<char>, key: Seq<char>, value: Seq<char>)
    requires
        notice@ == (name, seq![(key, value)]),
    ensures
        tells_one(notice, name, key, value),
{
    assert(notice@.1.len() == notice.entries@.len());
    assert(notice@.1[0] == (notice.entries@[0].0@, notice.entries@[0].1@));
}

/// A notice with two entries holds them in this order.
pub proof fn lemma_tells_two(
    notice: Notice,
    name: Seq<char>,
    key: Seq<char>,
    value: Seq<char>,
    second_key: Seq<char>,
    second_value: Seq<char>,
)
    requires
        notice@ == (name, seq![(key, value), (second_key, second_value)]),
    ensures
        tells_two(notice, name, key, value, second_key, second_value),
{
    assert(notice@.1.len() == notice.entries@.len());
    assert(notice@.1[0] == (notice.entries@[0].0@, notice.entries@[0].1@));
    assert(notice@.1[1] == (notice.entries@[1].0@, notice.entries@[1].1@));
}

/// Each notice goes out under its own name and carries what it was made of, whatever
/// that is: an opened tab its label and title, a closed tab its label and the tab
/// that shows now.
pub proof fn law_tab_notices_carry_their_parts(label: &str, title: String, active: &str, r: Notice)
    ensures
        call_ensures(Notice::opened, (label, title), r) ==> tells_two(
            r,
            "tab:opened"@,
            "label"@,
            label@,
            "title"@,
            title@,
        ),
        call_ensures(Notice::focused, (label,), r) ==> tells_one(
            r,
            "tab:focused"@,
            "label"@,
            label@,
        ),
        call_ensures(Notice::closed, (label, active), r) ==> tells_two(
            r,
            "tab:closed"@,
            "label"@,
            label@,
            "active"@,
            active@,
        ),
{
    if call_ensures(Notice::opened, (label, title), r) {
        lemma_tells_two(r, "tab:opened"@, "label"@, label@, "title"@, title@);
    }
    if call_ensures(Notice::focused, (label,), r) {
        lemma_tells_one(r, "tab:focused"@, "label"@, label@);
    }
    if call_ensures(Notice::closed, (label, active), r) {
        lemma_tells_two(r, "tab:closed"@, "label"@, label@, "active"@, active@);
    }
}

/// What a call keeps open is told under one name, and the payload says whether it is
/// a tab, and which, or the window.
pub proof fn law_kept_notices_say_what_is_kept(label: &str, r: Notice)
    ensures
        call_ensures(Notice::tab_kept, (label,), r) ==> tells_two(
            r,
            "call:close-blocked"@,
            "kind"@,
            "tab"@,
            "label"@,
            label@,
        ),
        call_ensures(Notice::window_kept, (), r) ==> tells_one(
            r,
            "call:close-blocked"@,
            "kind"@,
            "window"@,
        ),
{
    if call_ensures(Notice::tab_kept, (label,), r) {
        lemma_tells_two(r, "call:close-blocked"@, "kind"@, "tab"@, "label"@, label@);
    }
    if call_ensures(Notice::window_kept, (), r) {
        lemma_tells_one(r, "call:close-blocked"@, "kind"@, "window"@);
    }
}

/// The payload is written from all the entries of the notice, keys and values, in
/// their order.
pub proof fn law_payload_holds_every_entry(
    notice: &Notice,
    r: String,
    entries: Seq<(Seq<char>, Seq<char>)>,
)
    requires
        call_ensures(Notice::payload, (notice,), r),
        entries.len() == notice.entries@.len(),
        forall|i: int|
            0 <= i < entries.len() ==> #[trigger] entries[i] == (
                notice.entries@[i].0@,
                notice.entries@[i].1@,
            ),
    ensures
        r@ == json_object(entries),
{
    assert(notice@.1 =~= entries);
}

} // verus!
