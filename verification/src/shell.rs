//! The shell: it keeps the state of the tabs and of the call, and answers each
//! request with what is to be done in the window.

use vstd::prelude::*;

use crate::laws::{
    law_add_keeps_wf, law_close_keeps_wf, law_close_shows_open_tab, law_initial_shell,
    law_next_label_is_free,
};
use crate::model::{
    first_live, remove_all, sleep_request, tab_label, Placement, ShellModel, SleepRequest,
    Teardown, WindowStatus, PLATFORM_TAB, RECONNECT_DELAY_MS, TITLE_BAR,
};
use crate::notice::{closed, focused, opened, tab_kept, window_kept, Notice};
use crate::page::{
    ascii_uppercase, is_settings_url, is_voice_url, law_voice_is_not_settings, naming_segment,
    segment_title, tab_title, title_of_path, PageUrl,
};
use crate::text::{is_listed, position, push_decimal, same_text, texts};

verus! {

/// A webview and where it belongs.
#[derive(Debug)]
pub struct Placed {
    /// Label of the webview.
    pub label: String,
    /// Where it belongs.
    pub placement: Placement,
}

/// A list of placements as plain values.
pub open spec fn placements(list: Seq<Placed>) -> Seq<(Seq<char>, Placement)> {
    list.map_values(|p: Placed| (p.label@, p.placement))
}

/// What follows from the closing of a tab, in the order in which it is done.
#[derive(Debug)]
pub struct Closing {
    /// A request to the power management, where the tab hosted the softphone.
    pub sleep: Option<SleepRequest>,
    /// How the tab's webview goes away.
    pub teardown: Teardown,
    /// Where the remaining webviews belong now.
    pub layout: Vec<Placed>,
    /// What the title bar is told.
    pub notice: Notice,
}

/// The answer to a request to close a tab.
#[derive(Debug)]
pub enum CloseOutcome {
    /// The Platform tab is never closed.
    Ignored,
    /// A call keeps the tab open; the title bar asks the user.
    Blocked(Notice),
    /// The tab is closed.
    Closed(Closing),
}

/// The answer to a request to open a page as a tab.
#[derive(Debug)]
pub enum OpenOutcome {
    /// There is no window to open it in.
    Nothing,
    /// A tab that shows this kind of page is there already and comes to the
    /// front.
    Focused(Vec<Placed>, Notice),
    /// A webview with this label is to be created.
    Create(String),
}

/// The answer to a request to reconnect the softphone.
#[derive(Debug)]
pub struct Reconnect {
    /// Label of the Phone tab.
    pub label: String,
    /// What follows from closing it.
    pub outcome: CloseOutcome,
    /// How long to wait before the page is opened anew, where it is.
    pub reopen_after_ms: Option<u64>,
}

/// The state of the tabs and of the call.
#[derive(Debug)]
pub struct Shell {
    order: Vec<String>,
    active: String,
    voice: Vec<String>,
    settings: Vec<String>,
    call_active: bool,
    counter: u32,
}

impl View for Shell {
    type V = ShellModel;

    closed spec fn view(&self) -> ShellModel {
        ShellModel {
            order: texts(self.order@),
            active: self.active@,
            voice: texts(self.voice@),
            settings: texts(self.settings@),
            call_active: self.call_active,
            counter: self.counter,
        }
    }
}

/// `outcome` is the answer to the request to close `label` in state `pre`.
pub open spec fn answers_close(
    outcome: CloseOutcome,
    pre: ShellModel,
    label: Seq<char>,
    force: bool,
    window: WindowStatus,
) -> bool {
    match outcome {
        CloseOutcome::Ignored => label == PLATFORM_TAB@,
        CloseOutcome::Blocked(notice) => pre.close_blocked(label, force) && notice@ == tab_kept(
            label,
        ),
        CloseOutcome::Closed(closing) => {
            &&& pre.closes(label, force)
            &&& closing.sleep == (if pre.voice.contains(label) {
                Some(SleepRequest::Release)
            } else {
                None
            })
            &&& closing.teardown == pre.teardown(label)
            &&& placements(closing.layout@) == pre.close_layout(label, window)
            &&& closing.notice@ == closed(label, pre.closed(label, force).active)
        },
    }
}

/// A copy of `list` without any occurrence of `text`.
fn without(list: &Vec<String>, text: &str) -> (r: Vec<String>)
    ensures
        texts(r@) == remove_all(texts(list@), text@),
{
    let ghost keep = |l: Seq<char>| l != text@;
    let mut r: Vec<String> = Vec::new();
    assert(texts(list@).take(0) =~= Seq::<Seq<char>>::empty());
    assert(texts(r@) =~= Seq::<Seq<char>>::empty());
    assert(texts(list@).take(0).filter(keep) =~= Seq::<Seq<char>>::empty()) by {
        reveal(Seq::filter);
    }
    for i in 0..list.len()
        invariant
            keep == (|l: Seq<char>| l != text@),
            texts(r@) == texts(list@).take(i as int).filter(keep),
    {
        let ghost before = r@;
        let ghost all = texts(list@);
        assert(all.take(i + 1).drop_last() =~= all.take(i as int));
        assert(all.take(i + 1).last() == list@[i as int]@);
        if !same_text(list[i].as_str(), text) {
            r.push(list[i].clone());
            assert(texts(r@) =~= texts(before).push(list@[i as int]@));
        }
        reveal(Seq::filter);
    }
    assert(texts(list@).take(list@.len() as int) =~= texts(list@));
    r
}

/// The first of `labels` that is also one of `live`.
fn find_live(labels: &Vec<String>, live: &Vec<String>) -> (r: Option<String>)
    ensures
        match r {
            Some(label) => first_live(texts(labels@), texts(live@)) == Some(label@),
            None => first_live(texts(labels@), texts(live@)) is None,
        },
{
    assert(texts(labels@).skip(0) =~= texts(labels@));
    for i in 0..labels.len()
        invariant
            first_live(texts(labels@), texts(live@)) == first_live(
                texts(labels@).skip(i as int),
                texts(live@),
            ),
    {
        assert(texts(labels@).skip(i as int)[0] == labels@[i as int]@);
        if is_listed(live, labels[i].as_str()) {
            return Some(labels[i].clone());
        }
        assert(texts(labels@).skip(i as int).skip(1) =~= texts(labels@).skip(i + 1));
    }
    None
}

/// Whether the machine may sleep while the call is in this state.
pub fn sleep_for(active: bool) -> (r: SleepRequest)
    ensures
        r == sleep_request(active),
{
    if active {
        SleepRequest::Hold
    } else {
        SleepRequest::Release
    }
}

impl Shell {
    /// The shell at startup: the Platform tab alone, no call.
    pub fn new() -> (r: Shell)
        ensures
            r@ == ShellModel::initial(),
            r@.wf(),
    {
        let mut order: Vec<String> = Vec::new();
        order.push(PLATFORM_TAB.to_owned());
        let r = Shell {
            order,
            active: PLATFORM_TAB.to_owned(),
            voice: Vec::new(),
            settings: Vec::new(),
            call_active: false,
            counter: 0,
        };
        proof {
            assert(r@ =~= ShellModel::initial());
            law_initial_shell();
        }
        r
    }

    /// Label of the tab that shows.
    pub fn active(&self) -> (r: &str)
        ensures
            r@ == self@.active,
    {
        self.active.as_str()
    }

    /// Labels of the open tabs, from left to right.
    pub fn order(&self) -> (r: &Vec<String>)
        ensures
            texts(r@) == self@.order,
    {
        &self.order
    }

    /// Whether a call is live.
    pub fn is_call_active(&self) -> (r: bool)
        ensures
            r == self@.call_active,
    {
        self.call_active
    }

    /// Where each open tab goes when `front` comes to the front.
    fn layout(&self, front: &str, window: WindowStatus) -> (r: Vec<Placed>)
        ensures
            placements(r@) == self@.layout(front@, window),
    {
        let mut r: Vec<Placed> = Vec::new();
        if window != WindowStatus::Ready {
            assert(placements(r@) =~= Seq::empty());
            return r;
        }
        for i in 0..self.order.len()
            invariant
                window == WindowStatus::Ready,
                placements(r@) == self@.layout(front@, window).take(i as int),
        {
            let label: &String = &self.order[i];
            let placement: Placement = if same_text(label.as_str(), front) {
                Placement::Foreground
            } else if is_listed(&self.voice, label.as_str()) {
                Placement::Parked
            } else {
                Placement::Hidden
            };
            let ghost before = r@;
            r.push(Placed { label: label.clone(), placement });
            assert(self@.order[i as int] == label@);
            assert(placements(r@) =~= placements(before).push((label@, placement)));
            assert(self@.layout(front@, window).take(i + 1) =~= self@.layout(
                front@,
                window,
            ).take(i as int).push((label@, placement)));
        }
        assert(self@.layout(front@, window).take(self@.order.len() as int) =~= self@.layout(
            front@,
            window,
        ));
        r
    }

    /// Brings `label` to the front, hides or parks every other tab, and records
    /// it as the one that shows. Nothing changes while the window is missing or
    /// of unknown size.
    pub fn activate(&mut self, label: &str, window: WindowStatus) -> (r: Vec<Placed>)
        ensures
            final(self)@ == old(self)@.activated(label@, window),
            placements(r@) == old(self)@.layout(label@, window),
            old(self)@.wf() ==> final(self)@.wf(),
    {
        let r: Vec<Placed> = self.layout(label, window);
        if window == WindowStatus::Ready {
            self.active = label.to_owned();
        }
        r
    }

    /// Brings a tab to the front at the title bar's request.
    pub fn switch_tab(&mut self, label: &str, window: WindowStatus) -> (r: Vec<Placed>)
        ensures
            final(self)@ == old(self)@.activated(label@, window),
            placements(r@) == old(self)@.layout(label@, window),
            old(self)@.wf() ==> final(self)@.wf(),
    {
        self.activate(label, window)
    }

    /// Where the title bar and the tab that shows belong in a resized window.
    pub fn relayout(&self, window: WindowStatus) -> (r: Vec<Placed>)
        ensures
            placements(r@) == self@.relaid(window),
    {
        let mut r: Vec<Placed> = Vec::new();
        if window == WindowStatus::Ready {
            r.push(Placed { label: TITLE_BAR.to_owned(), placement: Placement::TitleBar });
            r.push(Placed { label: self.active.clone(), placement: Placement::Fitted });
        }
        assert(placements(r@) =~= self@.relaid(window));
        r
    }

    /// Answers a request to open the page at `url` as a tab; `live` holds the
    /// labels of the webviews that exist.
    ///
    /// There is one Phone tab and one Phone settings tab: asking for either
    /// again brings the existing one to the front, since two live softphones
    /// would compete. Any other page gets a label of its own, to be used for its
    /// webview and then handed to `tab_added`.
    pub fn open_tab(&mut self, url: &PageUrl, live: &Vec<String>, window: WindowStatus) -> (r:
        OpenOutcome)
        ensures
            match r {
                OpenOutcome::Nothing => {
                    &&& window == WindowStatus::Missing
                    &&& final(self)@ == old(self)@
                },
                OpenOutcome::Focused(layout, notice) => {
                    &&& window != WindowStatus::Missing
                    &&& old(self)@.existing(url.path@, texts(live@)) matches Some(label)
                    &&& final(self)@ == old(self)@.showing(label)
                    &&& placements(layout@) == old(self)@.layout(label, window)
                    &&& notice@ == focused(label)
                },
                OpenOutcome::Create(label) => {
                    &&& window != WindowStatus::Missing
                    &&& old(self)@.existing(url.path@, texts(live@)) is None
                    &&& final(self)@ == old(self)@.numbered_on()
                    &&& label@ == tab_label(old(self)@.counter)
                    &&& old(self)@.wf() && old(self)@.labels_given_out()
                        ==> !old(self)@.order.contains(label@)
                },
            },
            old(self)@.wf() ==> final(self)@.wf(),
    {
        if window == WindowStatus::Missing {
            return OpenOutcome::Nothing;
        }
        let existing: Option<String> = if is_settings_url(url) {
            find_live(&self.settings, live)
        } else if is_voice_url(url) {
            find_live(&self.voice, live)
        } else {
            None
        };
        if let Some(label) = existing {
            let layout: Vec<Placed> = self.layout(label.as_str(), window);
            let notice: Notice = Notice::focused(label.as_str());
            self.active = label;
            return OpenOutcome::Focused(layout, notice);
        }
        proof {
            if self@.wf() && self@.labels_given_out() {
                law_next_label_is_free(self@);
            }
        }
        let mut label: String = "tab-".to_owned();
        push_decimal(&mut label, self.counter);
        self.counter = self.counter.wrapping_add(1);
        OpenOutcome::Create(label)
    }

    /// Lists the tab whose webview was just created and brings it to the front.
    pub fn tab_added(&mut self, label: &str, url: &PageUrl, window: WindowStatus) -> (r: (
        Vec<Placed>,
        Notice,
    ))
        ensures
            final(self)@ == old(self)@.added(label@, url.path@),
            old(self)@.wf() && !old(self)@.order.contains(label@) ==> final(self)@.wf(),
            placements(r.0@) == old(self)@.listed(label@, url.path@).layout(label@, window),
            r.1@ == opened(label@, title_of_path(url.path@)),
            ({
                let segment = naming_segment(url.path@);
                (segment[0] as int) < 128 ==> r.1@ == opened(
                    label@,
                    segment_title(segment, seq![ascii_uppercase(segment[0])]),
                )
            }),
    {
        let ghost pre = self@;
        self.order.push(label.to_owned());
        if is_voice_url(url) {
            self.voice.push(label.to_owned());
        } else if is_settings_url(url) {
            self.settings.push(label.to_owned());
        }
        proof {
            law_voice_is_not_settings(url.path@);
            assert(self@ =~= pre.listed(label@, url.path@));
            if pre.wf() && !pre.order.contains(label@) {
                law_add_keeps_wf(pre, label@, url.path@);
            }
        }
        let layout: Vec<Placed> = self.layout(label, window);
        self.active = label.to_owned();
        (layout, Notice::opened(label, tab_title(url)))
    }

    /// Label of the tab that stands at `at`, or else of the last one; that of the
    /// Platform tab where none is open.
    fn neighbor(&self, at: Option<usize>) -> (r: String)
        ensures
            r@ == (match at {
                Some(i) if i < self@.order.len() => self@.order[i as int],
                _ => if self@.order.len() > 0 {
                    self@.order.last()
                } else {
                    PLATFORM_TAB@
                },
            }),
    {
        if let Some(i) = at {
            if i < self.order.len() {
                return self.order[i].clone();
            }
        }
        if self.order.len() > 0 {
            self.order[self.order.len() - 1].clone()
        } else {
            PLATFORM_TAB.to_owned()
        }
    }

    /// Closes a tab, unless it is the Platform tab or a call keeps it open.
    ///
    /// A tab with a live call closes only by `force`: closing hangs up on the
    /// client, who cannot rejoin. Where the closed tab was the one that shows,
    /// its right neighbor takes over, or the left one where it stood last.
    pub fn close_tab_impl(&mut self, label: &str, force: bool, window: WindowStatus) -> (r:
        CloseOutcome)
        ensures
            final(self)@ == old(self)@.closed(label@, force),
            answers_close(r, old(self)@, label@, force, window),
            old(self)@.wf() ==> final(self)@.wf(),
            old(self)@.wf() && old(self)@.shows_open_tab() ==> final(self)@.shows_open_tab(),
    {
        let ghost pre = self@;
        proof {
            if pre.wf() {
                law_close_keeps_wf(pre, label@, force);
                if pre.shows_open_tab() {
                    law_close_shows_open_tab(pre, label@, force);
                }
            }
        }
        if same_text(label, PLATFORM_TAB) {
            return CloseOutcome::Ignored;
        }
        let is_voice: bool = is_listed(&self.voice, label);
        if is_voice && !force && self.call_active {
            return CloseOutcome::Blocked(Notice::tab_kept(label));
        }
        let at: Option<usize> = position(&self.order, label);
        if let Some(i) = at {
            let ghost before = self.order@;
            self.order.remove(i);
            assert(texts(self.order@) =~= texts(before).remove(i as int));
        } else {
            proof {
                texts(self.order@).index_of_first_ensures(label@);
            }
        }
        self.voice = without(&self.voice, label);
        self.settings = without(&self.settings, label);
        let mut sleep: Option<SleepRequest> = None;
        if is_voice {
            sleep = Some(self.set_call_active(false));
        }
        assert(self@ =~= pre.unlisted(label@));
        let mut layout: Vec<Placed> = Vec::new();
        assert(placements(layout@) =~= Seq::empty());
        if same_text(self.active.as_str(), label) {
            let next: String = self.neighbor(at);
            layout = self.layout(next.as_str(), window);
            self.active = next;
        }
        let teardown: Teardown = if is_voice {
            Teardown::Terminate
        } else {
            Teardown::Immediate
        };
        let notice: Notice = Notice::closed(label, self.active.as_str());
        CloseOutcome::Closed(Closing { sleep, teardown, layout, notice })
    }

    /// Closes a tab at the title bar's request, which insists only where it says
    /// so.
    pub fn close_tab(&mut self, label: &str, force: Option<bool>, window: WindowStatus) -> (r:
        CloseOutcome)
        ensures
            final(self)@ == old(self)@.closed(label@, force == Some(true)),
            answers_close(r, old(self)@, label@, force == Some(true), window),
            old(self)@.wf() ==> final(self)@.wf(),
            old(self)@.wf() && old(self)@.shows_open_tab() ==> final(self)@.shows_open_tab(),
    {
        let insist: bool = match force {
            Some(f) => f,
            None => false,
        };
        self.close_tab_impl(label, insist, window)
    }

    /// Label of the Phone tab, where there is one.
    pub fn phone_tab(&self) -> (r: Option<&str>)
        ensures
            match r {
                Some(label) => self@.voice.len() > 0 && label@ == self@.voice[0],
                None => self@.voice.len() == 0,
            },
    {
        if self.voice.len() == 0 {
            None
        } else {
            Some(self.voice[0].as_str())
        }
    }

    /// Closes the Phone tab for good, so that a fresh one can take its place:
    /// only a new webview clears a wedged softphone. `None` where there is no
    /// Phone tab. The page asks for this only while no call is live.
    ///
    /// The page is opened anew, once the old webview is gone, where its address
    /// could be read.
    pub fn reconnect_voice(&mut self, address_known: bool, window: WindowStatus) -> (r: Option<
        Reconnect,
    >)
        ensures
            match r {
                Some(reconnect) => {
                    &&& old(self)@.voice.len() > 0
                    &&& reconnect.label@ == old(self)@.voice[0]
                    &&& final(self)@ == old(self)@.closed(old(self)@.voice[0], true)
                    &&& answers_close(
                        reconnect.outcome,
                        old(self)@,
                        old(self)@.voice[0],
                        true,
                        window,
                    )
                    &&& reconnect.reopen_after_ms == (if address_known {
                        Some(RECONNECT_DELAY_MS)
                    } else {
                        None
                    })
                },
                None => old(self)@.voice.len() == 0 && final(self)@ == old(self)@,
            },
            old(self)@.wf() ==> final(self)@.wf(),
            old(self)@.wf() && old(self)@.shows_open_tab() ==> final(self)@.shows_open_tab(),
    {
        let label: String = match self.phone_tab() {
            Some(found) => found.to_owned(),
            None => {
                return None;
            },
        };
        let outcome: CloseOutcome = self.close_tab_impl(label.as_str(), true, window);
        let reopen_after_ms: Option<u64> = if address_known {
            Some(RECONNECT_DELAY_MS)
        } else {
            None
        };
        Some(Reconnect { label, outcome, reopen_after_ms })
    }

    /// Records whether a call is live. The machine is kept awake during a call
    /// and only then.
    pub fn set_call_active(&mut self, active: bool) -> (r: SleepRequest)
        ensures
            final(self)@ == old(self)@.with_call(active),
            r == sleep_request(active),
            old(self)@.wf() ==> final(self)@.wf(),
    {
        self.call_active = active;
        sleep_for(active)
    }

    /// Answers the window's request to close. A call keeps it open, and the
    /// title bar asks the user.
    pub fn window_close_requested(&self) -> (r: Option<Notice>)
        ensures
            match r {
                Some(notice) => self@.call_active && notice@ == window_kept(),
                None => !self@.call_active,
            },
    {
        if self.call_active {
            Some(Notice::window_kept())
        } else {
            None
        }
    }
}

} // verus!
