//! What each request to the shell does, told by what goes in and what comes out:
//! the tabs that were open before, the tabs that are open afterwards, and the
//! answer.

use vstd::prelude::*;

use crate::laws::{law_close_keeps_wf, law_close_shows_open_tab, lemma_remove_all};
use crate::model::{
    first_live, remove_all, remove_first, Placement, ShellModel, SleepRequest, Teardown,
    WindowStatus,
};
use crate::notice::{
    lemma_tells_one, lemma_tells_two, tells_one, tells_two, Notice,
};
use crate::page::{last_segment, tab_title, PageUrl};
use crate::shell::{
    answers_close, placements, sleep_for, CloseOutcome, OpenOutcome, Placed, Reconnect, Shell,
};
use crate::text::{decimal, texts};

verus! {

/// `placed` holds one entry for each of `tabs`, in their order. The entry of
/// `front` is in the foreground, those of the other `phones` are parked, and all
/// others are hidden.
pub open spec fn brings_to_front(
    placed: Seq<Placed>,
    tabs: Seq<Seq<char>>,
    phones: Seq<Seq<char>>,
    front: Seq<char>,
) -> bool {
    &&& placed.len() == tabs.len()
    &&& forall|i: int|
        0 <= i < tabs.len() ==> {
            let p = #[trigger] placed[i];
            &&& p.label@ == tabs[i]
            &&& p.placement == Placement::Foreground <==> tabs[i] == front
            &&& p.placement == Placement::Parked <==> tabs[i] != front && phones.contains(tabs[i])
            &&& p.placement == Placement::Hidden <==> tabs[i] != front && !phones.contains(tabs[i])
        }
}

/// Exactly one entry of `placed` is in the foreground, and it is `front`.
pub open spec fn one_in_front(placed: Seq<Placed>, front: Seq<char>) -> bool {
    exists|k: int|
        0 <= k < placed.len() && (#[trigger] placed[k]).label@ == front && placed[k].placement
            == Placement::Foreground && forall|j: int|
            0 <= j < placed.len() && j != k ==> (#[trigger] placed[j]).placement
                != Placement::Foreground
}

/// The tabs that are open are the same in both states, and so are the Phone and
/// Phone settings tabs among them.
pub open spec fn same_tabs(a: ShellModel, b: ShellModel) -> bool {
    a.order == b.order && a.voice == b.voice && a.settings == b.settings
}

proof fn lemma_layout(
    placed: Seq<Placed>,
    s: ShellModel,
    front: Seq<char>,
    window: WindowStatus,
)
    requires
        placements(placed) == s.layout(front, window),
    ensures
        window == WindowStatus::Ready ==> brings_to_front(placed, s.order, s.voice, front),
        window != WindowStatus::Ready ==> placed.len() == 0,
{
    assert(placements(placed).len() == placed.len());
    if window == WindowStatus::Ready {
        assert forall|i: int| 0 <= i < s.order.len() implies {
            let p = #[trigger] placed[i];
            &&& p.label@ == s.order[i]
            &&& p.placement == Placement::Foreground <==> s.order[i] == front
            &&& p.placement == Placement::Parked <==> s.order[i] != front && s.voice.contains(
                s.order[i],
            )
            &&& p.placement == Placement::Hidden <==> s.order[i] != front && !s.voice.contains(
                s.order[i],
            )
        } by {
            assert(placements(placed)[i] == (placed[i].label@, placed[i].placement));
            assert(s.layout(front, window)[i].0 == s.order[i]);
        }
    }
}

proof fn lemma_one_in_front(
    placed: Seq<Placed>,
    tabs: Seq<Seq<char>>,
    phones: Seq<Seq<char>>,
    front: Seq<char>,
)
    requires
        brings_to_front(placed, tabs, phones, front),
        tabs.no_duplicates(),
        tabs.contains(front),
    ensures
        one_in_front(placed, front),
{
    let k = choose|k: int| 0 <= k < tabs.len() && tabs[k] == front;
    assert(placed[k].label@ == front && placed[k].placement == Placement::Foreground);
    assert forall|j: int| 0 <= j < placed.len() && j != k implies (#[trigger] placed[j]).placement
        != Placement::Foreground by {
        assert(tabs[j] != tabs[k]);
    }
}

/// Switching to a tab shows it in the content area, parks the Phone tab where it
/// is another one, call or no call, and hides the rest. The tab is recorded as the
/// one that shows, and nothing else changes. While the window is missing or of
/// unknown size nothing happens at all.
pub proof fn law_switching_brings_to_front(
    s: &mut Shell,
    label: &str,
    window: WindowStatus,
    r: Vec<Placed>,
)
    requires
        call_ensures(Shell::switch_tab, (s, label, window), r) || call_ensures(
            Shell::activate,
            (s, label, window),
            r,
        ),
    ensures
        window == WindowStatus::Ready ==> brings_to_front(
            r@,
            old(s)@.order,
            old(s)@.voice,
            label@,
        ),
        window == WindowStatus::Ready ==> final(s)@.active == label@,
        window == WindowStatus::Ready && old(s)@.wf() && old(s)@.order.contains(label@)
            ==> one_in_front(r@, label@),
        window != WindowStatus::Ready ==> r@.len() == 0,
        window != WindowStatus::Ready ==> final(s)@.active == old(s)@.active,
        same_tabs(old(s)@, final(s)@),
        final(s)@.call_active == old(s)@.call_active,
        final(s)@.counter == old(s)@.counter,
{
    lemma_layout(r@, old(s)@, label@, window);
    if window == WindowStatus::Ready && old(s)@.wf() && old(s)@.order.contains(label@) {
        lemma_one_in_front(r@, old(s)@.order, old(s)@.voice, label@);
    }
}

/// A resize fits the title bar and the tab that shows, whichever it is, into a
/// window of known size, and moves nothing else.
pub proof fn law_resize_fits_the_tab_that_shows(s: &Shell, window: WindowStatus, r: Vec<Placed>)
    requires
        call_ensures(Shell::relayout, (s, window), r),
    ensures
        window == WindowStatus::Ready ==> {
            &&& r@.len() == 2
            &&& r@[0].label@ == "title_bar"@
            &&& r@[0].placement == Placement::TitleBar
            &&& r@[1].label@ == s@.active
            &&& r@[1].placement == Placement::Fitted
        },
        window != WindowStatus::Ready ==> r@.len() == 0,
{
    assert(placements(r@).len() == r@.len());
    if window == WindowStatus::Ready {
        assert(placements(r@)[0] == (r@[0].label@, r@[0].placement));
        assert(placements(r@)[1] == (r@[1].label@, r@[1].placement));
    }
}

proof fn lemma_first_live_is_first(labels: Seq<Seq<char>>, live: Seq<Seq<char>>)
    ensures
        match first_live(labels, live) {
            Some(l) => exists|i: int|
                0 <= i < labels.len() && #[trigger] labels[i] == l && live.contains(l) && forall|
                    j: int,
                |
                    0 <= j < i ==> !live.contains(#[trigger] labels[j]),
            None => forall|l: Seq<char>| #[trigger] labels.contains(l) ==> !live.contains(l),
        },
    decreases labels.len(),
{
    if labels.len() > 0 && !live.contains(labels[0]) {
        let rest = labels.skip(1);
        lemma_first_live_is_first(rest, live);
        match first_live(rest, live) {
            Some(l) => {
                let i = choose|i: int|
                    0 <= i < rest.len() && #[trigger] rest[i] == l && live.contains(l) && forall|
                        j: int,
                    |
                        0 <= j < i ==> !live.contains(#[trigger] rest[j]);
                assert(labels[i + 1] == l);
                assert forall|j: int| 0 <= j < i + 1 implies !live.contains(
                    #[trigger] labels[j],
                ) by {
                    if j > 0 {
                        assert(rest[j - 1] == labels[j]);
                    }
                }
            },
            None => {
                assert forall|l: Seq<char>| #[trigger] labels.contains(l) implies !live.contains(
                    l,
                ) by {
                    let i = choose|i: int| 0 <= i < labels.len() && labels[i] == l;
                    if i > 0 {
                        assert(rest[i - 1] == l);
                        assert(rest.contains(l));
                    }
                }
            },
        }
    } else if labels.len() > 0 {
        assert(labels[0] == first_live(labels, live)->0);
    }
}

/// `tabs` are the open tabs of the kind to which `path` leads: the Phone settings
/// tabs for a Phone settings address, the Phone tabs for a softphone address, and
/// none for any other page.
pub open spec fn tabs_of_that_kind(s: ShellModel, path: Seq<char>, tabs: Seq<Seq<char>>) -> bool {
    &&& last_segment(path) == Some("voice-settings"@) ==> tabs == s.settings
    &&& last_segment(path) == Some("voice"@) ==> tabs == s.voice
    &&& last_segment(path) != Some("voice-settings"@) && last_segment(path) != Some("voice"@)
        ==> tabs.len() == 0
}

/// Asking for a page looks for a tab of that very kind only: the first one whose
/// webview is alive comes to the front, and where there is none a new tab is
/// created. So a Phone settings address never ends in a Phone tab, nor the other way
/// round. Without a window nothing happens.
pub proof fn law_open_looks_for_its_own_kind(
    s: &mut Shell,
    url: &PageUrl,
    live: &Vec<String>,
    window: WindowStatus,
    r: OpenOutcome,
    tabs: Seq<Seq<char>>,
)
    requires
        call_ensures(Shell::open_tab, (s, url, live, window), r),
        tabs_of_that_kind(old(s)@, url.path@, tabs),
    ensures
        r is Nothing <==> window == WindowStatus::Missing,
        r is Nothing ==> final(s)@ == old(s)@,
        r is Focused ==> exists|i: int|
            0 <= i < tabs.len() && #[trigger] tabs[i] == final(s)@.active && texts(live@).contains(
                tabs[i],
            ) && forall|j: int| 0 <= j < i ==> !texts(live@).contains(#[trigger] tabs[j]),
        r is Create ==> forall|l: Seq<char>| #[trigger]
            tabs.contains(l) ==> !texts(live@).contains(l),
{
    reveal_strlit("voice");
    reveal_strlit("voice-settings");
    assert("voice"@.len() != "voice-settings"@.len());
    lemma_first_live_is_first(tabs, texts(live@));
    assert(old(s)@.same_kind(url.path@) =~= tabs);
}

/// An existing tab that is asked for again is shown like any other: it alone is in
/// front, it is recorded as the one that shows, and the title bar hears of it. No tab
/// is opened or closed.
pub proof fn law_existing_tab_comes_to_front(
    s: &mut Shell,
    url: &PageUrl,
    live: &Vec<String>,
    window: WindowStatus,
    placed: Vec<Placed>,
    notice: Notice,
)
    requires
        call_ensures(
            Shell::open_tab,
            (s, url, live, window),
            OpenOutcome::Focused(placed, notice),
        ),
    ensures
        window == WindowStatus::Ready ==> brings_to_front(
            placed@,
            old(s)@.order,
            old(s)@.voice,
            final(s)@.active,
        ),
        window != WindowStatus::Ready ==> placed@.len() == 0,
        window == WindowStatus::Ready && old(s)@.wf() ==> one_in_front(
            placed@,
            final(s)@.active,
        ),
        tells_one(notice, "tab:focused"@, "label"@, final(s)@.active),
        same_tabs(old(s)@, final(s)@),
        final(s)@.call_active == old(s)@.call_active,
        final(s)@.counter == old(s)@.counter,
{
    let front = final(s)@.active;
    lemma_layout(placed@, old(s)@, front, window);
    lemma_tells_one(notice, "tab:focused"@, "label"@, front);
    if window == WindowStatus::Ready && old(s)@.wf() {
        lemma_first_live_is_first(old(s)@.same_kind(url.path@), texts(live@));
        assert(old(s)@.same_kind(url.path@).contains(front));
        assert(old(s)@.order.contains(front));
        lemma_one_in_front(placed@, old(s)@.order, old(s)@.voice, front);
    }
}

/// A new tab is labelled with the next number, which is then used up, and nothing
/// else changes until its webview is there.
pub proof fn law_new_tab_takes_the_next_number(
    s: &mut Shell,
    url: &PageUrl,
    live: &Vec<String>,
    window: WindowStatus,
    label: String,
)
    requires
        call_ensures(Shell::open_tab, (s, url, live, window), OpenOutcome::Create(label)),
    ensures
        label@ == "tab-"@ + decimal(old(s)@.counter as nat),
        old(s)@.counter < u32::MAX ==> final(s)@.counter == old(s)@.counter + 1,
        old(s)@.counter == u32::MAX ==> final(s)@.counter == 0,
        same_tabs(old(s)@, final(s)@),
        final(s)@.active == old(s)@.active,
        final(s)@.call_active == old(s)@.call_active,
{
}

/// A tab whose webview was created stands last in the list and shows: it alone is in
/// front, while the Phone tab is parked and the rest are hidden. It counts as a Phone
/// tab where its address ends in `voice`, and as a Phone settings tab where it ends in
/// `voice-settings`.
pub proof fn law_added_tab_stands_last_and_shows(
    s: &mut Shell,
    label: &str,
    url: &PageUrl,
    window: WindowStatus,
    r: (Vec<Placed>, Notice),
)
    requires
        call_ensures(Shell::tab_added, (s, label, url, window), r),
    ensures
        final(s)@.order == old(s)@.order + seq![label@],
        last_segment(url.path@) == Some("voice"@) ==> final(s)@.voice == old(s)@.voice + seq![
            label@,
        ],
        last_segment(url.path@) != Some("voice"@) ==> final(s)@.voice == old(s)@.voice,
        last_segment(url.path@) == Some("voice-settings"@) ==> final(s)@.settings == old(
            s,
        )@.settings + seq![label@],
        last_segment(url.path@) != Some("voice-settings"@) ==> final(s)@.settings == old(
            s,
        )@.settings,
        final(s)@.active == label@,
        final(s)@.call_active == old(s)@.call_active,
        final(s)@.counter == old(s)@.counter,
        window == WindowStatus::Ready ==> brings_to_front(
            r.0@,
            final(s)@.order,
            final(s)@.voice,
            label@,
        ),
        window == WindowStatus::Ready && old(s)@.wf() && !old(s)@.order.contains(label@)
            ==> one_in_front(r.0@, label@),
        window != WindowStatus::Ready ==> r.0@.len() == 0,
{
    let t = old(s)@.listed(label@, url.path@);
    lemma_layout(r.0@, t, label@, window);
    assert(t.order =~= old(s)@.order + seq![label@]);
    assert(old(s)@.voice.push(label@) =~= old(s)@.voice + seq![label@]);
    assert(old(s)@.settings.push(label@) =~= old(s)@.settings + seq![label@]);
    if window == WindowStatus::Ready && old(s)@.wf() && !old(s)@.order.contains(label@) {
        assert(final(s)@.wf());
        assert(t.order[old(s)@.order.len() as int] == label@);
        lemma_one_in_front(r.0@, t.order, t.voice, label@);
    }
}

/// The title bar hears of an added tab under its label, with the title that its
/// address has.
pub proof fn law_added_tab_is_announced_with_its_title(
    s: &mut Shell,
    label: &str,
    url: &PageUrl,
    window: WindowStatus,
    r: (Vec<Placed>, Notice),
    title: String,
)
    requires
        call_ensures(Shell::tab_added, (s, label, url, window), r),
        call_ensures(tab_title, (url,), title),
    ensures
        tells_two(r.1, "tab:opened"@, "label"@, label@, "title"@, title@),
{
    lemma_tells_two(r.1, "tab:opened"@, "label"@, label@, "title"@, title@);
}

/// A request to close `label` is refused where it is the Platform tab, and where it
/// hosts the softphone during a call and the user has not insisted; it goes ahead in
/// every other case. A refusal changes nothing, and of the second kind the title bar
/// hears.
pub open spec fn refused_rightly(
    pre: ShellModel,
    post: ShellModel,
    outcome: CloseOutcome,
    label: Seq<char>,
    force: bool,
) -> bool {
    &&& outcome is Ignored <==> label == "content"@
    &&& outcome is Blocked <==> label != "content"@ && pre.voice.contains(label) && pre.call_active
        && !force
    &&& !(outcome is Closed) ==> post == pre
    &&& outcome matches CloseOutcome::Blocked(notice) ==> tells_two(
        notice,
        "call:close-blocked"@,
        "kind"@,
        "tab"@,
        "label"@,
        label,
    )
}

/// `label` first stands at position `i` of `list`.
pub open spec fn first_at(list: Seq<Seq<char>>, label: Seq<char>, i: int) -> bool {
    &&& 0 <= i < list.len()
    &&& list[i] == label
    &&& forall|j: int| 0 <= j < i ==> #[trigger] list[j] != label
}

/// `after` is `before` without the first `label`, all else in its old order.
pub open spec fn taken_off(before: Seq<Seq<char>>, after: Seq<Seq<char>>, label: Seq<char>) -> bool {
    &&& !before.contains(label) ==> after == before
    &&& forall|i: int| #[trigger]
        first_at(before, label, i) ==> after == before.take(i) + before.skip(i + 1)
}

/// `after` holds what `before` holds except `label`; where `before` names no tab twice,
/// all else is in its old order.
pub open spec fn cleared_of(before: Seq<Seq<char>>, after: Seq<Seq<char>>, label: Seq<char>) -> bool {
    &&& forall|l: Seq<char>| #[trigger] after.contains(l) <==> before.contains(l) && l != label
    &&& before.no_duplicates() ==> taken_off(before, after, label)
}

/// `label` is off every list, and a call ends if the tab hosted it and only then.
pub open spec fn tab_is_off_the_lists(pre: ShellModel, post: ShellModel, label: Seq<char>) -> bool {
    &&& taken_off(pre.order, post.order, label)
    &&& cleared_of(pre.voice, post.voice, label)
    &&& cleared_of(pre.settings, post.settings, label)
    &&& post.call_active == (pre.call_active && !pre.voice.contains(label))
    &&& post.counter == pre.counter
}

/// Where `label` showed, its right neighbor shows now, or the left one where it stood
/// last; where another tab showed, that one still does.
pub open spec fn neighbor_takes_over(pre: ShellModel, post: ShellModel, label: Seq<char>) -> bool {
    &&& pre.active != label ==> post.active == pre.active
    &&& pre.active == label ==> forall|i: int| #[trigger]
        first_at(pre.order, label, i) ==> {
            &&& i + 1 < pre.order.len() ==> post.active == pre.order[i + 1]
            &&& i + 1 == pre.order.len() && i > 0 ==> post.active == pre.order[i - 1]
            &&& pre.order.len() == 1 ==> post.active == "content"@
        }
    &&& pre.active == label && !pre.order.contains(label) && pre.order.len() > 0 ==> post.active
        == pre.order.last()
    &&& pre.active == label && pre.order.len() == 0 ==> post.active == "content"@
}

/// What is to be done after `label` was closed: a tab that hosted the softphone first
/// ends its session, and the machine may sleep again; any other goes at once. Where
/// the tab showed, the one that takes over is brought to the front, Phone tab or not.
/// The title bar hears which tab is gone and which one shows.
pub open spec fn closed_rightly(
    pre: ShellModel,
    post: ShellModel,
    outcome: CloseOutcome,
    label: Seq<char>,
    window: WindowStatus,
) -> bool {
    outcome matches CloseOutcome::Closed(closing) ==> {
        &&& pre.voice.contains(label) ==> closing.teardown == Teardown::Terminate && closing.sleep
            == Some(SleepRequest::Release)
        &&& !pre.voice.contains(label) ==> closing.teardown == Teardown::Immediate && closing.sleep
            == None::<SleepRequest>
        &&& pre.active == label && window == WindowStatus::Ready ==> brings_to_front(
            closing.layout@,
            post.order,
            post.voice,
            post.active,
        )
        &&& pre.active == label && window == WindowStatus::Ready && pre.wf() ==> one_in_front(
            closing.layout@,
            post.active,
        )
        &&& pre.active != label || window != WindowStatus::Ready ==> closing.layout@.len() == 0
        &&& tells_two(
            closing.notice,
            "tab:closed"@,
            "label"@,
            label,
            "active"@,
            post.active,
        )
    }
}

proof fn lemma_first_index(list: Seq<Seq<char>>, label: Seq<char>, i: int)
    requires
        first_at(list, label, i),
    ensures
        list.index_of_first(label) == Some(i),
{
    assert(list.contains(label));
    list.index_of_first_ensures(label);
    let k = list.index_of_first(label)->0;
    if k < i {
        assert(list[k] != label);
    }
}

proof fn lemma_taken_off_first(list: Seq<Seq<char>>, label: Seq<char>)
    ensures
        taken_off(list, remove_first(list, label), label),
{
    list.index_of_first_ensures(label);
    assert forall|i: int| #[trigger] first_at(list, label, i) implies remove_first(list, label)
        == list.take(i) + list.skip(i + 1) by {
        lemma_first_index(list, label, i);
        assert(list.remove(i) =~= list.take(i) + list.skip(i + 1));
    }
}

proof fn lemma_remove_all_at(list: Seq<Seq<char>>, label: Seq<char>, i: int)
    requires
        list.no_duplicates(),
        0 <= i < list.len(),
        list[i] == label,
    ensures
        remove_all(list, label) == list.take(i) + list.skip(i + 1),
    decreases list.len(),
{
    let init = list.drop_last();
    let last = list.last();
    assert(remove_all(list, label) == if last != label {
        remove_all(init, label).push(last)
    } else {
        remove_all(init, label)
    }) by {
        reveal(Seq::filter);
    }
    if i < init.len() {
        assert(list[list.len() - 1] != list[i]);
        lemma_remove_all_at(init, label, i);
        assert((init.take(i) + init.skip(i + 1)).push(last) =~= list.take(i) + list.skip(i + 1));
    } else {
        assert(!init.contains(label)) by {
            if init.contains(label) {
                let j = choose|j: int| 0 <= j < init.len() && init[j] == label;
                assert(list[j] == list[i]);
            }
        }
        lemma_remove_all(init, label);
        assert(list.take(i) + list.skip(i + 1) =~= init);
    }
}

proof fn lemma_cleared(list: Seq<Seq<char>>, label: Seq<char>)
    ensures
        cleared_of(list, remove_all(list, label), label),
{
    lemma_remove_all(list, label);
    if list.no_duplicates() {
        assert forall|i: int| #[trigger] first_at(list, label, i) implies remove_all(list, label)
            == list.take(i) + list.skip(i + 1) by {
            lemma_remove_all_at(list, label, i);
        }
    }
}

proof fn lemma_closed_lists(pre: ShellModel, label: Seq<char>, force: bool)
    requires
        pre.closes(label, force),
    ensures
        tab_is_off_the_lists(pre, pre.closed(label, force), label),
        neighbor_takes_over(pre, pre.closed(label, force), label),
{
    lemma_taken_off_first(pre.order, label);
    lemma_cleared(pre.voice, label);
    lemma_cleared(pre.settings, label);
    let post = pre.closed(label, force);
    assert(post.order == remove_first(pre.order, label));
    pre.order.index_of_first_ensures(label);
    if pre.active == label {
        assert forall|i: int| #[trigger] first_at(pre.order, label, i) implies {
            &&& i + 1 < pre.order.len() ==> post.active == pre.order[i + 1]
            &&& i + 1 == pre.order.len() && i > 0 ==> post.active == pre.order[i - 1]
            &&& pre.order.len() == 1 ==> post.active == "content"@
        } by {
            lemma_first_index(pre.order, label, i);
        }
    }
}

proof fn lemma_close_answer(
    pre: ShellModel,
    outcome: CloseOutcome,
    label: Seq<char>,
    force: bool,
    window: WindowStatus,
)
    requires
        answers_close(outcome, pre, label, force, window),
    ensures
        refused_rightly(pre, pre.closed(label, force), outcome, label, force),
        closed_rightly(pre, pre.closed(label, force), outcome, label, window),
        outcome is Closed ==> pre.closes(label, force),
{
    let post = pre.closed(label, force);
    match outcome {
        CloseOutcome::Ignored => {},
        CloseOutcome::Blocked(notice) => {
            lemma_tells_two(notice, "call:close-blocked"@, "kind"@, "tab"@, "label"@, label);
        },
        CloseOutcome::Closed(closing) => {
            assert(placements(closing.layout@).len() == closing.layout@.len());
            lemma_tells_two(closing.notice, "tab:closed"@, "label"@, label, "active"@, post.active);
            if pre.active == label {
                lemma_layout(closing.layout@, pre.unlisted(label), post.active, window);
                if window == WindowStatus::Ready && pre.wf() {
                    law_close_keeps_wf(pre, label, force);
                    lemma_successor_is_open(pre, label, force);
                    lemma_one_in_front(closing.layout@, post.order, post.voice, post.active);
                }
            }
        },
    }
}

proof fn lemma_successor_is_open(pre: ShellModel, label: Seq<char>, force: bool)
    requires
        pre.wf(),
        pre.closes(label, force),
        pre.active == label,
    ensures
        pre.closed(label, force).order.contains(pre.closed(label, force).active),
{
    let post = pre.closed(label, force);
    law_close_keeps_wf(pre, label, force);
    if pre.order.contains(label) {
        law_close_shows_open_tab(pre, label, force);
    } else {
        lemma_closed_lists(pre, label, force);
        assert(post.order == pre.order);
        assert(post.order.contains(post.order.last()));
    }
}

/// Closing a tab: when it is refused, what is left of the lists, which tab shows
/// afterwards, and what is to be done. In a window of known size the tab that takes
/// over from one that showed is always brought to the front, so that the content area
/// is never left blank.
pub proof fn law_closing(
    s: &mut Shell,
    label: &str,
    force: bool,
    window: WindowStatus,
    r: CloseOutcome,
)
    requires
        call_ensures(Shell::close_tab_impl, (s, label, force, window), r),
    ensures
        refused_rightly(old(s)@, final(s)@, r, label@, force),
        closed_rightly(old(s)@, final(s)@, r, label@, window),
        r is Closed ==> tab_is_off_the_lists(old(s)@, final(s)@, label@),
        r is Closed ==> neighbor_takes_over(old(s)@, final(s)@, label@),
{
    lemma_close_answer(old(s)@, r, label@, force, window);
    if r is Closed {
        lemma_closed_lists(old(s)@, label@, force);
    }
}

/// The title bar's request to close does the same, and insists only where it says so.
pub proof fn law_title_bar_closes_alike(
    s: &mut Shell,
    label: &str,
    force: Option<bool>,
    window: WindowStatus,
    r: CloseOutcome,
)
    requires
        call_ensures(Shell::close_tab, (s, label, force, window), r),
    ensures
        ({
            let insists = force matches Some(f) && f;
            &&& refused_rightly(old(s)@, final(s)@, r, label@, insists)
            &&& closed_rightly(old(s)@, final(s)@, r, label@, window)
            &&& r is Closed ==> tab_is_off_the_lists(old(s)@, final(s)@, label@)
            &&& r is Closed ==> neighbor_takes_over(old(s)@, final(s)@, label@)
        }),
{
    lemma_close_answer(old(s)@, r, label@, force == Some(true), window);
    if r is Closed {
        lemma_closed_lists(old(s)@, label@, force == Some(true));
    }
}

/// A reconnect closes the first Phone tab, call or no call, as closing by insisting
/// does, and has the page opened anew where its address is known, 900 ms later.
/// Without a Phone tab nothing happens.
pub proof fn law_reconnect_closes_the_phone_tab(
    s: &mut Shell,
    address_known: bool,
    window: WindowStatus,
    r: Option<Reconnect>,
)
    requires
        call_ensures(Shell::reconnect_voice, (s, address_known, window), r),
    ensures
        r is None <==> old(s)@.voice.len() == 0,
        r is None ==> final(s)@ == old(s)@,
        r matches Some(reconnect) ==> {
            let label = old(s)@.voice[0];
            &&& reconnect.label@ == label
            &&& refused_rightly(old(s)@, final(s)@, reconnect.outcome, label, true)
            &&& closed_rightly(old(s)@, final(s)@, reconnect.outcome, label, window)
            &&& old(s)@.wf() ==> reconnect.outcome is Closed
            &&& reconnect.outcome matches CloseOutcome::Closed(closing) ==> {
                &&& closing.teardown == Teardown::Terminate
                &&& closing.sleep == Some(SleepRequest::Release)
                &&& tab_is_off_the_lists(old(s)@, final(s)@, label)
                &&& neighbor_takes_over(old(s)@, final(s)@, label)
            }
            &&& address_known ==> reconnect.reopen_after_ms == Some(900u64)
            &&& !address_known ==> reconnect.reopen_after_ms == None::<u64>
        },
{
    if let Some(reconnect) = r {
        let label = old(s)@.voice[0];
        assert(old(s)@.voice.contains(label));
        lemma_close_answer(old(s)@, reconnect.outcome, label, true, window);
        if reconnect.outcome is Closed {
            lemma_closed_lists(old(s)@, label, true);
        }
    }
}

/// The Phone tab is the first of the listed ones.
pub proof fn law_phone_tab_is_the_first_listed(s: &Shell, r: Option<&str>)
    requires
        call_ensures(Shell::phone_tab, (s,), r),
    ensures
        r is None <==> s@.voice.len() == 0,
        r matches Some(label) ==> label@ == s@.voice[0],
{
}

/// A report on the call is recorded as it came, whatever was recorded before and
/// whichever tabs are open; the machine is held awake where the call is live and
/// released where it is not. Nothing else changes.
pub proof fn law_call_report_is_recorded(
    s: &mut Shell,
    active: bool,
    r: SleepRequest,
    other: SleepRequest,
)
    requires
        call_ensures(Shell::set_call_active, (s, active), r),
    ensures
        final(s)@.call_active == active,
        r == SleepRequest::Hold <==> active,
        r == SleepRequest::Release <==> !active,
        call_ensures(sleep_for, (active,), other) ==> other == r,
        same_tabs(old(s)@, final(s)@),
        final(s)@.active == old(s)@.active,
        final(s)@.counter == old(s)@.counter,
{
}

/// The window stays open during a call, which the title bar hears, and closes at any
/// other time.
pub proof fn law_call_keeps_the_window_open(s: &Shell, r: Option<Notice>)
    requires
        call_ensures(Shell::window_close_requested, (s,), r),
    ensures
        r is Some <==> s@.call_active,
        r matches Some(notice) ==> tells_one(
            notice,
            "call:close-blocked"@,
            "kind"@,
            "window"@,
        ),
{
    if let Some(notice) = r {
        lemma_tells_one(notice, "call:close-blocked"@, "kind"@, "window"@);
    }
}

/// At startup the Platform tab alone is open and shows, no call is live, and the
/// numbers begin at zero.
pub proof fn law_startup(r: Shell)
    requires
        call_ensures(Shell::new, (), r),
    ensures
        r@.order.len() == 1,
        r@.order[0] == "content"@,
        r@.active == "content"@,
        r@.voice.len() == 0,
        r@.settings.len() == 0,
        !r@.call_active,
        r@.counter == 0,
{
}

/// The shell tells its state as it is.
pub proof fn law_state_is_told(s: &Shell, active: &str, order: &Vec<String>, call: bool, i: int)
    requires
        call_ensures(Shell::active, (s,), active),
        call_ensures(Shell::order, (s,), order),
        call_ensures(Shell::is_call_active, (s,), call),
    ensures
        active@ == s@.active,
        order@.len() == s@.order.len(),
        0 <= i < order@.len() ==> order@[i]@ == s@.order[i],
        call == s@.call_active,
{
    assert(texts(order@).len() == order@.len());
    if 0 <= i < order@.len() {
        assert(texts(order@)[i] == order@[i]@);
    }
}

} // verus!
