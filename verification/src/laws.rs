//! What holds of the shell as a whole, whatever is asked of it.

use vstd::prelude::*;

use crate::model::{
    first_live, given_out, remove_all, remove_first, sleep_request, tab_label, within, Placement,
    ShellModel, SleepRequest, Teardown, WindowStatus, PLATFORM_TAB, RECONNECT_DELAY_MS,
    TEARDOWN_DELAY_MS, TITLE_BAR,
};
use crate::page::{is_settings_path, is_voice_path, law_voice_is_not_settings};
use crate::text::{decimal, lemma_decimal_injective};
use crate::window::LOGIN_WINDOW;

verus! {

/// What is left of a list without a label: all others, and no new repetition.
pub proof fn lemma_remove_all(list: Seq<Seq<char>>, label: Seq<char>)
    ensures
        forall|l: Seq<char>| #[trigger]
            remove_all(list, label).contains(l) <==> list.contains(l) && l != label,
        list.no_duplicates() ==> remove_all(list, label).no_duplicates(),
        !list.contains(label) ==> remove_all(list, label) == list,
        remove_all(list, label).len() <= list.len(),
    decreases list.len(),
{
    reveal(Seq::filter);
    if list.len() > 0 {
        let init = list.drop_last();
        let rest = remove_all(init, label);
        let out = remove_all(list, label);
        lemma_remove_all(init, label);
        assert(list =~= init.push(list.last()));
        assert forall|l: Seq<char>| #[trigger] out.contains(l) <==> list.contains(l) && l
            != label by {
            if list.contains(l) && l != label {
                if init.contains(l) {
                    assert(rest.contains(l));
                    let i = choose|i: int| 0 <= i < rest.len() && rest[i] == l;
                    assert(out[i] == l);
                } else {
                    let i = choose|i: int| 0 <= i < list.len() && list[i] == l;
                    if i < init.len() {
                        assert(init[i] == l);
                    }
                    assert(out.last() == l);
                }
            }
            if out.contains(l) {
                let i = choose|i: int| 0 <= i < out.len() && out[i] == l;
                if i < rest.len() {
                    assert(rest[i] == l);
                    assert(rest.contains(l));
                    assert(init.contains(l));
                    let j = choose|j: int| 0 <= j < init.len() && init[j] == l;
                    assert(list[j] == l);
                } else {
                    assert(list[list.len() - 1] == l);
                }
            }
        }
        if list.no_duplicates() {
            assert(init.no_duplicates());
            if list.last() != label {
                assert(!rest.contains(list.last())) by {
                    if rest.contains(list.last()) {
                        assert(init.contains(list.last()));
                        let j = choose|j: int| 0 <= j < init.len() && init[j] == list.last();
                        assert(list[j] == list[list.len() - 1]);
                    }
                }
                assert forall|i: int, j: int|
                    0 <= i < out.len() && 0 <= j < out.len() && i != j implies out[i] != out[j] by {
                    if i == rest.len() {
                        assert(rest.contains(rest[j]));
                    } else if j == rest.len() {
                        assert(rest.contains(rest[i]));
                    }
                }
            }
        }
        if !list.contains(label) {
            assert(!init.contains(label)) by {
                if init.contains(label) {
                    let j = choose|j: int| 0 <= j < init.len() && init[j] == label;
                    assert(list[j] == label);
                }
            }
            assert(list[list.len() - 1] != label);
            assert(out =~= list);
        }
    }
}

proof fn lemma_remove_first(list: Seq<Seq<char>>, label: Seq<char>)
    requires
        list.no_duplicates(),
    ensures
        forall|l: Seq<char>| #[trigger]
            remove_first(list, label).contains(l) <==> list.contains(l) && l != label,
        remove_first(list, label).no_duplicates(),
        !list.contains(label) ==> remove_first(list, label) == list,
{
    list.index_of_first_ensures(label);
    let out = remove_first(list, label);
    if list.contains(label) {
        let at = list.index_of_first(label)->0;
        assert forall|l: Seq<char>| #[trigger] out.contains(l) <==> list.contains(l) && l
            != label by {
            if list.contains(l) && l != label {
                let i = choose|i: int| 0 <= i < list.len() && list[i] == l;
                if i < at {
                    assert(out[i] == l);
                } else {
                    assert(out[i - 1] == l);
                }
            }
            if out.contains(l) {
                let i = choose|i: int| 0 <= i < out.len() && out[i] == l;
                if i < at {
                    assert(list[i] == l);
                } else {
                    assert(list[i + 1] == l);
                }
            }
        }
    }
}

/// The shell starts with lists that fit together, showing an open tab.
pub proof fn law_initial_shell()
    ensures
        ShellModel::initial().wf(),
        ShellModel::initial().shows_open_tab(),
        ShellModel::initial().labels_given_out(),
{
    let s = ShellModel::initial();
    assert(s.order[0] == s.active);
}

/// Closing keeps the lists fitting together, whatever label is given.
pub proof fn law_close_keeps_wf(s: ShellModel, label: Seq<char>, force: bool)
    requires
        s.wf(),
    ensures
        s.closed(label, force).wf(),
{
    if s.closes(label, force) {
        let rest = s.unlisted(label);
        lemma_remove_first(s.order, label);
        lemma_remove_all(s.voice, label);
        lemma_remove_all(s.settings, label);
        s.order.index_of_first_ensures(label);
        assert(s.order.contains(s.order[0]));
        assert(rest.order.contains(PLATFORM_TAB@));
        assert(rest.order[0] == PLATFORM_TAB@);
        assert(rest.wf());
    }
}

/// Bringing a tab to the front keeps the lists fitting together, and an open
/// tab shows afterwards where an open tab was asked for.
pub proof fn law_activate_keeps_wf(s: ShellModel, label: Seq<char>, window: WindowStatus)
    requires
        s.wf(),
    ensures
        s.activated(label, window).wf(),
        s.shows_open_tab() && s.order.contains(label) ==> s.activated(
            label,
            window,
        ).shows_open_tab(),
{
}

proof fn lemma_push_within(
    list: Seq<Seq<char>>,
    order: Seq<Seq<char>>,
    label: Seq<char>,
)
    requires
        within(list, order),
        !order.contains(label),
        label != PLATFORM_TAB@,
    ensures
        within(list, order.push(label)),
        within(list.push(label), order.push(label)),
        forall|l: Seq<char>| #[trigger]
            list.push(label).contains(l) ==> list.contains(l) || l == label,
        forall|l: Seq<char>| #[trigger]
            order.push(label).contains(l) <==> order.contains(l) || l == label,
{
    let longer = order.push(label);
    let more = list.push(label);
    assert forall|l: Seq<char>| #[trigger] longer.contains(l) <==> order.contains(l) || l
        == label by {
        if order.contains(l) {
            let i = choose|i: int| 0 <= i < order.len() && order[i] == l;
            assert(longer[i] == l);
        }
        if l == label {
            assert(longer[order.len() as int] == l);
        }
        if longer.contains(l) {
            let i = choose|i: int| 0 <= i < longer.len() && longer[i] == l;
            if i < order.len() {
                assert(order[i] == l);
            }
        }
    }
    assert forall|l: Seq<char>| #[trigger] more.contains(l) implies list.contains(l) || l
        == label by {
        let i = choose|i: int| 0 <= i < more.len() && more[i] == l;
        if i < list.len() {
            assert(list[i] == l);
        }
    }
    assert(!list.contains(label));
    assert forall|i: int, j: int|
        0 <= i < more.len() && 0 <= j < more.len() && i != j implies more[i] != more[j] by {
        if i == list.len() {
            assert(list.contains(list[j]));
        } else if j == list.len() {
            assert(list.contains(list[i]));
        }
    }
}

/// Adding a tab under a label that is not in use keeps the lists fitting
/// together, and an open tab shows afterwards.
pub proof fn law_add_keeps_wf(s: ShellModel, label: Seq<char>, path: Seq<char>)
    requires
        s.wf(),
        !s.order.contains(label),
    ensures
        s.added(label, path).wf(),
        s.shows_open_tab() ==> s.added(label, path).shows_open_tab(),
{
    assert(s.order.contains(s.order[0]));
    law_voice_is_not_settings(path);
    lemma_push_within(s.voice, s.order, label);
    lemma_push_within(s.settings, s.order, label);
    let t = s.added(label, path);
    assert(!s.voice.contains(label));
    assert(!s.settings.contains(label));
    assert forall|i: int, j: int|
        0 <= i < t.order.len() && 0 <= j < t.order.len() && i != j implies t.order[i]
        != t.order[j] by {
        if i == s.order.len() {
            assert(s.order.contains(s.order[j]));
        } else if j == s.order.len() {
            assert(s.order.contains(s.order[i]));
        }
    }
    assert(t.order.contains(label));
}

/// After a request to close, an open tab shows where one showed before, whatever
/// is known of the window.
pub proof fn law_close_shows_open_tab(s: ShellModel, label: Seq<char>, force: bool)
    requires
        s.wf(),
        s.shows_open_tab(),
    ensures
        s.closed(label, force).shows_open_tab(),
{
    lemma_remove_first(s.order, label);
    if s.closes(label, force) && s.active == label {
        law_close_keeps_wf(s, label, force);
        let rest = s.unlisted(label);
        assert(rest.order.len() > 0);
        s.order.index_of_first_ensures(label);
        assert(rest.order.contains(s.successor(label)));
    }
}

/// Different numbers make different labels, and none of them is the label of
/// the Platform tab, of the title bar or of the sign-in window.
pub proof fn law_labels_are_unique(a: u32, b: u32)
    ensures
        tab_label(a) == tab_label(b) ==> a == b,
        tab_label(a) != PLATFORM_TAB@,
        tab_label(a) != TITLE_BAR@,
        tab_label(a) != LOGIN_WINDOW@,
{
    reveal_strlit("tab-");
    reveal_strlit("content");
    reveal_strlit("title_bar");
    reveal_strlit("connect-login");
    assert(tab_label(a)[0] == 't');
    assert(tab_label(a)[1] == 'a');
    assert(TITLE_BAR@[1] == 'i');
    assert(PLATFORM_TAB@[0] == 'c');
    assert(LOGIN_WINDOW@[0] == 'c');
    if tab_label(a) == tab_label(b) {
        assert(tab_label(a).skip(4) =~= decimal(a as nat));
        assert(tab_label(b).skip(4) =~= decimal(b as nat));
        lemma_decimal_injective(a as nat, b as nat);
    }
}

/// The label that the next tab gets is not in use.
pub proof fn law_next_label_is_free(s: ShellModel)
    requires
        s.wf(),
        s.labels_given_out(),
    ensures
        !s.order.contains(tab_label(s.counter)),
{
    if s.order.contains(tab_label(s.counter)) {
        let i = choose|i: int| 0 <= i < s.order.len() && s.order[i] == tab_label(s.counter);
        law_labels_are_unique(s.counter, s.counter);
        let n = choose|n: u32| n < s.counter && s.order[i] == #[trigger] tab_label(n);
        law_labels_are_unique(s.counter, n);
    }
}

/// Giving out a label, and opening a tab under it, keeps every open tab under a
/// label that was given out before, as long as the numbers last.
pub proof fn law_open_keeps_labels(s: ShellModel, path: Seq<char>)
    requires
        s.wf(),
        s.labels_given_out(),
        s.counter < u32::MAX,
    ensures
        s.numbered_on().wf(),
        s.numbered_on().labels_given_out(),
        s.numbered_on().added(tab_label(s.counter), path).wf(),
        s.numbered_on().added(tab_label(s.counter), path).labels_given_out(),
{
    let label = tab_label(s.counter);
    law_next_label_is_free(s);
    law_add_keeps_wf(s.numbered_on(), label, path);
    let t = s.numbered_on().added(label, path);
    assert forall|i: int| 1 <= i < s.order.len() implies given_out(
        #[trigger] s.order[i],
        t.counter,
    ) by {
        let n = choose|n: u32| n < s.counter && s.order[i] == #[trigger] tab_label(n);
        assert(n < t.counter && s.order[i] == tab_label(n));
    }
    assert forall|i: int| 1 <= i < t.order.len() implies given_out(
        #[trigger] t.order[i],
        t.counter,
    ) by {
        if i < s.order.len() {
            assert(t.order[i] == s.order[i]);
            let n = choose|n: u32| n < s.counter && s.order[i] == #[trigger] tab_label(n);
            assert(n < t.counter && t.order[i] == tab_label(n));
        } else {
            assert(s.counter < t.counter && t.order[i] == tab_label(s.counter));
        }
    }
}

/// Closing leaves every remaining tab the label that it was given.
pub proof fn law_close_keeps_labels(s: ShellModel, label: Seq<char>, force: bool)
    requires
        s.wf(),
        s.labels_given_out(),
    ensures
        s.closed(label, force).labels_given_out(),
{
    let t = s.closed(label, force);
    s.order.index_of_first_ensures(label);
    assert forall|i: int| 1 <= i < t.order.len() implies given_out(
        #[trigger] t.order[i],
        t.counter,
    ) by {
        let at = s.order.index_of_first(label);
        let j = if s.closes(label, force) && at is Some && at->0 <= i {
            i + 1
        } else {
            i
        };
        assert(t.order[i] == s.order[j]);
        let n = choose|n: u32| n < s.counter && s.order[j] == #[trigger] tab_label(n);
        assert(n < t.counter && t.order[i] == tab_label(n));
    }
}

/// The Platform tab cannot be closed, not even by insisting.
pub proof fn law_platform_tab_stays(s: ShellModel, force: bool)
    ensures
        s.closed(PLATFORM_TAB@, force) == s,
{
}

/// During a call the Phone tab does not close unless the user insists, and the
/// refusal changes nothing.
pub proof fn law_call_keeps_phone_tab(s: ShellModel, label: Seq<char>)
    requires
        s.wf(),
        s.voice.contains(label),
        s.call_active,
    ensures
        s.close_blocked(label, false),
        s.closed(label, false) == s,
{
}

/// A close is refused only for a Phone tab, only during a call, and never where
/// the user insists.
pub proof fn law_only_calls_block(s: ShellModel, label: Seq<char>, force: bool)
    requires
        s.close_blocked(label, force),
    ensures
        s.voice.contains(label),
        s.call_active,
        !force,
{
}

/// A closed tab is gone from every list and no longer shows, and every other tab
/// is kept.
pub proof fn law_closed_tab_is_gone(
    s: ShellModel,
    label: Seq<char>,
    force: bool,
    other: Seq<char>,
)
    requires
        s.wf(),
        s.closes(label, force),
    ensures
        ({
            let t = s.closed(label, force);
            &&& t.active != label
            &&& !t.order.contains(label)
            &&& !t.voice.contains(label)
            &&& !t.settings.contains(label)
            &&& other != label ==> t.order.contains(other) == s.order.contains(other)
            &&& other != label ==> t.voice.contains(other) == s.voice.contains(other)
            &&& other != label ==> t.settings.contains(other) == s.settings.contains(other)
        }),
{
    lemma_remove_first(s.order, label);
    lemma_remove_all(s.voice, label);
    lemma_remove_all(s.settings, label);
    let t = s.closed(label, force);
    assert(t.order == remove_first(s.order, label));
    assert(t.voice == remove_all(s.voice, label));
    assert(t.settings == remove_all(s.settings, label));
    assert(!t.order.contains(label) && !t.voice.contains(label) && !t.settings.contains(label));
    law_close_keeps_wf(s, label, force);
    s.order.index_of_first_ensures(label);
    assert(t.order.contains(s.successor(label)));
    assert(other != label ==> t.order.contains(other) == s.order.contains(other));
    assert(other != label ==> t.voice.contains(other) == s.voice.contains(other));
    assert(other != label ==> t.settings.contains(other) == s.settings.contains(other));
}

/// Closing the tab that shows, the one at position `i`, brings a neighbor to the
/// front: the tab to its right, or the one to its left where it stood last. Closing
/// any other label leaves the tab that shows in place.
pub proof fn law_close_falls_back(s: ShellModel, label: Seq<char>, force: bool, i: int)
    requires
        s.wf(),
        s.closes(label, force),
    ensures
        ({
            let t = s.closed(label, force);
            &&& s.active != label ==> t.active == s.active
            &&& s.active == label && 0 <= i < s.order.len() && s.order[i] == label ==> {
                &&& i >= 1
                &&& t.active == (if i + 1 < s.order.len() {
                    s.order[i + 1]
                } else {
                    s.order[i - 1]
                })
            }
            &&& s.active == label && !s.order.contains(label) ==> t.active == s.order.last()
        }),
{
    s.order.index_of_first_ensures(label);
    if 0 <= i < s.order.len() && s.order[i] == label {
        assert(s.order.contains(label));
        assert(s.order.index_of_first(label) == Some(i));
    }
}

/// A call ends with the tab that hosts it and with no other: a stale flag can
/// never keep tabs open for good.
pub proof fn law_call_ends_with_its_tab(s: ShellModel, label: Seq<char>, force: bool)
    requires
        s.closes(label, force),
    ensures
        s.voice.contains(label) ==> !s.closed(label, force).call_active,
        !s.voice.contains(label) ==> s.closed(label, force).call_active == s.call_active,
{
}

/// Closing a tab undoes opening it: the lists are what they were, and so is the
/// call unless the tab hosted the softphone. Its left neighbor shows, the last tab
/// of the list.
pub proof fn law_close_undoes_open(s: ShellModel, label: Seq<char>, path: Seq<char>)
    requires
        s.wf(),
        !s.order.contains(label),
    ensures
        ({
            let t = s.added(label, path).closed(label, true);
            t == (ShellModel {
                active: s.order.last(),
                call_active: s.call_active && !is_voice_path(path),
                ..s
            })
        }),
{
    let a = s.added(label, path);
    assert(s.order.contains(s.order[0]));
    assert(label != PLATFORM_TAB@);
    a.order.index_of_first_ensures(label);
    assert(a.order[s.order.len() as int] == label);
    assert(a.order.contains(label));
    let at = a.order.index_of_first(label)->0;
    assert(at == s.order.len()) by {
        if at < s.order.len() {
            assert(s.order[at] == label);
        }
    }
    assert(a.order.remove(at) =~= s.order);
    assert(!s.voice.contains(label));
    assert(!s.settings.contains(label));
    lemma_remove_all(s.voice, label);
    lemma_remove_all(s.settings, label);
    lemma_remove_pushed(s.voice, label);
    lemma_remove_pushed(s.settings, label);
    if is_voice_path(path) {
        assert(a.voice[s.voice.len() as int] == label);
    }
}

proof fn lemma_remove_pushed(list: Seq<Seq<char>>, label: Seq<char>)
    ensures
        remove_all(list.push(label), label) == remove_all(list, label),
{
    reveal(Seq::filter);
    assert(list.push(label).drop_last() =~= list);
}

proof fn lemma_first_live(labels: Seq<Seq<char>>, live: Seq<Seq<char>>)
    ensures
        match first_live(labels, live) {
            Some(l) => labels.contains(l) && live.contains(l),
            None => forall|l: Seq<char>| #[trigger] labels.contains(l) ==> !live.contains(l),
        },
    decreases labels.len(),
{
    if labels.len() > 0 {
        let rest = labels.skip(1);
        lemma_first_live(rest, live);
        match first_live(labels, live) {
            Some(l) => {
                if live.contains(labels[0]) {
                    assert(labels.contains(labels[0]));
                } else {
                    let i = choose|i: int| 0 <= i < rest.len() && rest[i] == l;
                    assert(labels[i + 1] == l);
                }
            },
            None => {
                assert forall|l: Seq<char>| #[trigger] labels.contains(l) implies !live.contains(
                    l,
                ) by {
                    let i = choose|i: int| 0 <= i < labels.len() && labels[i] == l;
                    if i > 0 {
                        assert(rest[i - 1] == l);
                        assert(rest.contains(l));
                    }
                }
            },
        }
    }
}

/// Asking again for a Phone or Phone settings tab whose webview is alive finds
/// an open tab of that kind, and a page of any other kind is never found.
pub proof fn law_existing_tab_is_found(
    s: ShellModel,
    path: Seq<char>,
    live: Seq<Seq<char>>,
    label: Seq<char>,
)
    ensures
        s.same_kind(path).contains(label) && live.contains(label) ==> s.existing(
            path,
            live,
        ) is Some,
        s.existing(path, live) matches Some(l) ==> s.same_kind(path).contains(l) && live.contains(
            l,
        ),
        !is_voice_path(path) && !is_settings_path(path) ==> s.existing(path, live) is None,
{
    lemma_first_live(s.same_kind(path), live);
}

/// There is never a second Phone tab, nor a second Phone settings tab: a new
/// one is opened only where there is none.
pub proof fn law_special_tabs_stay_single(s: ShellModel, path: Seq<char>, live: Seq<Seq<char>>)
    requires
        s.singletons(live),
        s.existing(path, live) is None,
    ensures
        ({
            let label = tab_label(s.counter);
            s.numbered_on().added(label, path).singletons(live.push(label))
        }),
{
    let label = tab_label(s.counter);
    let t = s.numbered_on().added(label, path);
    let more = live.push(label);
    law_voice_is_not_settings(path);
    lemma_first_live(s.same_kind(path), live);
    assert forall|l: Seq<char>| live.contains(l) || l == label implies #[trigger] more.contains(
        l,
    ) by {
        if l == label {
            assert(more[live.len() as int] == l);
        } else {
            let i = choose|i: int| 0 <= i < live.len() && live[i] == l;
            assert(more[i] == l);
        }
    }
    if is_voice_path(path) && s.voice.len() > 0 {
        assert(s.voice.contains(s.voice[0]));
    }
    if is_settings_path(path) && s.settings.len() > 0 {
        assert(s.settings.contains(s.settings[0]));
    }
    assert forall|l: Seq<char>| #[trigger] t.voice.contains(l) implies more.contains(l) by {
        let i = choose|i: int| 0 <= i < t.voice.len() && t.voice[i] == l;
        if i < s.voice.len() {
            assert(s.voice[i] == l);
            assert(s.voice.contains(l));
        }
    }
    assert forall|l: Seq<char>| #[trigger] t.settings.contains(l) implies more.contains(l) by {
        let i = choose|i: int| 0 <= i < t.settings.len() && t.settings[i] == l;
        if i < s.settings.len() {
            assert(s.settings[i] == l);
            assert(s.settings.contains(l));
        }
    }
}

/// Closing a tab keeps the special tabs single, also once its webview is gone.
pub proof fn law_close_keeps_special_tabs_single(
    s: ShellModel,
    label: Seq<char>,
    force: bool,
    live: Seq<Seq<char>>,
)
    requires
        s.singletons(live),
        s.closes(label, force),
    ensures
        s.closed(label, force).singletons(remove_all(live, label)),
{
    lemma_remove_all(s.voice, label);
    lemma_remove_all(s.settings, label);
    lemma_remove_all(live, label);
    let t = s.closed(label, force);
    let left = remove_all(live, label);
    assert forall|l: Seq<char>| #[trigger] t.voice.contains(l) implies left.contains(l) by {
        assert(remove_all(s.voice, label).contains(l));
        assert(s.voice.contains(l));
    }
    assert forall|l: Seq<char>| #[trigger] t.settings.contains(l) implies left.contains(l) by {
        assert(remove_all(s.settings, label).contains(l));
        assert(s.settings.contains(l));
    }
}

/// A reconnect replaces the Phone tab: once it was closed, the softphone page
/// is found in no tab, even while the old webview lives on, and so it opens in
/// a new one.
pub proof fn law_reconnect_makes_room(s: ShellModel, path: Seq<char>, live: Seq<Seq<char>>)
    requires
        s.wf(),
        s.voice.len() == 1,
        is_voice_path(path),
    ensures
        s.closes(s.voice[0], true),
        s.closed(s.voice[0], true).existing(path, live) is None,
{
    let label = s.voice[0];
    assert(s.voice.contains(label));
    law_voice_is_not_settings(path);
    lemma_remove_all(s.voice, label);
    let t = s.closed(label, true);
    assert(t.voice == remove_all(s.voice, label));
    if t.voice.len() > 0 {
        assert(t.voice.contains(t.voice[0]));
        assert(s.voice.contains(t.voice[0]));
    }
}

/// A softphone page has 700 ms to end its session, and the replacement of a Phone tab
/// opens 900 ms after the close: after the old webview is gone.
pub proof fn law_reconnect_waits_for_teardown()
    ensures
        TEARDOWN_DELAY_MS == 700,
        RECONNECT_DELAY_MS == 900,
        TEARDOWN_DELAY_MS < RECONNECT_DELAY_MS,
{
}

/// When an open tab comes to the front, every open tab is placed, and that tab
/// alone is in the foreground.
pub proof fn law_one_tab_in_front(s: ShellModel, front: Seq<char>, i: int)
    requires
        s.wf(),
        s.order.contains(front),
        0 <= i < s.order.len(),
    ensures
        s.layout(front, WindowStatus::Ready).len() == s.order.len(),
        s.layout(front, WindowStatus::Ready)[i].0 == s.order[i],
        s.layout(front, WindowStatus::Ready)[i].1 == Placement::Foreground <==> s.order[i]
            == front,
        exists|k: int|
            0 <= k < s.order.len() && #[trigger] s.layout(front, WindowStatus::Ready)[k].1
                == Placement::Foreground && forall|j: int|
                0 <= j < s.order.len() && j != k ==> (#[trigger] s.layout(
                    front,
                    WindowStatus::Ready,
                )[j]).1 != Placement::Foreground,
{
    let k = choose|k: int| 0 <= k < s.order.len() && s.order[k] == front;
    let placed = s.layout(front, WindowStatus::Ready);
    assert(placed[k].1 == Placement::Foreground);
    assert forall|j: int| 0 <= j < s.order.len() && j != k implies (#[trigger] placed[j]).1
        != Placement::Foreground by {
        assert(s.order[j] != s.order[k]);
    }
}

/// A tab that hosts the softphone is never hidden, so that the audio of a call
/// keeps flowing; every other tab in the background is.
pub proof fn law_phone_tab_is_never_hidden(
    s: ShellModel,
    front: Seq<char>,
    window: WindowStatus,
    i: int,
)
    requires
        0 <= i < s.layout(front, window).len(),
    ensures
        ({
            let (label, placement) = s.layout(front, window)[i];
            &&& s.voice.contains(label) ==> placement != Placement::Hidden
            &&& !s.voice.contains(label) && label != front ==> placement == Placement::Hidden
        }),
{
}

/// A request that changes the state of the shell.
pub enum Request {
    /// Bring an open tab to the front.
    Show(Seq<char>, WindowStatus),
    /// Open the page at `path`, while the webviews `live` exist; `created` tells
    /// whether a webview that this calls for can be created.
    Open { path: Seq<char>, live: Seq<Seq<char>>, created: bool, window: WindowStatus },
    /// Close a tab, insisting or not.
    Close(Seq<char>, bool),
    /// Record whether a call is live.
    Call(bool),
}

/// The state after `request`.
pub open spec fn after(s: ShellModel, request: Request) -> ShellModel {
    match request {
        Request::Show(label, window) => s.activated(label, window),
        Request::Open { path, live, created, window } => if window == WindowStatus::Missing {
            s
        } else {
            match s.existing(path, live) {
                Some(label) => s.showing(label),
                None => if created {
                    s.numbered_on().added(tab_label(s.counter), path)
                } else {
                    s.numbered_on()
                },
            }
        },
        Request::Close(label, force) => s.closed(label, force),
        Request::Call(active) => s.with_call(active),
    }
}

/// The request shows an open tab, or does not start the labels over.
pub open spec fn fits(s: ShellModel, request: Request) -> bool {
    match request {
        Request::Show(label, _) => s.order.contains(label),
        Request::Open { .. } => s.counter < u32::MAX,
        _ => true,
    }
}

/// The state after `requests`, from startup.
pub open spec fn after_all(requests: Seq<Request>) -> ShellModel
    decreases requests.len(),
{
    if requests.len() == 0 {
        ShellModel::initial()
    } else {
        after(after_all(requests.drop_last()), requests.last())
    }
}

/// Each of `requests` fits the state in which it is made.
pub open spec fn all_fit(requests: Seq<Request>) -> bool
    decreases requests.len(),
{
    requests.len() > 0 ==> all_fit(requests.drop_last()) && fits(
        after_all(requests.drop_last()),
        requests.last(),
    )
}

/// Whatever is asked of the shell, and whatever is known of its window: the
/// Platform tab stands first, no label is used twice, the special tabs are open
/// tabs, an open tab shows, and the next label is free.
pub proof fn law_shell_stays_sound(requests: Seq<Request>)
    requires
        all_fit(requests),
    ensures
        after_all(requests).wf(),
        after_all(requests).shows_open_tab(),
        after_all(requests).labels_given_out(),
        !after_all(requests).order.contains(tab_label(after_all(requests).counter)),
    decreases requests.len(),
{
    if requests.len() == 0 {
        law_initial_shell();
    } else {
        law_shell_stays_sound(requests.drop_last());
        let s = after_all(requests.drop_last());
        match requests.last() {
            Request::Show(label, window) => {
                law_activate_keeps_wf(s, label, window);
            },
            Request::Open { path, live, created, window } => {
                lemma_first_live(s.same_kind(path), live);
                law_open_keeps_labels(s, path);
                law_add_keeps_wf(s.numbered_on(), tab_label(s.counter), path);
            },
            Request::Close(label, force) => {
                law_close_keeps_wf(s, label, force);
                law_close_shows_open_tab(s, label, force);
                law_close_keeps_labels(s, label, force);
            },
            Request::Call(active) => {},
        }
    }
    law_next_label_is_free(after_all(requests));
}

/// The tab that is recorded as the one that shows is the one that is brought to
/// the front: after closing the tab that showed, and after adding a tab.
pub proof fn law_recorded_tab_is_in_front(
    s: ShellModel,
    label: Seq<char>,
    path: Seq<char>,
    force: bool,
    i: int,
)
    ensures
        ({
            let placed = s.close_layout(label, WindowStatus::Ready);
            s.closes(label, force) && 0 <= i < placed.len() ==> (placed[i].1
                == Placement::Foreground <==> placed[i].0 == s.closed(label, force).active)
        }),
        ({
            let placed = s.listed(label, path).layout(label, WindowStatus::Ready);
            0 <= i < placed.len() ==> (placed[i].1 == Placement::Foreground <==> placed[i].0
                == s.added(label, path).active)
        }),
{
}

/// The machine is kept awake during a call and only then: a report on the call
/// asks for what fits it, closing a Phone tab asks for release and ends the
/// call, and closing any other tab leaves the call as it is.
pub proof fn law_sleep_follows_call(
    s: ShellModel,
    active: bool,
    label: Seq<char>,
    force: bool,
)
    ensures
        sleep_request(active) == SleepRequest::Hold <==> s.with_call(active).call_active,
        s.closes(label, force) && s.teardown(label) == Teardown::Terminate ==> sleep_request(
            s.closed(label, force).call_active,
        ) == SleepRequest::Release,
        s.teardown(label) == Teardown::Immediate ==> s.closed(label, force).call_active
            == s.call_active,
{
}

} // verus!
