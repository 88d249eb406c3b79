//! The shell as a state machine over plain values: which tabs are open, which
//! one shows, whether a call is live, and how each request changes that.

use vstd::prelude::*;

use crate::page::{is_settings_path, is_voice_path};
use crate::text::decimal;

verus! {

/// Label of the first tab, the live Platform app. It cannot be closed.
pub const PLATFORM_TAB: &'static str = "content";

/// Label of the webview that draws the title bar.
pub const TITLE_BAR: &'static str = "title_bar";

/// What is known of the main window when a request is handled.
#[derive(Debug, Clone, Copy, PartialEq, Eq, Structural)]
pub enum WindowStatus {
    /// There is no main window.
    Missing,
    /// There is one, but its size cannot be read.
    Unsized,
    /// There is one of a known size.
    Ready,
}

/// Where a webview belongs.
#[derive(Debug, Clone, Copy, PartialEq, Eq, Structural)]
pub enum Placement {
    /// Moved to the content area, sized to fill it, and shown.
    Foreground,
    /// Shown, but moved off-screen: it keeps compositing and its audio keeps
    /// flowing, which a hidden webview does not guarantee.
    Parked,
    /// Hidden; its page stays loaded.
    Hidden,
    /// Moved to the content area and sized to fill it, shown or not.
    Fitted,
    /// Sized to the title bar.
    TitleBar,
}

/// How a closed tab's webview goes away.
#[derive(Debug, Clone, Copy, PartialEq, Eq, Structural)]
pub enum Teardown {
    /// At once.
    Immediate,
    /// The page first ends its softphone session; the webview follows after
    /// `TEARDOWN_DELAY_MS`.
    Terminate,
}

/// A request to the system's power management.
#[derive(Debug, Clone, Copy, PartialEq, Eq, Structural)]
pub enum SleepRequest {
    /// Keep the machine awake.
    Hold,
    /// Let it sleep as usual.
    Release,
}

/// Time given to a softphone page to end its session before its webview goes.
pub const TEARDOWN_DELAY_MS: u64 = 700;

/// Time between closing a wedged Phone tab and opening its replacement.
pub const RECONNECT_DELAY_MS: u64 = 900;

/// The label of the `n`th tab that was opened.
pub open spec fn tab_label(n: u32) -> Seq<char> {
    "tab-"@ + decimal(n as nat)
}

/// `label` has a number below `counter`.
pub open spec fn given_out(label: Seq<char>, counter: u32) -> bool {
    exists|n: u32| n < counter && label == #[trigger] tab_label(n)
}

/// The state of the shell.
#[verifier::ext_equal]
pub struct ShellModel {
    /// Labels of the open tabs, from left to right.
    pub order: Seq<Seq<char>>,
    /// Label of the tab that shows.
    pub active: Seq<char>,
    /// Labels of the tabs that host the softphone page.
    pub voice: Seq<Seq<char>>,
    /// Labels of the tabs that host the softphone's settings.
    pub settings: Seq<Seq<char>>,
    /// Whether a call is live.
    pub call_active: bool,
    /// Number of the next tab's label.
    pub counter: u32,
}

/// `list` without the first occurrence of `label`.
pub open spec fn remove_first(list: Seq<Seq<char>>, label: Seq<char>) -> Seq<Seq<char>> {
    match list.index_of_first(label) {
        Some(i) => list.remove(i),
        None => list,
    }
}

/// `list` without any occurrence of `label`.
pub open spec fn remove_all(list: Seq<Seq<char>>, label: Seq<char>) -> Seq<Seq<char>> {
    list.filter(|l: Seq<char>| l != label)
}

/// The first of `labels` whose webview is alive.
pub open spec fn first_live(labels: Seq<Seq<char>>, live: Seq<Seq<char>>) -> Option<Seq<char>>
    decreases labels.len(),
{
    if labels.len() == 0 {
        None
    } else if live.contains(labels[0]) {
        Some(labels[0])
    } else {
        first_live(labels.skip(1), live)
    }
}

/// The number after `n`, starting over behind the largest one.
pub open spec fn next_number(n: u32) -> u32 {
    if n == u32::MAX {
        0
    } else {
        (n + 1) as u32
    }
}

/// `list` names distinct tabs out of `order`, the Platform tab not among them.
pub open spec fn within(list: Seq<Seq<char>>, order: Seq<Seq<char>>) -> bool {
    &&& list.no_duplicates()
    &&& forall|l: Seq<char>| #[trigger] list.contains(l) ==> order.contains(l) && l != PLATFORM_TAB@
}

impl ShellModel {
    /// The lists of tabs fit together: the Platform tab stands first, no label
    /// occurs twice, and the special tabs are open tabs of one kind each.
    pub open spec fn wf(self) -> bool {
        &&& self.order.len() > 0
        &&& self.order[0] == PLATFORM_TAB@
        &&& self.order.no_duplicates()
        &&& within(self.voice, self.order)
        &&& within(self.settings, self.order)
        &&& forall|l: Seq<char>| #[trigger]
            self.voice.contains(l) ==> !self.settings.contains(l)
    }

    /// The tab that shows is an open tab.
    pub open spec fn shows_open_tab(self) -> bool {
        self.order.contains(self.active)
    }

    /// Every open tab but the first has a label that was given out before.
    pub open spec fn labels_given_out(self) -> bool {
        forall|i: int|
            1 <= i < self.order.len() ==> given_out(#[trigger] self.order[i], self.counter)
    }

    /// There is at most one Phone tab and at most one Phone settings tab, and
    /// their webviews are alive.
    pub open spec fn singletons(self, live: Seq<Seq<char>>) -> bool {
        &&& self.voice.len() <= 1
        &&& self.settings.len() <= 1
        &&& forall|l: Seq<char>| #[trigger] self.voice.contains(l) ==> live.contains(l)
        &&& forall|l: Seq<char>| #[trigger] self.settings.contains(l) ==> live.contains(l)
    }

    /// The shell at startup: the Platform tab alone, no call.
    pub open spec fn initial() -> ShellModel {
        ShellModel {
            order: seq![PLATFORM_TAB@],
            active: PLATFORM_TAB@,
            voice: Seq::empty(),
            settings: Seq::empty(),
            call_active: false,
            counter: 0,
        }
    }

    /// Where the webview `label` goes when `front` comes to the front.
    pub open spec fn placement(self, label: Seq<char>, front: Seq<char>) -> Placement {
        if label == front {
            Placement::Foreground
        } else if self.voice.contains(label) {
            Placement::Parked
        } else {
            Placement::Hidden
        }
    }

    /// The placements that bring `front` to the front, one for each open tab.
    /// Nothing moves in a window that is missing or of unknown size.
    pub open spec fn layout(self, front: Seq<char>, window: WindowStatus) -> Seq<
        (Seq<char>, Placement),
    > {
        if window == WindowStatus::Ready {
            self.order.map_values(|l: Seq<char>| (l, self.placement(l, front)))
        } else {
            Seq::empty()
        }
    }

    /// The state in which `front` is recorded as the tab that shows.
    pub open spec fn showing(self, front: Seq<char>) -> ShellModel {
        ShellModel { active: front, ..self }
    }

    /// The state once `front` was asked for. In a window that is missing or of
    /// unknown size the tab that shows stays.
    pub open spec fn activated(self, front: Seq<char>, window: WindowStatus) -> ShellModel {
        if window == WindowStatus::Ready {
            self.showing(front)
        } else {
            self
        }
    }

    /// The placements that follow a change of the window's size.
    pub open spec fn relaid(self, window: WindowStatus) -> Seq<(Seq<char>, Placement)> {
        if window == WindowStatus::Ready {
            seq![(TITLE_BAR@, Placement::TitleBar), (self.active, Placement::Fitted)]
        } else {
            Seq::empty()
        }
    }

    /// The tabs of which there is to be one only, where `path` leads to such.
    pub open spec fn same_kind(self, path: Seq<char>) -> Seq<Seq<char>> {
        if is_settings_path(path) {
            self.settings
        } else if is_voice_path(path) {
            self.voice
        } else {
            Seq::empty()
        }
    }

    /// The tab that already shows the kind of page at `path`, where there may be
    /// only one of the kind.
    pub open spec fn existing(self, path: Seq<char>, live: Seq<Seq<char>>) -> Option<Seq<char>> {
        first_live(self.same_kind(path), live)
    }

    /// The state once the label of the next tab was given out.
    pub open spec fn numbered_on(self) -> ShellModel {
        ShellModel { counter: next_number(self.counter), ..self }
    }

    /// The state once the tab `label` with the page at `path` was listed.
    pub open spec fn listed(self, label: Seq<char>, path: Seq<char>) -> ShellModel {
        ShellModel {
            order: self.order.push(label),
            voice: if is_voice_path(path) {
                self.voice.push(label)
            } else {
                self.voice
            },
            settings: if is_settings_path(path) {
                self.settings.push(label)
            } else {
                self.settings
            },
            ..self
        }
    }

    /// The state once the tab `label` was added, which shows from then on.
    pub open spec fn added(self, label: Seq<char>, path: Seq<char>) -> ShellModel {
        self.listed(label, path).showing(label)
    }

    /// Closing `label` is refused: it hosts the softphone during a call, and the
    /// user has not insisted.
    pub open spec fn close_blocked(self, label: Seq<char>, force: bool) -> bool {
        label != PLATFORM_TAB@ && self.voice.contains(label) && !force && self.call_active
    }

    /// Closing `label` goes ahead.
    pub open spec fn closes(self, label: Seq<char>, force: bool) -> bool {
        label != PLATFORM_TAB@ && !self.close_blocked(label, force)
    }

    /// The state once `label` was taken off the lists. A call ends with the tab
    /// that hosts it.
    pub open spec fn unlisted(self, label: Seq<char>) -> ShellModel {
        ShellModel {
            order: remove_first(self.order, label),
            voice: remove_all(self.voice, label),
            settings: remove_all(self.settings, label),
            call_active: self.call_active && !self.voice.contains(label),
            ..self
        }
    }

    /// The tab that takes over when `label`, which shows, is closed: its right
    /// neighbor, or the left one where it stands last. For a label that is not
    /// open it is the last tab, and the Platform tab where none is open.
    pub open spec fn successor(self, label: Seq<char>) -> Seq<char> {
        let rest = self.unlisted(label).order;
        match self.order.index_of_first(label) {
            Some(i) if i < rest.len() => rest[i],
            _ => if rest.len() > 0 {
                rest.last()
            } else {
                PLATFORM_TAB@
            },
        }
    }

    /// The state after a request to close `label`. Where that tab showed, a
    /// neighbor takes over, whatever is known of the window.
    pub open spec fn closed(self, label: Seq<char>, force: bool) -> ShellModel {
        if !self.closes(label, force) {
            self
        } else if self.active == label {
            self.unlisted(label).showing(self.successor(label))
        } else {
            self.unlisted(label)
        }
    }

    /// The placements that follow the closing of `label`.
    pub open spec fn close_layout(self, label: Seq<char>, window: WindowStatus) -> Seq<
        (Seq<char>, Placement),
    > {
        if self.active == label {
            self.unlisted(label).layout(self.successor(label), window)
        } else {
            Seq::empty()
        }
    }

    /// How the webview of `label` goes away.
    pub open spec fn teardown(self, label: Seq<char>) -> Teardown {
        if self.voice.contains(label) {
            Teardown::Terminate
        } else {
            Teardown::Immediate
        }
    }

    /// The state once the softphone page reported on its call.
    pub open spec fn with_call(self, active: bool) -> ShellModel {
        ShellModel { call_active: active, ..self }
    }
}

/// The power request that goes with the state of the call.
pub open spec fn sleep_request(active: bool) -> SleepRequest {
    if active {
        SleepRequest::Hold
    } else {
        SleepRequest::Release
    }
}

} // verus!
