//! The course of an update: what is done at each turn of the check for a new
//! version, and when the shell restarts.

use vstd::prelude::*;

verus! {

/// Title of the question whether to install an update.
pub const UPDATE_TITLE: &'static str = "Update available";

/// Label of the button that installs.
pub const INSTALL_BUTTON: &'static str = "Install";

/// Label of the button that does not.
pub const LATER_BUTTON: &'static str = "Later";

/// How far an update has come.
#[derive(Debug, Clone, Copy, PartialEq, Eq, Structural)]
pub enum UpdateFlow {
    /// The release feed is being asked.
    Checking,
    /// The user is being asked.
    Asking,
    /// The new version is being installed.
    Installing,
    /// Nothing more happens in this run.
    Finished,
}

/// What the updater or the user reports.
#[derive(Debug)]
pub enum UpdateEvent {
    /// The updater cannot be used, the feed cannot be read, or it holds nothing
    /// newer.
    NothingFound,
    /// This version is available.
    Found(String),
    /// The user's answer; `true` stands for installing.
    Answered(bool),
    /// The installation ended; `true` stands for success.
    Installed(bool),
}

/// What is to be done next.
#[derive(Debug)]
pub enum UpdateAction {
    /// Nothing, and nothing is shown.
    Wait,
    /// Put this question to the user.
    Ask(String),
    /// Download the new version and install it.
    Install,
    /// Restart into the new version.
    Restart,
}

/// The question for a version.
pub open spec fn question(version: Seq<char>) -> Seq<char> {
    "Vista Platform "@ + version + " is available. Install and restart now?"@
}

/// Writes the question for a version.
pub fn update_question(version: &str) -> (r: String)
    ensures
        r@ == question(version@),
{
    let mut text: String = "Vista Platform ".to_owned();
    text.append(version);
    text.append(" is available. Install and restart now?");
    text
}

impl UpdateFlow {
    /// The flow after `event`. A report that does not belong to the current turn
    /// changes nothing.
    pub open spec fn after(self, event: UpdateEvent) -> UpdateFlow {
        match (self, event) {
            (UpdateFlow::Checking, UpdateEvent::Found(_)) => UpdateFlow::Asking,
            (UpdateFlow::Checking, UpdateEvent::NothingFound) => UpdateFlow::Finished,
            (UpdateFlow::Asking, UpdateEvent::Answered(yes)) => if yes {
                UpdateFlow::Installing
            } else {
                UpdateFlow::Finished
            },
            (UpdateFlow::Installing, UpdateEvent::Installed(_)) => UpdateFlow::Finished,
            _ => self,
        }
    }

    /// The flow after all of `events`, from the start.
    pub open spec fn after_all(events: Seq<UpdateEvent>) -> UpdateFlow
        decreases events.len(),
    {
        if events.len() == 0 {
            UpdateFlow::Checking
        } else {
            UpdateFlow::after_all(events.drop_last()).after(events.last())
        }
    }

    /// `action` is what `event` calls for.
    pub open spec fn calls_for(self, event: UpdateEvent, action: UpdateAction) -> bool {
        match action {
            UpdateAction::Ask(text) => {
                &&& self == UpdateFlow::Checking
                &&& event matches UpdateEvent::Found(version)
                &&& text@ == question(version@)
            },
            UpdateAction::Install => {
                &&& self == UpdateFlow::Asking
                &&& event == UpdateEvent::Answered(true)
            },
            UpdateAction::Restart => {
                &&& self == UpdateFlow::Installing
                &&& event == UpdateEvent::Installed(true)
            },
            UpdateAction::Wait => {
                &&& !(self == UpdateFlow::Checking && event is Found)
                &&& !(self == UpdateFlow::Asking && event == UpdateEvent::Answered(true))
                &&& !(self == UpdateFlow::Installing && event == UpdateEvent::Installed(true))
            },
        }
    }

    /// Takes the flow past `event` and says what is to be done.
    pub fn advance(&mut self, event: UpdateEvent) -> (r: UpdateAction)
        ensures
            *final(self) == old(self).after(event),
            old(self).calls_for(event, r),
    {
        match (*self, event) {
            (UpdateFlow::Checking, UpdateEvent::Found(version)) => {
                *self = UpdateFlow::Asking;
                UpdateAction::Ask(update_question(version.as_str()))
            },
            (UpdateFlow::Checking, UpdateEvent::NothingFound) => {
                *self = UpdateFlow::Finished;
                UpdateAction::Wait
            },
            (UpdateFlow::Asking, UpdateEvent::Answered(yes)) => {
                if yes {
                    *self = UpdateFlow::Installing;
                    UpdateAction::Install
                } else {
                    *self = UpdateFlow::Finished;
                    UpdateAction::Wait
                }
            },
            (UpdateFlow::Installing, UpdateEvent::Installed(done)) => {
                *self = UpdateFlow::Finished;
                if done {
                    UpdateAction::Restart
                } else {
                    UpdateAction::Wait
                }
            },
            _ => UpdateAction::Wait,
        }
    }
}

/// Nothing is installed and nothing restarts unless the user agreed.
pub proof fn law_nothing_without_consent(events: Seq<UpdateEvent>)
    ensures
        UpdateFlow::after_all(events) == UpdateFlow::Installing ==> events.contains(
            UpdateEvent::Answered(true),
        ),
    decreases events.len(),
{
    if events.len() > 0 && UpdateFlow::after_all(events) == UpdateFlow::Installing {
        let init = events.drop_last();
        law_nothing_without_consent(init);
        if UpdateFlow::after_all(init) == UpdateFlow::Installing {
            let i = choose|i: int| 0 <= i < init.len() && init[i] == UpdateEvent::Answered(true);
            assert(events[i] == UpdateEvent::Answered(true));
        } else {
            assert(events[events.len() - 1] == UpdateEvent::Answered(true));
        }
    }
}

/// A restart follows only on an installation that succeeded after the user
/// agreed.
pub proof fn law_restart_follows_installation(
    events: Seq<UpdateEvent>,
    event: UpdateEvent,
    action: UpdateAction,
)
    requires
        UpdateFlow::after_all(events).calls_for(event, action),
        action is Restart,
    ensures
        event == UpdateEvent::Installed(true),
        events.contains(UpdateEvent::Answered(true)),
{
    law_nothing_without_consent(events);
}

/// A check that fails or finds nothing is silent, and ends the flow for good.
pub proof fn law_failed_check_is_silent(event: UpdateEvent, action: UpdateAction)
    requires
        UpdateFlow::Finished.calls_for(event, action) || UpdateFlow::Checking.calls_for(
            UpdateEvent::NothingFound,
            action,
        ),
    ensures
        action is Wait,
        UpdateFlow::Checking.after(UpdateEvent::NothingFound) == UpdateFlow::Finished,
        UpdateFlow::Finished.after(event) == UpdateFlow::Finished,
{
}

/// The question names the version that is offered, whatever it is, between two fixed
/// texts.
pub proof fn law_question_names_the_version(version: &str, r: String)
    requires
        call_ensures(update_question, (version,), r),
    ensures
        ({
            let head = "Vista Platform "@;
            let tail = " is available. Install and restart now?"@;
            &&& r@.len() == head.len() + version@.len() + tail.len()
            &&& head.is_prefix_of(r@)
            &&& tail.is_suffix_of(r@)
            &&& r@.subrange(head.len() as int, (head.len() + version@.len()) as int) == version@
        }),
{
    let head = "Vista Platform "@;
    let tail = " is available. Install and restart now?"@;
    let whole = head + version@ + tail;
    assert(whole.subrange(0, head.len() as int) =~= head);
    assert(whole.subrange(whole.len() - tail.len(), whole.len() as int) =~= tail);
    assert(whole.subrange(head.len() as int, (head.len() + version@.len()) as int) =~= version@);
}

/// Each turn of an update leads to one next turn and one action. A version that is found
/// is put to the user, a yes installs it, and a successful installation restarts; a check
/// that finds nothing, a no and the end of an installation end the flow. A report out of
/// turn changes nothing and calls for nothing.
pub proof fn law_each_report_has_its_turn(
    flow: &mut UpdateFlow,
    event: UpdateEvent,
    r: UpdateAction,
    version: &str,
    text: String,
)
    requires
        call_ensures(UpdateFlow::advance, (flow, event), r),
        call_ensures(update_question, (version,), text),
    ensures
        r is Ask <==> *old(flow) == UpdateFlow::Checking && event is Found,
        r matches UpdateAction::Ask(asked) ==> (event matches UpdateEvent::Found(found) && (found@
            == version@ ==> asked@ == text@)),
        r is Install <==> *old(flow) == UpdateFlow::Asking && event == UpdateEvent::Answered(true),
        r is Restart <==> *old(flow) == UpdateFlow::Installing && event == UpdateEvent::Installed(
            true,
        ),
        r is Ask <==> *final(flow) == UpdateFlow::Asking && *old(flow) != UpdateFlow::Asking,
        r is Install <==> *final(flow) == UpdateFlow::Installing && *old(flow)
            != UpdateFlow::Installing,
        *final(flow) == UpdateFlow::Finished && *old(flow) != UpdateFlow::Finished <==> {
            ||| *old(flow) == UpdateFlow::Checking && event is NothingFound
            ||| *old(flow) == UpdateFlow::Asking && event == UpdateEvent::Answered(false)
            ||| *old(flow) == UpdateFlow::Installing && event is Installed
        },
        *final(flow) == UpdateFlow::Checking ==> *old(flow) == UpdateFlow::Checking,
        *old(flow) == UpdateFlow::Finished ==> *final(flow) == UpdateFlow::Finished && r is Wait,
{
}

/// The two buttons under the question cannot be mistaken for each other.
pub proof fn law_buttons_differ()
    ensures
        UPDATE_TITLE@ == "Update available"@,
        INSTALL_BUTTON@ == "Install"@,
        LATER_BUTTON@ == "Later"@,
        INSTALL_BUTTON@ != LATER_BUTTON@,
{
    reveal_strlit("Install");
    reveal_strlit("Later");
    assert("Install"@.len() != "Later"@.len());
}

} // verus!
