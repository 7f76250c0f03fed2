//! The system tray: what it offers, and what each of its events leads to.
//!
//! The host toolkit owns the windows and the process, so nothing here touches
//! them. An event is answered with a `Step` for the host to carry out; the
//! host reports whether the step succeeded and is given the next one, until a
//! step says that the event is dealt with.

use vstd::prelude::*;
use vstd::string::StringExecFns;
use crate::menu::{MenuEntryView, MenuSpec, MenuView};

verus! {

/// An interaction with the tray icon, as far as the shell tells them apart.
#[derive(Debug, PartialEq, Eq)]
pub enum TrayEvent {
    /// The icon was clicked with the left button.
    LeftClick,
    /// An item of the tray's menu was chosen.
    MenuItemClick { id: String },
    /// Anything else the host may report.
    Other,
}

/// What a `TrayEvent` stands for.
pub ghost enum TrayEventView {
    LeftClick,
    MenuItemClick { id: Seq<char> },
    Other,
}

impl View for TrayEvent {
    type V = TrayEventView;

    open spec fn view(&self) -> TrayEventView {
        match self {
            TrayEvent::LeftClick => TrayEventView::LeftClick,
            TrayEvent::MenuItemClick { id } => TrayEventView::MenuItemClick { id: id@ },
            TrayEvent::Other => TrayEventView::Other,
        }
    }
}

/// What the host is to do next while an event is being handled.
#[derive(Debug, PartialEq, Eq)]
pub enum Step {
    /// Look up the window called `label`; it succeeds if the window exists.
    FindWindow { label: String },
    /// Bring the window called `label` back from its minimized state.
    Unminimize { label: String },
    /// Give the window called `label` the input focus.
    SetFocus { label: String },
    /// End the process at once with this exit code, without any cleanup.
    Exit { code: i32 },
    /// Give up: something the shell relies on does not hold, and there is no
    /// recovery.
    Abort,
    /// Nothing is left to do for this event.
    Finished,
}

/// What a `Step` stands for.
pub ghost enum StepView {
    FindWindow { label: Seq<char> },
    Unminimize { label: Seq<char> },
    SetFocus { label: Seq<char> },
    Exit { code: int },
    Abort,
    Finished,
}

impl View for Step {
    type V = StepView;

    open spec fn view(&self) -> StepView {
        match self {
            Step::FindWindow { label } => StepView::FindWindow { label: label@ },
            Step::Unminimize { label } => StepView::Unminimize { label: label@ },
            Step::SetFocus { label } => StepView::SetFocus { label: label@ },
            Step::Exit { code } => StepView::Exit { code: *code as int },
            Step::Abort => StepView::Abort,
            Step::Finished => StepView::Finished,
        }
    }
}

/// The label of the one window that the shell has.
pub open spec fn main_window() -> Seq<char> {
    "main"@
}

/// The identifier of the tray item that ends the process.
pub open spec fn quit_id() -> Seq<char> {
    "quit"@
}

/// The tray's menu: the single item that ends the process.
pub open spec fn tray_items() -> MenuView {
    MenuView { entries: seq![MenuEntryView::Action { id: quit_id(), label: "Quit"@ }] }
}

/// The first step that `event` calls for.
pub open spec fn dispatched(event: TrayEventView) -> StepView {
    match event {
        TrayEventView::LeftClick => StepView::FindWindow { label: main_window() },
        TrayEventView::MenuItemClick { id } => if id == quit_id() {
            StepView::Exit { code: 0 }
        } else {
            StepView::Finished
        },
        TrayEventView::Other => StepView::Finished,
    }
}

/// The step that follows `step` once the host has reported whether it
/// succeeded. A step that leaves the host nothing to report on is followed by
/// itself.
pub open spec fn step_after(step: StepView, succeeded: bool) -> StepView {
    match step {
        StepView::FindWindow { label } => if succeeded {
            StepView::Unminimize { label }
        } else {
            StepView::Abort
        },
        StepView::Unminimize { label } => if succeeded {
            StepView::SetFocus { label }
        } else {
            StepView::Abort
        },
        StepView::SetFocus { label } => if succeeded {
            StepView::Finished
        } else {
            StepView::Abort
        },
        StepView::Exit { code } => step,
        StepView::Abort => step,
        StepView::Finished => step,
    }
}

/// Builds the menu that the tray icon shows.
pub fn tray_menu() -> (menu: MenuSpec)
    ensures
        menu@ == tray_items(),
{
    let menu = MenuSpec::new().add_action("quit", "Quit");
    assert(menu@.entries =~= tray_items().entries);
    menu
}

/// Answers a tray event with the first step of handling it: a left click
/// starts bringing the main window back, the quit item ends the process with
/// exit code 0, and everything else is ignored.
pub fn dispatch(event: &TrayEvent) -> (step: Step)
    ensures
        step@ == dispatched(event@),
{
    match event {
        TrayEvent::LeftClick => Step::FindWindow { label: String::from_str("main") },
        TrayEvent::MenuItemClick { id } => {
            let quit = String::from_str("quit");
            if *id == quit {
                Step::Exit { code: 0 }
            } else {
                Step::Finished
            }
        },
        TrayEvent::Other => Step::Finished,
    }
}

/// Answers the host's report on `step` with the step that follows: on success
/// the next thing to do to the same window, on failure `Abort`.
pub fn next_step(step: &Step, succeeded: bool) -> (next: Step)
    ensures
        next@ == step_after(step@, succeeded),
{
    match step {
        Step::FindWindow { label } => if succeeded {
            Step::Unminimize { label: label.clone() }
        } else {
            Step::Abort
        },
        Step::Unminimize { label } => if succeeded {
            Step::SetFocus { label: label.clone() }
        } else {
            Step::Abort
        },
        Step::SetFocus { label } => if succeeded {
            Step::Finished
        } else {
            Step::Abort
        },
        Step::Exit { code } => Step::Exit { code: *code },
        Step::Abort => Step::Abort,
        Step::Finished => Step::Finished,
    }
}

/// Whether `step` gives the host something to do and to report on.
pub open spec fn awaits_report(step: StepView) -> bool {
    step is FindWindow || step is Unminimize || step is SetFocus
}

/// Whether `step` leaves every window but the one called `label` alone.
pub open spec fn touches_only(step: StepView, label: Seq<char>) -> bool {
    match step {
        StepView::FindWindow { label: named } => named == label,
        StepView::Unminimize { label: named } => named == label,
        StepView::SetFocus { label: named } => named == label,
        StepView::Exit { code } => true,
        StepView::Abort => true,
        StepView::Finished => true,
    }
}

/// The steps handed to the host from `step` on, while it reports `outcomes`
/// one after another. The last of them is the first that awaits no report, or
/// the one whose report is still missing.
pub open spec fn steps_from(step: StepView, outcomes: Seq<bool>) -> Seq<StepView>
    decreases outcomes.len(),
{
    if !awaits_report(step) || outcomes.len() == 0 {
        seq![step]
    } else {
        seq![step] + steps_from(step_after(step, outcomes[0]), outcomes.drop_first())
    }
}

/// All the steps that handling `event` hands to the host while it reports
/// `outcomes`.
pub open spec fn handling(event: TrayEventView, outcomes: Seq<bool>) -> Seq<StepView> {
    steps_from(dispatched(event), outcomes)
}

proof fn lemma_steps_from_touch_only(step: StepView, outcomes: Seq<bool>, label: Seq<char>)
    requires
        touches_only(step, label),
    ensures
        forall|i: int|
            0 <= i < steps_from(step, outcomes).len() ==> touches_only(
                #[trigger] steps_from(step, outcomes)[i],
                label,
            ),
    decreases outcomes.len(),
{
    if awaits_report(step) && outcomes.len() > 0 {
        let rest = steps_from(step_after(step, outcomes[0]), outcomes.drop_first());
        lemma_steps_from_touch_only(step_after(step, outcomes[0]), outcomes.drop_first(), label);
        assert forall|i: int| 0 <= i < steps_from(step, outcomes).len() implies touches_only(
            #[trigger] steps_from(step, outcomes)[i],
            label,
        ) by {
            if i > 0 {
                assert(steps_from(step, outcomes)[i] == rest[i - 1]);
            }
        }
    }
}

proof fn lemma_steps_from_failure(step: StepView, outcomes: Seq<bool>, i: int)
    requires
        0 <= i < outcomes.len(),
        i < steps_from(step, outcomes).len(),
        awaits_report(steps_from(step, outcomes)[i]),
        !outcomes[i],
    ensures
        steps_from(step, outcomes).len() == i + 2,
        steps_from(step, outcomes)[i + 1] == StepView::Abort,
    decreases outcomes.len(),
{
    let rest = steps_from(step_after(step, outcomes[0]), outcomes.drop_first());
    if i == 0 {
        assert(steps_from(step, outcomes)[0] == step);
        assert(rest =~= seq![StepView::Abort]);
    } else {
        assert(steps_from(step, outcomes)[i] == rest[i - 1]);
        lemma_steps_from_failure(step_after(step, outcomes[0]), outcomes.drop_first(), i - 1);
    }
}

/// A left click, with a host that succeeds at each step, finds the main
/// window, brings it back from its minimized state, gives it the focus, and
/// is then dealt with.
pub proof fn lemma_left_click_restores_main_window(outcomes: Seq<bool>)
    requires
        outcomes.len() >= 3,
        outcomes[0] && outcomes[1] && outcomes[2],
    ensures
        handling(TrayEventView::LeftClick, outcomes) == seq![
            StepView::FindWindow { label: main_window() },
            StepView::Unminimize { label: main_window() },
            StepView::SetFocus { label: main_window() },
            StepView::Finished,
        ],
{
    reveal_with_fuel(steps_from, 4);
    assert(handling(TrayEventView::LeftClick, outcomes) =~= seq![
        StepView::FindWindow { label: main_window() },
        StepView::Unminimize { label: main_window() },
        StepView::SetFocus { label: main_window() },
        StepView::Finished,
    ]);
}

/// Whatever the event and whatever the host reports, no step is aimed at a
/// window other than the main one.
pub proof fn lemma_only_main_window_is_touched(event: TrayEventView, outcomes: Seq<bool>)
    ensures
        forall|i: int|
            0 <= i < handling(event, outcomes).len() ==> touches_only(
                #[trigger] handling(event, outcomes)[i],
                main_window(),
            ),
{
    lemma_steps_from_touch_only(dispatched(event), outcomes, main_window());
}

/// A step that the host reports as failed is followed by `Abort`, and by
/// nothing after it: a missing main window, or a window that cannot be brought
/// back or focused, is never recovered from.
pub proof fn lemma_failure_is_fatal(event: TrayEventView, outcomes: Seq<bool>, i: int)
    requires
        0 <= i < outcomes.len(),
        i < handling(event, outcomes).len(),
        awaits_report(handling(event, outcomes)[i]),
        !outcomes[i],
    ensures
        handling(event, outcomes).len() == i + 2,
        handling(event, outcomes)[i + 1] == StepView::Abort,
{
    lemma_steps_from_failure(dispatched(event), outcomes, i);
}

/// Handling an event is over after three reports from the host at the most:
/// by then the last step handed out awaits no report.
pub proof fn lemma_handling_ends(event: TrayEventView, outcomes: Seq<bool>)
    requires
        outcomes.len() >= 3,
    ensures
        1 <= handling(event, outcomes).len() <= 4,
        !awaits_report(handling(event, outcomes).last()),
{
    reveal_with_fuel(steps_from, 4);
}

/// Choosing the quit item ends the process with exit code 0, before the host
/// is asked for anything else.
pub proof fn lemma_quit_exits_with_zero(outcomes: Seq<bool>)
    ensures
        handling(TrayEventView::MenuItemClick { id: quit_id() }, outcomes) == seq![
            StepView::Exit { code: 0 },
        ],
{
}

/// Choosing any item but the quit item is ignored, and so is every event that
/// is neither a left click nor a chosen item: the host is asked to do nothing.
pub proof fn lemma_everything_else_is_ignored(event: TrayEventView, outcomes: Seq<bool>)
    requires
        event != TrayEventView::LeftClick,
        event != (TrayEventView::MenuItemClick { id: quit_id() }),
    ensures
        handling(event, outcomes) == seq![StepView::Finished],
{
}

/// The one item that the tray offers is the item that ends the process.
pub proof fn lemma_tray_offers_quit()
    ensures
        tray_items().entries.len() == 1,
        tray_items().entries[0] matches MenuEntryView::Action { id, label }
            && dispatched(TrayEventView::MenuItemClick { id }) == (StepView::Exit { code: 0 }),
{
}

} // verus!
