//! What holds of the controller in every state: one thing at a time, in the
//! order of the intake channel.

use crate::app::{ActionView, AppView, EventView, Phase, ShownView};
use crate::error::{ErrorView, WeatherErrorView};
use crate::message::{MenuAction, MessageView};
use crate::settings::SettingsView;
use crate::tray::ERROR_ICON;
use crate::weather::CurrentWeatherView;
use vstd::prelude::*;

verus! {

/// Whether the controller waits for the outcome of an action in the phase.
pub open spec fn waiting(phase: Phase) -> bool {
    phase == Phase::FirstRun || phase == Phase::Refreshing || phase == Phase::InSettings || phase
        == Phase::Saving
}

/// Whether the action is the one whose outcome is awaited in the phase.
pub open spec fn awaited_in(action: ActionView, phase: Phase) -> bool {
    match action {
        ActionView::FetchWeather { .. } => phase == Phase::Refreshing,
        ActionView::OpenSettings { .. } => phase == Phase::InSettings || phase == Phase::FirstRun,
        ActionView::SaveSettings { .. } => phase == Phase::Saving,
        _ => false,
    }
}

/// Whether a list of actions fits the phase that the controller is in after
/// asking for them: only the last action may have an outcome to wait for, and
/// it has one exactly when the controller waits, and then for that action.
pub open spec fn one_at_a_time(actions: Seq<ActionView>, phase: Phase) -> bool {
    &&& forall|i: int| 0 <= i < actions.len() - 1 ==> !(#[trigger] actions[i]).awaited()
    &&& waiting(phase) ==> actions.len() > 0 && awaited_in(actions.last(), phase)
    &&& !waiting(phase) ==> forall|i: int|
        0 <= i < actions.len() ==> !(#[trigger] actions[i]).awaited()
}

pub open spec fn timer() -> EventView {
    EventView::Message(MessageView::Timer)
}

pub open spec fn menu(which: MenuAction) -> EventView {
    EventView::Message(MessageView::MenuAction { which })
}

pub open spec fn completed(new_settings: Option<SettingsView>) -> EventView {
    EventView::Message(MessageView::SettingsCompleted { new_settings })
}

/// At startup the controller asks for one thing with an outcome, and waits
/// for it. Without settings this is the settings form and no weather request.
pub proof fn startup_asks_for_one_thing(loaded: Option<SettingsView>, label: Seq<char>)
    ensures
        one_at_a_time(AppView::start(loaded, label).1, AppView::start(loaded, label).0.phase),
        loaded is None ==> AppView::start(loaded, label).0.phase == Phase::FirstRun
            && AppView::start(loaded, label).1 == seq![
            ActionView::OpenSettings { current: SettingsView::initial() },
        ],
        loaded is Some ==> AppView::start(loaded, label).0.settings == loaded->0,
{
}

/// Every accepted event leads to at most one action with an outcome, the
/// last of the list, and the controller then waits for exactly that outcome.
/// So no two refreshes, and no refresh and settings change, are ever under
/// way together.
pub proof fn each_step_asks_for_one_thing(app: AppView, event: EventView)
    requires
        app.accepts(event),
    ensures
        one_at_a_time(app.step(event).1, app.step(event).0.phase),
        app.step(event).0.phase != Phase::FirstRun,
{
    if let EventView::SettingsSaved(Err(error)) = event {
        let report = seq![ActionView::ReportSaveFailure { message: error.text() }];
        assert(app.step(event).1 == report + app.applies());
        assert(app.step(event).1.last() == app.applies()[2]);
    }
}

/// While the controller waits for an outcome, it takes no message but the
/// one that is the outcome: a message handed to it changes nothing and
/// starts nothing. Messages therefore stay queued until the work under way
/// has come to its end.
pub proof fn nothing_is_taken_while_waiting(app: AppView, message: MessageView)
    requires
        waiting(app.phase),
        !((app.phase == Phase::InSettings || app.phase == Phase::FirstRun)
            && message is SettingsCompleted),
    ensures
        app.step(EventView::Message(message)) == (app, Seq::<ActionView>::empty()),
{
}

/// Once stopped, the controller asks for nothing again.
pub proof fn stopped_is_final(app: AppView, event: EventView)
    requires
        app.phase == Phase::Stopped,
    ensures
        app.step(event) == (app, Seq::<ActionView>::empty()),
{
}

/// Quit, taken by an idle controller, stops the background tasks and ends
/// the loop; the weather service is not asked.
pub proof fn quit_ends_the_loop(app: AppView)
    requires
        app.phase == Phase::Idle,
    ensures
        app.step(menu(MenuAction::Quit)) == (
            app.in_phase(Phase::Stopped),
            seq![ActionView::Shutdown],
        ),
{
}

/// The settings change only when a settings form is closed with new
/// settings; no other event touches them.
pub proof fn settings_change_only_on_completion(app: AppView, event: EventView)
    ensures
        app.step(event).0.settings != app.settings ==> event == completed(
            Some(app.step(event).0.settings),
        ),
{
}

/// A failed weather request is shown and the loop goes on: the controller is
/// idle again, whatever the failure was. What is shown is one message, which
/// begins with the word for a failure in the user's language and ends with
/// the line of the failure; the weather is not shown.
pub proof fn failed_refresh_is_shown(app: AppView, error: WeatherErrorView)
    requires
        app.phase == Phase::Refreshing,
    ensures
        app.step(EventView::WeatherFetched(Err(error))).0.phase == Phase::Idle,
        app.step(EventView::WeatherFetched(Err(error))).0.shown == ShownView::Error(
            app.failure_label + ": "@ + error.text(),
        ),
        app.step(EventView::WeatherFetched(Err(error))).1 == seq![
            ActionView::ShowError {
                icon_path: ERROR_ICON@,
                message: app.failure_label + ": "@ + error.text(),
            },
        ],
{
}

/// The word for a failure is the one that the controller was started with:
/// no event changes it.
pub proof fn failure_label_stays(app: AppView, event: EventView)
    ensures
        app.step(event).0.failure_label == app.failure_label,
{
}

/// The first-run settings form is opened once. While it is open nothing else
/// is started; closed without settings it ends the program, closed with
/// settings it leads on to saving them. No later event brings the first run
/// back.
pub proof fn first_run_form_opens_once(app: AppView, event: EventView)
    ensures
        app.phase == Phase::FirstRun && !(event is Message && event->Message_0 is SettingsCompleted)
            ==> app.step(event) == (app, Seq::<ActionView>::empty()),
        app.phase == Phase::FirstRun ==> app.step(completed(None)) == (
            app.in_phase(Phase::Stopped),
            seq![ActionView::Abort { failure: ErrorView::NoSettings }],
        ),
        app.phase == Phase::FirstRun ==> forall|s: SettingsView| #[trigger]
            app.step(completed(Some(s))).1 == seq![ActionView::SaveSettings { settings: s }],
        app.phase != Phase::FirstRun ==> app.step(event).0.phase != Phase::FirstRun,
        forall|i: int|
            0 <= i < app.step(event).1.len() && app.phase == Phase::FirstRun ==> !(
            #[trigger] app.step(event).1[i] is OpenSettings),
{
}

/// With a timer tick, a request for the settings form and another tick
/// queued in this order: the first refresh is shown before the form opens,
/// and the second refresh starts only after the form is closed and, where
/// it gave new settings, after these are saved and the refresh that follows
/// them is shown. In between, each queued message handed to the controller
/// is left untouched.
pub proof fn queued_messages_are_handled_in_order(
    app: AppView,
    first: Result<CurrentWeatherView, WeatherErrorView>,
    answer: Option<SettingsView>,
    saved: Result<(), ErrorView>,
    second: Result<CurrentWeatherView, WeatherErrorView>,
)
    requires
        app.phase == Phase::Idle,
    ensures
        ({
            let open = menu(MenuAction::OpenSettings);
            let (refreshing, asked) = app.step(timer());
            let (shown, showing) = refreshing.step(EventView::WeatherFetched(first));
            let (in_form, opened) = shown.step(open);
            let (closed, after_form) = in_form.step(completed(answer));
            &&& asked == seq![ActionView::FetchWeather { location: app.settings.location }]
            &&& refreshing.step(open) == (refreshing, Seq::<ActionView>::empty())
            &&& refreshing.step(timer()) == (refreshing, Seq::<ActionView>::empty())
            &&& showing == seq![app.shows(first).1]
            &&& shown.phase == Phase::Idle
            &&& opened == seq![ActionView::OpenSettings { current: app.settings }]
            &&& in_form.step(timer()) == (in_form, Seq::<ActionView>::empty())
            &&& match answer {
                None => {
                    &&& after_form.len() == 0
                    &&& closed.phase == Phase::Idle
                    &&& closed.settings == app.settings
                    &&& closed.step(timer()).1 == seq![
                        ActionView::FetchWeather { location: app.settings.location },
                    ]
                },
                Some(settings) => {
                    let (applying, applied) = closed.step(EventView::SettingsSaved(saved));
                    let (idle, _unused) = applying.step(EventView::WeatherFetched(second));
                    &&& after_form == seq![ActionView::SaveSettings { settings }]
                    &&& closed.step(timer()) == (closed, Seq::<ActionView>::empty())
                    &&& applied.last() == (ActionView::FetchWeather { location: settings.location })
                    &&& applying.step(timer()) == (applying, Seq::<ActionView>::empty())
                    &&& idle.phase == Phase::Idle
                    &&& idle.settings == settings
                    &&& idle.step(timer()).1 == seq![
                        ActionView::FetchWeather { location: settings.location },
                    ]
                },
            }
        }),
{
    if answer is Some {
        let refreshing = app.step(timer()).0;
        let shown = refreshing.step(EventView::WeatherFetched(first)).0;
        let in_form = shown.step(menu(MenuAction::OpenSettings)).0;
        let closed = in_form.step(completed(answer)).0;
        each_step_asks_for_one_thing(closed, EventView::SettingsSaved(saved));
    }
}

/// How many actions of a list have an outcome to wait for.
pub open spec fn count_awaited(actions: Seq<ActionView>) -> nat
    decreases actions.len(),
{
    if actions.len() == 0 {
        0
    } else {
        count_awaited(actions.drop_last()) + if actions.last().awaited() {
            1nat
        } else {
            0nat
        }
    }
}

/// How many outcomes the controller waits for in a phase: one or none.
pub open spec fn pending(phase: Phase) -> nat {
    if waiting(phase) {
        1
    } else {
        0
    }
}

/// The controller after a sequence of events handed to it one by one, and
/// all the actions that it asked for on the way, in order.
pub open spec fn run(app: AppView, events: Seq<EventView>) -> (AppView, Seq<ActionView>)
    decreases events.len(),
{
    if events.len() == 0 {
        (app, Seq::empty())
    } else {
        let (before, asked) = run(app, events.drop_last());
        let (after, asks) = before.step(events.last());
        (after, asked + asks)
    }
}

/// How many of a sequence of events were taken as the outcome of an action,
/// that is, accepted while the controller was waiting.
pub open spec fn outcomes_taken(app: AppView, events: Seq<EventView>) -> nat
    decreases events.len(),
{
    if events.len() == 0 {
        0
    } else {
        let before = run(app, events.drop_last()).0;
        outcomes_taken(app, events.drop_last()) + if waiting(before.phase) && before.accepts(
            events.last(),
        ) {
            1nat
        } else {
            0nat
        }
    }
}

/// The awaited actions of two lists, one after the other, are those of the
/// one and those of the other.
proof fn count_awaited_of_both(first: Seq<ActionView>, second: Seq<ActionView>)
    ensures
        count_awaited(first + second) == count_awaited(first) + count_awaited(second),
    decreases second.len(),
{
    if second.len() == 0 {
        assert(first + second =~= first);
    } else {
        count_awaited_of_both(first, second.drop_last());
        assert((first + second).drop_last() =~= first + second.drop_last());
        assert((first + second).last() == second.last());
    }
}

/// A list in which only the last action may be awaited has as many awaited
/// actions as its phase has pending outcomes.
proof fn count_awaited_of_step(actions: Seq<ActionView>, phase: Phase)
    requires
        one_at_a_time(actions, phase),
    ensures
        count_awaited(actions) == pending(phase),
    decreases actions.len(),
{
    if actions.len() > 0 {
        let front = actions.drop_last();
        assert forall|i: int| 0 <= i < front.len() implies !(#[trigger] front[i]).awaited() by {
            assert(front[i] == actions[i]);
        }
        count_awaited_of_none(front);
    }
}

/// A list without awaited actions counts none.
proof fn count_awaited_of_none(actions: Seq<ActionView>)
    requires
        forall|i: int| 0 <= i < actions.len() ==> !(#[trigger] actions[i]).awaited(),
    ensures
        count_awaited(actions) == 0,
    decreases actions.len(),
{
    if actions.len() > 0 {
        let front = actions.drop_last();
        assert forall|i: int| 0 <= i < front.len() implies !(#[trigger] front[i]).awaited() by {
            assert(front[i] == actions[i]);
        }
        count_awaited_of_none(front);
    }
}

/// In every run, whatever events are handed in and in whatever order: the
/// actions with an outcome that were asked for so far are the outcomes that
/// were taken, and one more exactly while the controller waits. So at no
/// point of any run is more than one refresh, settings form or save under
/// way, and none is ever dropped.
pub proof fn one_thing_is_under_way(app: AppView, events: Seq<EventView>)
    ensures
        count_awaited(run(app, events).1) + pending(app.phase) == outcomes_taken(app, events)
            + pending(run(app, events).0.phase),
    decreases events.len(),
{
    if events.len() > 0 {
        let earlier = events.drop_last();
        let event = events.last();
        one_thing_is_under_way(app, earlier);
        let (before, asked) = run(app, earlier);
        let (after, asks) = before.step(event);
        count_awaited_of_both(asked, asks);
        if before.accepts(event) {
            each_step_asks_for_one_thing(before, event);
            count_awaited_of_step(asks, after.phase);
        } else {
            assert(asks =~= Seq::<ActionView>::empty());
        }
    }
}

/// A run that begins with the first-run settings form asks for nothing and
/// changes nothing for as long as the form has not answered: the form is
/// opened once, at startup, and not again.
pub proof fn first_run_waits_for_the_form(events: Seq<EventView>, label: Seq<char>)
    requires
        forall|i: int|
            0 <= i < events.len() ==> !((#[trigger] events[i]) is Message
                && events[i]->Message_0 is SettingsCompleted),
    ensures
        run(AppView::start(None, label).0, events) == (
            AppView::start(None, label).0,
            Seq::<ActionView>::empty(),
        ),
    decreases events.len(),
{
    if events.len() > 0 {
        let earlier = events.drop_last();
        assert forall|i: int| 0 <= i < earlier.len() implies !((#[trigger] earlier[i]) is Message
            && earlier[i]->Message_0 is SettingsCompleted) by {
            assert(earlier[i] == events[i]);
        }
        first_run_waits_for_the_form(earlier, label);
        assert(Seq::<ActionView>::empty() + Seq::<ActionView>::empty() =~= Seq::<
            ActionView,
        >::empty());
    }
}

} // verus!
