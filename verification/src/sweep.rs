//! The sweep: look at the balance, decide, transfer, report, and sleep again.
//!
//! The sweep itself does no work on the ledger. It is told what happened,
//! and answers with what is to be done next. Whoever drives it sleeps, asks
//! the ledger and posts the notification, and hands back what came of it.

use crate::notify::{transfer_message, transfer_text};
use crate::settings::{Settings, SettingsView};
use vstd::prelude::*;

verus! {

/// Where a cycle of the sweep stands.
///
/// Deciding is no phase of its own: the balance is compared with the
/// threshold at the moment it arrives. Transferring has two, one for each
/// call that it waits for.
#[derive(Clone, Copy, Debug, PartialEq, Eq, Structural)]
pub enum Phase {
    /// Asleep until the next cycle.
    Idle,
    /// The balance has been asked for.
    Sampling,
    /// There is an excess to transfer, and a fresh blockhash has been asked for.
    FetchingToken { excess: u64 },
    /// The transfer has been signed and sent, and waits to be confirmed.
    Broadcasting { excess: u64 },
    /// The transfer is confirmed, and its notification has been sent off.
    Reporting { excess: u64 },
}

/// What the outside world answered.
#[derive(Clone, Debug, PartialEq, Eq)]
pub enum Event {
    /// The poll interval is over.
    IntervalElapsed,
    /// The sender's balance, in lamports.
    BalanceRead(u64),
    /// The balance could not be read.
    BalanceQueryFailed,
    /// A fresh blockhash is at hand.
    TokenFetched,
    /// No blockhash could be had.
    TokenFetchFailed,
    /// The transfer is confirmed, under this signature.
    TransferConfirmed(String),
    /// The transfer was not sent, or not confirmed.
    TransferFailed,
    /// The notification arrived.
    NotificationSent,
    /// The notification did not arrive.
    NotificationFailed,
}

/// An [`Event`] as contracts see it.
pub enum EventView {
    IntervalElapsed,
    BalanceRead(u64),
    BalanceQueryFailed,
    TokenFetched,
    TokenFetchFailed,
    TransferConfirmed(Seq<char>),
    TransferFailed,
    NotificationSent,
    NotificationFailed,
}

impl View for Event {
    type V = EventView;

    open spec fn view(&self) -> EventView {
        match self {
            Event::IntervalElapsed => EventView::IntervalElapsed,
            Event::BalanceRead(balance) => EventView::BalanceRead(*balance),
            Event::BalanceQueryFailed => EventView::BalanceQueryFailed,
            Event::TokenFetched => EventView::TokenFetched,
            Event::TokenFetchFailed => EventView::TokenFetchFailed,
            Event::TransferConfirmed(signature) => EventView::TransferConfirmed(signature@),
            Event::TransferFailed => EventView::TransferFailed,
            Event::NotificationSent => EventView::NotificationSent,
            Event::NotificationFailed => EventView::NotificationFailed,
        }
    }
}

/// What is to be done next.
#[derive(Clone, Debug, PartialEq, Eq)]
pub enum Action {
    /// Sleep for the poll interval.
    Sleep { seconds: u64 },
    /// Ask the ledger for the balance of the account with this key.
    QueryBalance { account: [u8; 32] },
    /// Ask the ledger for a fresh blockhash.
    FetchToken,
    /// Transfer this many lamports from one account to the other: sign with
    /// the key of the first, send, and wait for the confirmation.
    SignAndBroadcast { from: [u8; 32], to: [u8; 32], lamports: u64 },
    /// Post this text to the endpoint.
    Notify { endpoint: String, text: String },
}

/// An [`Action`] as contracts see it.
pub enum ActionView {
    Sleep { seconds: u64 },
    QueryBalance { account: Seq<u8> },
    FetchToken,
    SignAndBroadcast { from: Seq<u8>, to: Seq<u8>, lamports: u64 },
    Notify { endpoint: Seq<char>, text: Seq<char> },
}

impl View for Action {
    type V = ActionView;

    open spec fn view(&self) -> ActionView {
        match self {
            Action::Sleep { seconds } => ActionView::Sleep { seconds: *seconds },
            Action::QueryBalance { account } => ActionView::QueryBalance { account: account@ },
            Action::FetchToken => ActionView::FetchToken,
            Action::SignAndBroadcast { from, to, lamports } => ActionView::SignAndBroadcast {
                from: from@,
                to: to@,
                lamports: *lamports,
            },
            Action::Notify { endpoint, text } => ActionView::Notify {
                endpoint: endpoint@,
                text: text@,
            },
        }
    }
}

/// The call that made a cycle end early.
#[derive(Clone, Copy, Debug, PartialEq, Eq, Structural)]
pub enum CycleError {
    BalanceQuery,
    TokenFetch,
    Transfer,
}

/// How a cycle ended.
#[derive(Clone, Copy, Debug, PartialEq, Eq, Structural)]
pub enum CycleOutcome {
    /// The balance was not above the threshold.
    NoExcess,
    /// A call failed. Nothing is tried again before the next cycle.
    Abandoned(CycleError),
    /// The transfer of this many lamports is confirmed; whether its
    /// notification arrived makes no difference.
    Transferred { lamports: u64 },
}

/// How loud a line about an event is to be logged.
#[derive(Clone, Copy, Debug, PartialEq, Eq, Structural)]
pub enum Severity {
    Info,
    Warn,
    Error,
}

/// The sweep was told of something that it was not waiting for.
#[derive(Clone, Copy, Debug, PartialEq, Eq, Structural)]
pub enum StepError {
    UnexpectedEvent,
}

/// The answer of the sweep to an event.
#[derive(Clone, Debug, PartialEq, Eq)]
pub struct Step {
    /// The phase from here on.
    pub next: Phase,
    /// What is to be done now.
    pub action: Action,
    /// How the cycle ended, where this event ended it.
    pub finished: Option<CycleOutcome>,
}

/// A [`Step`] as contracts see it.
pub struct StepView {
    pub next: Phase,
    pub action: ActionView,
    pub finished: Option<CycleOutcome>,
}

impl View for Step {
    type V = StepView;

    open spec fn view(&self) -> StepView {
        StepView { next: self.next, action: self.action@, finished: self.finished }
    }
}

impl Phase {
    /// Whatever is about to be transferred is more than nothing.
    pub open spec fn is_valid(self) -> bool {
        match self {
            Phase::Idle | Phase::Sampling => true,
            Phase::FetchingToken { excess } => excess > 0,
            Phase::Broadcasting { excess } => excess > 0,
            Phase::Reporting { excess } => excess > 0,
        }
    }

    /// The phase is waiting for this event.
    pub open spec fn awaits(self, event: EventView) -> bool {
        match self {
            Phase::Idle => event is IntervalElapsed,
            Phase::Sampling => event is BalanceRead || event is BalanceQueryFailed,
            Phase::FetchingToken { .. } => event is TokenFetched || event is TokenFetchFailed,
            Phase::Broadcasting { .. } => event is TransferConfirmed || event is TransferFailed,
            Phase::Reporting { .. } => event is NotificationSent || event is NotificationFailed,
        }
    }
}

impl EventView {
    /// The event reports a call that failed.
    pub open spec fn is_failure(self) -> bool {
        self is BalanceQueryFailed || self is TokenFetchFailed || self is TransferFailed
            || self is NotificationFailed
    }
}

/// What there is to transfer: the balance above the threshold, and nothing
/// where the balance is at or below it.
pub open spec fn transfer_intent_spec(balance: u64, threshold: u64) -> Option<u64> {
    if balance > threshold {
        Some((balance - threshold) as u64)
    } else {
        None
    }
}

/// The end of a cycle: sleep, then start over.
pub open spec fn rest(settings: SettingsView, outcome: CycleOutcome) -> StepView {
    StepView {
        next: Phase::Idle,
        action: ActionView::Sleep { seconds: settings.poll_interval_seconds },
        finished: Some(outcome),
    }
}

/// The start of a cycle: ask for the sender's balance.
pub open spec fn sample(settings: SettingsView) -> StepView {
    StepView {
        next: Phase::Sampling,
        action: ActionView::QueryBalance { account: settings.sender.key },
        finished: None,
    }
}

/// The transfer of an excess, from the sender to the receiver.
pub open spec fn broadcast(settings: SettingsView, excess: u64) -> StepView {
    StepView {
        next: Phase::Broadcasting { excess },
        action: ActionView::SignAndBroadcast {
            from: settings.sender.key,
            to: settings.receiver.key,
            lamports: excess,
        },
        finished: None,
    }
}

/// How the sweep starts: asleep.
pub open spec fn start_spec(settings: SettingsView) -> StepView {
    StepView {
        next: Phase::Idle,
        action: ActionView::Sleep { seconds: settings.poll_interval_seconds },
        finished: None,
    }
}

/// The answer of the sweep to an event in a phase.
pub open spec fn transition(settings: SettingsView, phase: Phase, event: EventView) -> Result<
    StepView,
    StepError,
> {
    match (phase, event) {
        (Phase::Idle, EventView::IntervalElapsed) => Ok(sample(settings)),
        (Phase::Sampling, EventView::BalanceRead(balance)) => match transfer_intent_spec(
            balance,
            settings.threshold_lamports,
        ) {
            Some(excess) => Ok(
                StepView {
                    next: Phase::FetchingToken { excess },
                    action: ActionView::FetchToken,
                    finished: None,
                },
            ),
            None => Ok(rest(settings, CycleOutcome::NoExcess)),
        },
        (Phase::Sampling, EventView::BalanceQueryFailed) => Ok(
            rest(settings, CycleOutcome::Abandoned(CycleError::BalanceQuery)),
        ),
        (Phase::FetchingToken { excess }, EventView::TokenFetched) => Ok(
            broadcast(settings, excess),
        ),
        (Phase::FetchingToken { .. }, EventView::TokenFetchFailed) => Ok(
            rest(settings, CycleOutcome::Abandoned(CycleError::TokenFetch)),
        ),
        (Phase::Broadcasting { excess }, EventView::TransferConfirmed(signature)) => match settings.slack_webhook {
            Some(endpoint) => Ok(
                StepView {
                    next: Phase::Reporting { excess },
                    action: ActionView::Notify {
                        endpoint,
                        text: transfer_text(
                            excess,
                            settings.sender.text,
                            settings.receiver.text,
                            signature,
                        ),
                    },
                    finished: None,
                },
            ),
            None => Ok(rest(settings, CycleOutcome::Transferred { lamports: excess })),
        },
        (Phase::Broadcasting { .. }, EventView::TransferFailed) => Ok(
            rest(settings, CycleOutcome::Abandoned(CycleError::Transfer)),
        ),
        (Phase::Reporting { excess }, EventView::NotificationSent) => Ok(
            rest(settings, CycleOutcome::Transferred { lamports: excess }),
        ),
        (Phase::Reporting { excess }, EventView::NotificationFailed) => Ok(
            rest(settings, CycleOutcome::Transferred { lamports: excess }),
        ),
        _ => Err(StepError::UnexpectedEvent),
    }
}

/// What the sweep answered, as contracts see it.
pub open spec fn answer_view(answer: Result<Step, StepError>) -> Result<StepView, StepError> {
    match answer {
        Ok(step) => Ok(step@),
        Err(error) => Err(error),
    }
}

/// How loud a line about an event is: a balance that cannot be read and a
/// notification that does not arrive are warnings, a blockhash that cannot
/// be had and a transfer that fails are errors, and the rest is information.
pub open spec fn severity_spec(event: EventView) -> Severity {
    match event {
        EventView::BalanceQueryFailed | EventView::NotificationFailed => Severity::Warn,
        EventView::TokenFetchFailed | EventView::TransferFailed => Severity::Error,
        _ => Severity::Info,
    }
}

/// What there is to transfer: the balance above the threshold, and nothing
/// where the balance is at or below it.
pub fn transfer_intent(balance: u64, threshold: u64) -> (excess: Option<u64>)
    ensures
        excess == transfer_intent_spec(balance, threshold),
        excess matches Some(lamports) ==> lamports > 0,
{
    if balance > threshold {
        Some(balance - threshold)
    } else {
        None
    }
}

/// How loud a line about an event is to be logged.
pub fn severity(event: &Event) -> (level: Severity)
    ensures
        level == severity_spec(event@),
{
    match event {
        Event::BalanceQueryFailed => Severity::Warn,
        Event::NotificationFailed => Severity::Warn,
        Event::TokenFetchFailed => Severity::Error,
        Event::TransferFailed => Severity::Error,
        _ => Severity::Info,
    }
}

fn rest_now(settings: &Settings, outcome: CycleOutcome) -> (step: Step)
    ensures
        step@ == rest(settings@, outcome),
{
    Step {
        next: Phase::Idle,
        action: Action::Sleep { seconds: settings.poll_interval_seconds },
        finished: Some(outcome),
    }
}

/// How the sweep starts: asleep for one poll interval, before the first look
/// at the balance.
pub fn start(settings: &Settings) -> (step: Step)
    ensures
        step@ == start_spec(settings@),
{
    Step {
        next: Phase::Idle,
        action: Action::Sleep { seconds: settings.poll_interval_seconds },
        finished: None,
    }
}

/// Answers an event: the phase from here on, what is to be done now, and how
/// the cycle ended if it did. An event that the phase was not waiting for is
/// refused, and that alone.
pub fn step(settings: &Settings, phase: Phase, event: Event) -> (answer: Result<Step, StepError>)
    ensures
        answer_view(answer) == transition(settings@, phase, event@),
        answer is Ok <==> phase.awaits(event@),
        phase.is_valid() ==> (answer matches Ok(step) ==> step.next.is_valid()),
{
    match phase {
        Phase::Idle => match event {
            Event::IntervalElapsed => Ok(
                Step {
                    next: Phase::Sampling,
                    action: Action::QueryBalance { account: settings.sender.key },
                    finished: None,
                },
            ),
            _ => Err(StepError::UnexpectedEvent),
        },
        Phase::Sampling => match event {
            Event::BalanceRead(balance) => match transfer_intent(
                balance,
                settings.threshold_lamports,
            ) {
                Some(excess) => Ok(
                    Step {
                        next: Phase::FetchingToken { excess },
                        action: Action::FetchToken,
                        finished: None,
                    },
                ),
                None => Ok(rest_now(settings, CycleOutcome::NoExcess)),
            },
            Event::BalanceQueryFailed => Ok(
                rest_now(settings, CycleOutcome::Abandoned(CycleError::BalanceQuery)),
            ),
            _ => Err(StepError::UnexpectedEvent),
        },
        Phase::FetchingToken { excess } => match event {
            Event::TokenFetched => Ok(
                Step {
                    next: Phase::Broadcasting { excess },
                    action: Action::SignAndBroadcast {
                        from: settings.sender.key,
                        to: settings.receiver.key,
                        lamports: excess,
                    },
                    finished: None,
                },
            ),
            Event::TokenFetchFailed => Ok(
                rest_now(settings, CycleOutcome::Abandoned(CycleError::TokenFetch)),
            ),
            _ => Err(StepError::UnexpectedEvent),
        },
        Phase::Broadcasting { excess } => match event {
            Event::TransferConfirmed(signature) => match &settings.slack_webhook {
                Some(endpoint) => {
                    let text = transfer_message(
                        excess,
                        settings.sender.text.as_str(),
                        settings.receiver.text.as_str(),
                        signature.as_str(),
                    );
                    Ok(
                        Step {
                            next: Phase::Reporting { excess },
                            action: Action::Notify { endpoint: endpoint.clone(), text },
                            finished: None,
                        },
                    )
                },
                None => Ok(rest_now(settings, CycleOutcome::Transferred { lamports: excess })),
            },
            Event::TransferFailed => Ok(
                rest_now(settings, CycleOutcome::Abandoned(CycleError::Transfer)),
            ),
            _ => Err(StepError::UnexpectedEvent),
        },
        Phase::Reporting { excess } => match event {
            Event::NotificationSent => Ok(
                rest_now(settings, CycleOutcome::Transferred { lamports: excess }),
            ),
            Event::NotificationFailed => Ok(
                rest_now(settings, CycleOutcome::Transferred { lamports: excess }),
            ),
            _ => Err(StepError::UnexpectedEvent),
        },
    }
}

/// Where a run of events leaves the sweep, or the refusal of the first event
/// that was out of turn.
pub open spec fn run(settings: SettingsView, phase: Phase, events: Seq<EventView>) -> Result<
    Phase,
    StepError,
>
    decreases events.len(),
{
    if events.len() == 0 {
        Ok(phase)
    } else {
        match transition(settings, phase, events.first()) {
            Ok(step) => run(settings, step.next, events.drop_first()),
            Err(error) => Err(error),
        }
    }
}

/// An event is answered exactly where the phase was waiting for it.
pub proof fn lemma_answers_what_is_awaited(settings: SettingsView, phase: Phase, event: EventView)
    ensures
        transition(settings, phase, event) is Ok <==> phase.awaits(event),
        transition(settings, phase, event) is Err ==> transition(settings, phase, event) == Err::<
            StepView,
            StepError,
        >(StepError::UnexpectedEvent),
{
}

/// A balance equal to the threshold moves nothing, and a balance of one
/// lamport more moves exactly that lamport.
pub proof fn lemma_threshold_boundary(settings: SettingsView)
    ensures
        transfer_intent_spec(settings.threshold_lamports, settings.threshold_lamports) is None,
        transition(
            settings,
            Phase::Sampling,
            EventView::BalanceRead(settings.threshold_lamports),
        ) == Ok::<StepView, StepError>(rest(settings, CycleOutcome::NoExcess)),
        settings.threshold_lamports < u64::MAX ==> {
            let above = (settings.threshold_lamports + 1) as u64;
            &&& transfer_intent_spec(above, settings.threshold_lamports) == Some(1u64)
            &&& transition(settings, Phase::Sampling, EventView::BalanceRead(above)) == Ok::<
                StepView,
                StepError,
            >(
                StepView {
                    next: Phase::FetchingToken { excess: 1 },
                    action: ActionView::FetchToken,
                    finished: None,
                },
            )
            &&& transition(settings, Phase::FetchingToken { excess: 1 }, EventView::TokenFetched)
                == Ok::<StepView, StepError>(broadcast(settings, 1))
        },
{
}

/// A cycle ends exactly where the sweep goes back to sleep, for the poll
/// interval; and whatever is about to be transferred stays more than nothing.
pub proof fn lemma_cycles_end_asleep(settings: SettingsView, phase: Phase, event: EventView)
    requires
        phase.is_valid(),
        phase.awaits(event),
    ensures
        ({
            let step = transition(settings, phase, event)->Ok_0;
            &&& step.next.is_valid()
            &&& step.finished is Some <==> step.next is Idle
            &&& step.finished is Some ==> step.action == (ActionView::Sleep {
                seconds: settings.poll_interval_seconds,
            })
            &&& step.action matches ActionView::SignAndBroadcast { lamports, .. } ==> lamports > 0
        }),
{
}

/// Whatever went before, a run of events leaves the sweep in a phase in which
/// what is about to be transferred is more than nothing.
pub proof fn lemma_run_keeps_validity(settings: SettingsView, phase: Phase, events: Seq<EventView>)
    requires
        phase.is_valid(),
        run(settings, phase, events) is Ok,
    ensures
        run(settings, phase, events)->Ok_0.is_valid(),
    decreases events.len(),
{
    if events.len() > 0 {
        let step = transition(settings, phase, events.first())->Ok_0;
        lemma_cycles_end_asleep(settings, phase, events.first());
        lemma_run_keeps_validity(settings, step.next, events.drop_first());
    }
}

/// A call that fails ends its own cycle and no other. The sweep goes back to
/// sleep as after any cycle, and the next cycle takes its course: it asks for
/// the balance, and where that is above the threshold it asks for a
/// blockhash and then transfers all of the excess.
pub proof fn lemma_cycle_isolation(
    settings: SettingsView,
    phase: Phase,
    failure: EventView,
    balance: u64,
)
    requires
        failure.is_failure(),
        phase.awaits(failure),
        balance > settings.threshold_lamports,
    ensures
        ({
            let excess = (balance - settings.threshold_lamports) as u64;
            let failed = transition(settings, phase, failure)->Ok_0;
            &&& failed.next == Phase::Idle
            &&& failed.action == (ActionView::Sleep { seconds: settings.poll_interval_seconds })
            &&& transition(settings, failed.next, EventView::IntervalElapsed) == Ok::<
                StepView,
                StepError,
            >(sample(settings))
            &&& transition(settings, Phase::Sampling, EventView::BalanceRead(balance)) == Ok::<
                StepView,
                StepError,
            >(
                StepView {
                    next: Phase::FetchingToken { excess },
                    action: ActionView::FetchToken,
                    finished: None,
                },
            )
            &&& transition(settings, Phase::FetchingToken { excess }, EventView::TokenFetched)
                == Ok::<StepView, StepError>(broadcast(settings, excess))
        }),
{
}

/// A notification that does not arrive changes nothing about the cycle: it
/// ends as with one that arrived, with the transfer confirmed, and the sweep
/// goes to sleep without sending anything again.
pub proof fn lemma_notification_isolation(settings: SettingsView, excess: u64)
    ensures
        transition(settings, Phase::Reporting { excess }, EventView::NotificationFailed)
            == transition(settings, Phase::Reporting { excess }, EventView::NotificationSent),
        transition(settings, Phase::Reporting { excess }, EventView::NotificationFailed) == Ok::<
            StepView,
            StepError,
        >(
            StepView {
                next: Phase::Idle,
                action: ActionView::Sleep { seconds: settings.poll_interval_seconds },
                finished: Some(CycleOutcome::Transferred { lamports: excess }),
            },
        ),
{
}

/// Nothing is transferred but the excess of a balance read in the same cycle:
/// a transfer is ordered only in answer to a fresh blockhash, for the excess
/// that the phase holds, and a phase comes to hold an excess only when a
/// balance above the threshold arrives, as that balance less the threshold.
pub proof fn lemma_transfers_follow_the_balance(
    settings: SettingsView,
    phase: Phase,
    event: EventView,
)
    requires
        phase.awaits(event),
    ensures
        ({
            let step = transition(settings, phase, event)->Ok_0;
            &&& step.action matches ActionView::SignAndBroadcast { from, to, lamports } ==> {
                &&& phase == (Phase::FetchingToken { excess: lamports })
                &&& event is TokenFetched
                &&& step.next == (Phase::Broadcasting { excess: lamports })
                &&& from == settings.sender.key
                &&& to == settings.receiver.key
            }
            &&& step.next matches Phase::FetchingToken { excess } ==> {
                &&& phase is Sampling
                &&& event matches EventView::BalanceRead(balance)
                &&& balance > settings.threshold_lamports
                &&& excess == balance - settings.threshold_lamports
            }
        }),
{
}

/// Nothing is reported but a confirmed transfer: a notification is ordered
/// only when a confirmation arrives and a webhook is configured, it goes to
/// that webhook, and it names the amount that was sent, the sender, the
/// receiver and the signature of the confirmation.
pub proof fn lemma_reports_follow_the_confirmation(
    settings: SettingsView,
    phase: Phase,
    event: EventView,
)
    requires
        phase.awaits(event),
    ensures
        ({
            let step = transition(settings, phase, event)->Ok_0;
            &&& step.action matches ActionView::Notify { endpoint, text } ==> {
                &&& phase matches Phase::Broadcasting { excess }
                &&& event matches EventView::TransferConfirmed(signature)
                &&& settings.slack_webhook == Some(endpoint)
                &&& text == transfer_text(
                    excess,
                    settings.sender.text,
                    settings.receiver.text,
                    signature,
                )
                &&& step.next == (Phase::Reporting { excess })
            }
            &&& step.next is Reporting ==> step.action is Notify
        }),
{
}

} // verus!
