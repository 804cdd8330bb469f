//! The order of a run, as a machine that is fed what happened and answers
//! with what to do next.
//!
//! The caller performs each [`Action`] and reports its outcome as the next
//! [`Event`]. The machine never waits, reads or prints by itself.

use vstd::prelude::*;

use crate::config::{contents_of, get_config, loaded, text_of, Config};
use crate::error::{ErrorView, RunError};
use crate::request::{
    balance_query, buying_power_query, first_balance_page, get_api, request_for,
    samsung_market_order, BalanceQuery, BalanceQueryView, BuyingPowerQuery, BuyingPowerQueryView,
    ClientRequest, ClientRequestView,
};

verus! {

/// Where a run stands: what it is waiting for.
#[derive(Clone, Copy, Debug, PartialEq, Eq, Structural)]
pub enum State {
    /// Nothing has happened yet.
    Start,
    /// The logging facility is being set up.
    Logging,
    /// The command line is being parsed.
    Parsing,
    /// The configuration file is being read.
    Loading,
    /// The client is being opened.
    Connecting,
    /// The balance inquiry is under way.
    Balance,
    /// The buying-power inquiry is under way.
    BuyingPower,
    /// The run is over.
    Done,
}

/// What the caller reports back.
#[derive(Debug)]
pub enum Event {
    /// The process has started.
    Launched,
    /// The logging facility is ready.
    LoggerReady,
    /// The command line was parsed: the configuration path, or `None` where
    /// the arguments were malformed.
    Arguments(Option<String>),
    /// The configuration file was read, or reading failed.
    ConfigRead(Result<String, std::io::Error>),
    /// The client was opened, or opening failed.
    Connected(Result<(), korea_investment_api::Error>),
    /// The balance inquiry came back: the debug rendering of the response,
    /// or the failure.
    Balance(Result<String, korea_investment_api::Error>),
    /// The buying-power inquiry came back, likewise.
    BuyingPower(Result<String, korea_investment_api::Error>),
}

/// Mathematical content of an [`Event`].
pub enum EventView {
    Launched,
    LoggerReady,
    Arguments(Option<Seq<char>>),
    ConfigRead(Result<Seq<char>, std::io::Error>),
    Connected(Result<(), korea_investment_api::Error>),
    Balance(Result<Seq<char>, korea_investment_api::Error>),
    BuyingPower(Result<Seq<char>, korea_investment_api::Error>),
}

/// Content of the outcome of an inquiry.
pub open spec fn rendering_of(r: Result<String, korea_investment_api::Error>) -> Result<
    Seq<char>,
    korea_investment_api::Error,
> {
    match r {
        Ok(t) => Ok(t@),
        Err(e) => Err(e),
    }
}

impl View for Event {
    type V = EventView;

    open spec fn view(&self) -> EventView {
        match *self {
            Event::Launched => EventView::Launched,
            Event::LoggerReady => EventView::LoggerReady,
            Event::Arguments(p) => EventView::Arguments(text_of(p)),
            Event::ConfigRead(r) => EventView::ConfigRead(contents_of(r)),
            Event::Connected(r) => EventView::Connected(r),
            Event::Balance(r) => EventView::Balance(rendering_of(r)),
            Event::BuyingPower(r) => EventView::BuyingPower(rendering_of(r)),
        }
    }
}

/// What the caller is to do next.
#[derive(Debug)]
pub enum Action {
    /// Set up the logging facility from the environment.
    InitLogger,
    /// Parse the command line.
    ParseArguments,
    /// Read the whole file at this path as text.
    ReadConfig(String),
    /// Open the brokerage client.
    Connect(ClientRequest),
    /// Ask for the stock balance.
    InquireBalance(BalanceQuery),
    /// Ask for the buying power.
    InquireBuyingPower(BuyingPowerQuery),
    /// End the process with exit code zero.
    Exit,
    /// Print the usage and end the process with a nonzero exit code.
    Usage,
    /// Write the diagnostic to standard error and end the process with a
    /// nonzero exit code.
    Fail(RunError),
}

/// Mathematical content of an [`Action`].
pub enum ActionView {
    InitLogger,
    ParseArguments,
    ReadConfig(Seq<char>),
    Connect(ClientRequestView),
    InquireBalance(BalanceQueryView),
    InquireBuyingPower(BuyingPowerQueryView),
    Exit,
    Usage,
    Fail(ErrorView),
}

impl View for Action {
    type V = ActionView;

    open spec fn view(&self) -> ActionView {
        match *self {
            Action::InitLogger => ActionView::InitLogger,
            Action::ParseArguments => ActionView::ParseArguments,
            Action::ReadConfig(p) => ActionView::ReadConfig(p@),
            Action::Connect(r) => ActionView::Connect(r@),
            Action::InquireBalance(q) => ActionView::InquireBalance(q@),
            Action::InquireBuyingPower(q) => ActionView::InquireBuyingPower(q@),
            Action::Exit => ActionView::Exit,
            Action::Usage => ActionView::Usage,
            Action::Fail(e) => ActionView::Fail(e@),
        }
    }
}

/// One move of the machine.
#[derive(Debug)]
pub struct Transition {
    /// The state after the move.
    pub next: State,
    /// A line to write to standard output before the action is performed.
    pub output: Option<String>,
    /// What to do next.
    pub action: Action,
}

/// Mathematical content of a [`Transition`].
pub struct TransitionView {
    pub next: State,
    pub output: Option<Seq<char>>,
    pub action: ActionView,
}

impl View for Transition {
    type V = TransitionView;

    open spec fn view(&self) -> TransitionView {
        TransitionView { next: self.next, output: text_of(self.output), action: self.action@ }
    }
}

/// What precedes the rendering of the balance response on its line.
pub open spec fn balance_label() -> Seq<char> {
    "주식잔고조회 결과: "@
}

/// What precedes the rendering of the buying-power response on its line.
pub open spec fn buying_power_label() -> Seq<char> {
    "매수가능조회 결과: "@
}

/// A move that writes nothing.
pub open spec fn silent(next: State, action: ActionView) -> Option<TransitionView> {
    Some(TransitionView { next, output: None, action })
}

/// The move that ends a run in failure: nothing is written to standard
/// output and nothing further is awaited.
pub open spec fn failure(e: ErrorView) -> Option<TransitionView> {
    silent(State::Done, ActionView::Fail(e))
}

/// The machine itself: the move made in `state` on `event`, or `None` where
/// `state` does not wait for `event`.
pub open spec fn transition(state: State, event: EventView) -> Option<TransitionView> {
    match (state, event) {
        (State::Start, EventView::Launched) => silent(State::Logging, ActionView::InitLogger),
        (State::Logging, EventView::LoggerReady) => silent(
            State::Parsing,
            ActionView::ParseArguments,
        ),
        (State::Parsing, EventView::Arguments(Some(path))) => silent(
            State::Loading,
            ActionView::ReadConfig(path),
        ),
        (State::Parsing, EventView::Arguments(None)) => silent(State::Done, ActionView::Usage),
        (State::Loading, EventView::ConfigRead(contents)) => match loaded(contents) {
            Ok(config) => silent(State::Connecting, ActionView::Connect(request_for(config))),
            Err(e) => failure(e),
        },
        (State::Connecting, EventView::Connected(Ok(_))) => silent(
            State::Balance,
            ActionView::InquireBalance(first_balance_page()),
        ),
        (State::Connecting, EventView::Connected(Err(e))) => failure(ErrorView::ApiError(e)),
        (State::Balance, EventView::Balance(Ok(rendering))) => Some(
            TransitionView {
                next: State::BuyingPower,
                output: Some(balance_label() + rendering),
                action: ActionView::InquireBuyingPower(samsung_market_order()),
            },
        ),
        (State::Balance, EventView::Balance(Err(e))) => failure(ErrorView::ApiError(e)),
        (State::BuyingPower, EventView::BuyingPower(Ok(rendering))) => Some(
            TransitionView {
                next: State::Done,
                output: Some(buying_power_label() + rendering),
                action: ActionView::Exit,
            },
        ),
        (State::BuyingPower, EventView::BuyingPower(Err(e))) => failure(ErrorView::ApiError(e)),
        _ => None,
    }
}

/// Content of an optional move.
pub open spec fn move_of(t: Option<Transition>) -> Option<TransitionView> {
    match t {
        Some(t) => Some(t@),
        None => None,
    }
}

/// A move that writes nothing.
fn quiet(next: State, action: Action) -> (r: Option<Transition>)
    ensures
        move_of(r) == silent(next, action@),
{
    Some(Transition { next, output: None, action })
}

/// The line that reports a response: the label, then the rendering.
pub fn result_line(label: &str, rendering: &str) -> (line: String)
    ensures
        line@ == label@ + rendering@,
{
    label.to_owned().concat(rendering)
}

/// The move that answers a load: with the record, the client is opened with
/// what the record holds; with a failure, the run ends on that failure.
pub fn on_config(loaded: Result<Config, RunError>) -> (t: Transition)
    ensures
        Some(t@) == (match loaded {
            Ok(config) => silent(State::Connecting, ActionView::Connect(request_for(config@))),
            Err(e) => failure(e@),
        }),
        loaded matches Err(e) ==> t.action == Action::Fail(e),
{
    match loaded {
        Ok(config) => Transition {
            next: State::Connecting,
            output: None,
            action: Action::Connect(get_api(&config)),
        },
        Err(e) => Transition { next: State::Done, output: None, action: Action::Fail(e) },
    }
}

/// Makes one move: answers `event` in `state` with the next state, the line
/// to write and the action to perform, exactly as [`transition`] says.
/// Returns `None`, and so leaves the run where it is, exactly where `state`
/// does not wait for `event`.
pub fn step(state: State, event: Event) -> (r: Option<Transition>)
    ensures
        move_of(r) == transition(state, event@),
{
    match (state, event) {
        (State::Start, Event::Launched) => quiet(State::Logging, Action::InitLogger),
        (State::Logging, Event::LoggerReady) => quiet(State::Parsing, Action::ParseArguments),
        (State::Parsing, Event::Arguments(Some(path))) => quiet(
            State::Loading,
            Action::ReadConfig(path),
        ),
        (State::Parsing, Event::Arguments(None)) => quiet(State::Done, Action::Usage),
        (State::Loading, Event::ConfigRead(contents)) => Some(on_config(get_config(contents))),
        (State::Connecting, Event::Connected(Ok(_))) => quiet(
            State::Balance,
            Action::InquireBalance(balance_query()),
        ),
        (State::Connecting, Event::Connected(Err(e))) => quiet(
            State::Done,
            Action::Fail(RunError::ApiError(e)),
        ),
        (State::Balance, Event::Balance(Ok(rendering))) => Some(
            Transition {
                next: State::BuyingPower,
                output: Some(result_line("주식잔고조회 결과: ", rendering.as_str())),
                action: Action::InquireBuyingPower(buying_power_query()),
            },
        ),
        (State::Balance, Event::Balance(Err(e))) => quiet(
            State::Done,
            Action::Fail(RunError::ApiError(e)),
        ),
        (State::BuyingPower, Event::BuyingPower(Ok(rendering))) => Some(
            Transition {
                next: State::Done,
                output: Some(result_line("매수가능조회 결과: ", rendering.as_str())),
                action: Action::Exit,
            },
        ),
        (State::BuyingPower, Event::BuyingPower(Err(e))) => quiet(
            State::Done,
            Action::Fail(RunError::ApiError(e)),
        ),
        _ => None,
    }
}

} // verus!
