//! One `ask_advisor` call as a state machine: each step takes what the host
//! observed and gives the next thing for the host to do. The checks come
//! before any request, and once a consultation has started its activity is
//! always completed before the call is answered.
use vstd::prelude::*;

use crate::advisor::activity_summary;
use crate::advisor::changed_files_summary;
use crate::advisor::changed_files_text;
use crate::advisor::is_finished_advice;
use crate::advisor::is_request_for;
use crate::advisor::request_failed;
use crate::advisor::settle;
use crate::advisor::tool_output;
use crate::advisor::AdviceCollector;
use crate::advisor::AdvisorArgs;
use crate::advisor::AdvisorHandler;
use crate::advisor::AdvisorRequest;
use crate::advisor::CollectStep;
use crate::advisor::ConsultationEnd;
use crate::advisor::GitStatusOutput;
use crate::advisor::CANCELLED;
use crate::advisor::ENDED_EARLY;
use crate::advisor::INVALID_ARGUMENTS;
use crate::advisor::MAX_ADVICE_CHARS;
use crate::advisor::MISSING_MODEL;
use crate::advisor::REQUEST_FAILED;
use crate::advisor::TIMED_OUT;
use crate::advisor::UNSUPPORTED_PAYLOAD;
use crate::advisor::event_output_text;
use crate::protocol::FunctionCallError;
use crate::protocol::FunctionToolOutput;
use crate::protocol::ReasoningItem;
use crate::protocol::ResponseEvent;
use crate::protocol::ResponseItem;
use crate::protocol::ToolPayload;
use crate::text::take_at_most;

verus! {

/// What interrupted a consultation before its stream finished.
#[derive(Clone, Copy, Debug, PartialEq, Eq)]
pub enum Interruption {
    /// The turn was cancelled.
    Cancelled,
    /// The time limit passed.
    TimedOut,
}

/// What the host observed.
pub enum CallEvent {
    /// The call's JSON arguments were parsed, or the parser's error text.
    ArgumentsParsed(Result<AdvisorArgs, String>),
    /// The conversation so far and what `git status` reported (`None` when
    /// it could not run or timed out).
    ContextGathered { history: Vec<ResponseItem>, git_status: Option<GitStatusOutput> },
    /// The advisor's response stream opened, or the error's text.
    StreamOpened(Result<(), String>),
    /// The next item of the stream (`None` when it has ended).
    StreamItem(Option<Result<ResponseEvent, String>>),
    /// The consultation was interrupted.
    Interrupted(Interruption),
    /// The time the consultation took, as text in seconds.
    Elapsed(String),
    /// The completed activity has been shown.
    ActivityCompleted,
}

/// What the host does next.
pub enum CallAction {
    /// Parse these JSON arguments and report `ArgumentsParsed`.
    ParseArguments(String),
    /// Read the conversation and run `git status`, and report
    /// `ContextGathered`.
    GatherContext,
    /// Look up the model information the request names, show the request's
    /// activity, open the advisor's stream on a new model-client session,
    /// and report `StreamOpened` (or `Interrupted`).
    StartConsultation(AdvisorRequest),
    /// Read the next stream item and report `StreamItem` (or `Interrupted`).
    ReadStream,
    /// Report how long the consultation took with `Elapsed`.
    MeasureElapsed,
    /// Show this completed activity and report `ActivityCompleted`.
    CompleteActivity(ReasoningItem),
    /// Answer the call with this output or error; the call is over.
    Respond(Result<FunctionToolOutput, FunctionCallError>),
}

/// Where an `ask_advisor` call stands.
pub enum AdvisorCall {
    /// Waiting for the parsed arguments.
    AwaitingArguments { call_id: String, advisor_model: Option<String> },
    /// Waiting for the conversation and the repository status.
    AwaitingContext { call_id: String, args: AdvisorArgs, model: String },
    /// The consultation has started; waiting for the stream to open.
    Opening { model: String, activity_id: String },
    /// Reading the advisor's stream.
    Streaming { model: String, activity_id: String, collector: AdviceCollector },
    /// The consultation is over; waiting for the time it took.
    Reporting { model: String, activity_id: String, result: Result<String, FunctionCallError> },
    /// The activity is being completed; the answer follows.
    Finishing { model: String, result: Result<String, FunctionCallError> },
    /// The call has been answered.
    Done,
}

/// Whether `action` answers the call with the error `msg`.
pub open spec fn responds_with_error(action: CallAction, msg: Seq<char>) -> bool {
    action matches CallAction::Respond(Err(e)) && e.message() == msg
}

/// Whether `(state, action)` ends the consultation of `model` with
/// `result`: the host is asked for the time it took.
pub open spec fn reports(
    state: AdvisorCall,
    action: CallAction,
    model: Seq<char>,
    activity_id: Seq<char>,
    result: Result<String, FunctionCallError>,
) -> bool {
    &&& action is MeasureElapsed
    &&& state matches AdvisorCall::Reporting { model: m, activity_id: a, result: r }
    &&& m@ == model
    &&& a@ == activity_id
    &&& r == result
}

/// Whether `(state, action)` ends the consultation of `model` with an
/// error whose text is `msg`.
pub open spec fn reports_error(
    state: AdvisorCall,
    action: CallAction,
    model: Seq<char>,
    activity_id: Seq<char>,
    msg: Seq<char>,
) -> bool {
    &&& action is MeasureElapsed
    &&& state matches AdvisorCall::Reporting { model: m, activity_id: a, result: Err(e) }
    &&& m@ == model
    &&& a@ == activity_id
    &&& e.message() == msg
}

/// The error text for an interruption.
pub open spec fn interruption_message(i: Interruption) -> Seq<char> {
    match i {
        Interruption::Cancelled => CANCELLED@,
        Interruption::TimedOut => TIMED_OUT@,
    }
}

/// A cancellation is reported as a cancelled request and a passed time
/// limit as a timed-out one.
pub proof fn interruptions_report_their_cause()
    ensures
        interruption_message(Interruption::Cancelled) == CANCELLED@,
        interruption_message(Interruption::TimedOut) == TIMED_OUT@,
{
}

impl AdvisorCall {
    /// Whether the call, where it stands, takes `event`.
    pub open spec fn accepts(self, event: CallEvent) -> bool {
        match self {
            AdvisorCall::AwaitingArguments { .. } => event is ArgumentsParsed,
            AdvisorCall::AwaitingContext { .. } => event is ContextGathered,
            AdvisorCall::Opening { .. } => event is StreamOpened || event is Interrupted,
            AdvisorCall::Streaming { .. } => event is StreamItem || event is Interrupted,
            AdvisorCall::Reporting { .. } => event is Elapsed,
            AdvisorCall::Finishing { .. } => event is ActivityCompleted,
            AdvisorCall::Done => false,
        }
    }

    /// Whether a consultation is under way: started, and its activity not
    /// yet completed.
    pub open spec fn is_consulting(self) -> bool {
        self is Opening || self is Streaming || self is Reporting
    }

    /// Starts a call `call_id` with `payload`: a function-call payload's
    /// arguments are to be parsed; any other payload is refused at once.
    pub fn start(payload: &ToolPayload, call_id: &str, advisor_model: Option<String>) -> (res: (
        AdvisorCall,
        CallAction,
    ))
        ensures
            match payload {
                ToolPayload::Function { arguments } => {
                    &&& res.0 matches AdvisorCall::AwaitingArguments { call_id: c, advisor_model: m }
                    &&& c@ == call_id@
                    &&& m == advisor_model
                    &&& res.1 == CallAction::ParseArguments(*arguments)
                },
                _ => res.0 is Done && responds_with_error(res.1, UNSUPPORTED_PAYLOAD@),
            },
    {
        let handler = AdvisorHandler;
        match handler.arguments(payload) {
            Ok(arguments) => (
                AdvisorCall::AwaitingArguments { call_id: String::from_str(call_id), advisor_model },
                CallAction::ParseArguments(arguments),
            ),
            Err(e) => (AdvisorCall::Done, CallAction::Respond(Err(e))),
        }
    }

    /// Takes the next observation and gives the next thing to do.
    pub fn step(self, event: CallEvent) -> (res: (AdvisorCall, CallAction))
        requires
            self.accepts(event),
        ensures
            res.1 is Respond ==> res.0 is Done,
            self.is_consulting() ==> !(res.1 is Respond),
            res.1 is StartConsultation ==> self is AwaitingContext,
            match self {
                AdvisorCall::AwaitingArguments { call_id, advisor_model } => match event {
                    CallEvent::ArgumentsParsed(Err(err)) => res.0 is Done && responds_with_error(
                        res.1,
                        INVALID_ARGUMENTS@ + err@,
                    ),
                    CallEvent::ArgumentsParsed(Ok(args)) => match advisor_model {
                        None => res.0 is Done && responds_with_error(res.1, MISSING_MODEL@),
                        Some(m) => {
                            &&& res.1 is GatherContext
                            &&& res.0 matches AdvisorCall::AwaitingContext {
                                call_id: c,
                                args: a,
                                model: m2,
                            }
                            &&& c == call_id
                            &&& a == args
                            &&& m2@ == m@
                        },
                    },
                    _ => false,
                },
                AdvisorCall::AwaitingContext { call_id, args, model } => match event {
                    CallEvent::ContextGathered { history, git_status } => {
                        &&& res.1 matches CallAction::StartConsultation(req)
                        &&& is_request_for(
                            req,
                            args,
                            model@,
                            history@,
                            changed_files_text(git_status),
                            call_id@,
                        )
                        &&& res.0 matches AdvisorCall::Opening { model: m, activity_id: a }
                        &&& m@ == model@
                        &&& a@ == "advisor-"@ + call_id@
                    },
                    _ => false,
                },
                AdvisorCall::Opening { model, activity_id } => match event {
                    CallEvent::StreamOpened(Ok(())) => {
                        &&& res.1 is ReadStream
                        &&& res.0 matches AdvisorCall::Streaming { model: m, activity_id: a, collector }
                        &&& m == model
                        &&& a == activity_id
                        &&& collector@ == Seq::<char>::empty()
                    },
                    CallEvent::StreamOpened(Err(err)) => reports_error(
                        res.0,
                        res.1,
                        model@,
                        activity_id@,
                        REQUEST_FAILED@ + err@,
                    ),
                    CallEvent::Interrupted(i) => reports_error(
                        res.0,
                        res.1,
                        model@,
                        activity_id@,
                        interruption_message(i),
                    ),
                    _ => false,
                },
                AdvisorCall::Streaming { model, activity_id, collector } => match event {
                    CallEvent::StreamItem(Some(Ok(ResponseEvent::Completed))) => {
                        &&& res.1 is MeasureElapsed
                        &&& res.0 matches AdvisorCall::Reporting { model: m, activity_id: a, result }
                        &&& m == model
                        &&& a == activity_id
                        &&& is_finished_advice(result, collector@)
                    },
                    CallEvent::StreamItem(Some(Ok(e))) => {
                        &&& res.1 is ReadStream
                        &&& res.0 matches AdvisorCall::Streaming { model: m, activity_id: a, collector: c }
                        &&& m == model
                        &&& a == activity_id
                        &&& c@ == take_at_most(collector@ + event_output_text(e), MAX_ADVICE_CHARS as int)
                    },
                    CallEvent::StreamItem(Some(Err(err))) => reports_error(
                        res.0,
                        res.1,
                        model@,
                        activity_id@,
                        REQUEST_FAILED@ + err@,
                    ),
                    CallEvent::StreamItem(None) => reports_error(
                        res.0,
                        res.1,
                        model@,
                        activity_id@,
                        ENDED_EARLY@,
                    ),
                    CallEvent::Interrupted(i) => reports_error(
                        res.0,
                        res.1,
                        model@,
                        activity_id@,
                        interruption_message(i),
                    ),
                    _ => false,
                },
                AdvisorCall::Reporting { model, activity_id, result } => match event {
                    CallEvent::Elapsed(elapsed) => {
                        &&& res.1 matches CallAction::CompleteActivity(item)
                        &&& item.id == activity_id
                        &&& item.summary_text@.len() == 1
                        &&& item.raw_content@.len() == 0
                        &&& match result {
                            Ok(advice) => item.summary_text@[0]@ == "Advisor ("@ + model@
                                + ") reviewed in "@ + elapsed@ + "s:\n"@ + advice@,
                            Err(e) => item.summary_text@[0]@ == "Advisor ("@ + model@
                                + ") failed in "@ + elapsed@ + "s: "@ + e.message(),
                        }
                        &&& res.0 matches AdvisorCall::Finishing { model: m, result: r }
                        &&& m == model
                        &&& r == result
                    },
                    _ => false,
                },
                AdvisorCall::Finishing { model, result } => match event {
                    CallEvent::ActivityCompleted => {
                        &&& res.0 is Done
                        &&& match result {
                            Ok(advice) => res.1 matches CallAction::Respond(Ok(out)) && out.text@
                                == "Advisor ("@ + model@ + "):\n\n"@ + advice@ && out.success
                                == Some(true),
                            Err(e) => res.1 == CallAction::Respond(Err(e)),
                        }
                    },
                    _ => false,
                },
                AdvisorCall::Done => false,
            },
    {
        match self {
            AdvisorCall::AwaitingArguments { call_id, advisor_model } => match event {
                CallEvent::ArgumentsParsed(parsed) => {
                    let handler = AdvisorHandler;
                    match handler.resolve(parsed, &advisor_model) {
                        Ok((args, model)) => (
                            AdvisorCall::AwaitingContext { call_id, args, model },
                            CallAction::GatherContext,
                        ),
                        Err(e) => (AdvisorCall::Done, CallAction::Respond(Err(e))),
                    }
                },
                _ => unreached(),
            },
            AdvisorCall::AwaitingContext { call_id, args, model } => match event {
                CallEvent::ContextGathered { history, git_status } => {
                    let handler = AdvisorHandler;
                    let changed = changed_files_summary(&git_status);
                    let request = handler.build_request(
                        &args,
                        model.as_str(),
                        &history,
                        changed.as_str(),
                        call_id.as_str(),
                    );
                    let activity_id = request.activity.id.clone();
                    (
                        AdvisorCall::Opening { model, activity_id },
                        CallAction::StartConsultation(request),
                    )
                },
                _ => unreached(),
            },
            AdvisorCall::Opening { model, activity_id } => match event {
                CallEvent::StreamOpened(Ok(())) => (
                    AdvisorCall::Streaming { model, activity_id, collector: AdviceCollector::new() },
                    CallAction::ReadStream,
                ),
                CallEvent::StreamOpened(Err(err)) => (
                    AdvisorCall::Reporting {
                        model,
                        activity_id,
                        result: Err(request_failed(err.as_str())),
                    },
                    CallAction::MeasureElapsed,
                ),
                CallEvent::Interrupted(i) => (
                    AdvisorCall::Reporting { model, activity_id, result: interrupted(i) },
                    CallAction::MeasureElapsed,
                ),
                _ => unreached(),
            },
            AdvisorCall::Streaming { model, activity_id, collector } => match event {
                CallEvent::StreamItem(item) => {
                    let mut collector = collector;
                    match collector.on_event(item) {
                        CollectStep::Continue => (
                            AdvisorCall::Streaming { model, activity_id, collector },
                            CallAction::ReadStream,
                        ),
                        CollectStep::Finished(result) => (
                            AdvisorCall::Reporting { model, activity_id, result },
                            CallAction::MeasureElapsed,
                        ),
                    }
                },
                CallEvent::Interrupted(i) => (
                    AdvisorCall::Reporting { model, activity_id, result: interrupted(i) },
                    CallAction::MeasureElapsed,
                ),
                _ => unreached(),
            },
            AdvisorCall::Reporting { model, activity_id, result } => match event {
                CallEvent::Elapsed(elapsed) => {
                    let summary = activity_summary(model.as_str(), elapsed.as_str(), &result);
                    let mut summary_text: Vec<String> = Vec::new();
                    summary_text.push(summary);
                    let item = ReasoningItem {
                        id: activity_id,
                        summary_text,
                        raw_content: Vec::new(),
                    };
                    (AdvisorCall::Finishing { model, result }, CallAction::CompleteActivity(item))
                },
                _ => unreached(),
            },
            AdvisorCall::Finishing { model, result } => match event {
                CallEvent::ActivityCompleted => {
                    let answer = match result {
                        Ok(advice) => Ok(tool_output(model.as_str(), advice.as_str())),
                        Err(e) => Err(e),
                    };
                    (AdvisorCall::Done, CallAction::Respond(answer))
                },
                _ => unreached(),
            },
            AdvisorCall::Done => unreached(),
        }
    }
}

fn interrupted(i: Interruption) -> (res: Result<String, FunctionCallError>)
    ensures
        res matches Err(e) && e.message() == interruption_message(i),
{
    match i {
        Interruption::Cancelled => settle(ConsultationEnd::Cancelled),
        Interruption::TimedOut => settle(ConsultationEnd::TimedOut),
    }
}

} // verus!
