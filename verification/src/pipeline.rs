//! The review pipeline: validate the repository, collect the unstaged
//! changes, build the prompt, interpret the one remote call. The pipeline is
//! a strictly linear state machine; the caller performs the outside work one
//! step at a time and hands each outcome back as an event.

use vstd::prelude::*;
use crate::changes::{changes_of, collect_model, DiffCollector, GitDiff, ToolOutcome};
use crate::error::ReviewError;
use crate::prompt::{build_prompt, build_request_body, prompt_of, request_body_of};
use crate::response::{handle_http_outcome, http_result_ok, HttpOutcome};
use crate::text::{parse_listing, views_of};

verus! {

/// The review client: the credential for the remote service and the target
/// working-tree path, both supplied at construction and never mutated.
#[derive(Debug)]
pub struct CodeReviewer {
    pub api_key: String,
    pub repo_path: String,
}

/// How repository validation must answer the status probe: success passes,
/// a failing status is `NotARepository` carrying the offending path, and an
/// uninvokable tool is the distinct `ToolInvocationFailed`.
pub open spec fn validation_result_ok(
    path: Seq<char>,
    probe: ToolOutcome,
    r: Result<(), ReviewError>,
) -> bool {
    match probe {
        ToolOutcome::Ran { success, stdout, stderr } => if success {
            r is Ok
        } else {
            r matches Err(ReviewError::NotARepository { path: p }) && p@ == path
        },
        ToolOutcome::Failed { message } => r matches Err(
            ReviewError::ToolInvocationFailed { message: m },
        ) && m@ == message@,
    }
}

/// How the start of collection must answer the listing query: an uninvokable
/// or failing listing is fatal (`DiffListFailed`), undecodable output is a
/// fatal `EncodingError`, and good output opens a collector over exactly the
/// listed files.
pub open spec fn listing_result_ok(
    outcome: ToolOutcome,
    r: Result<DiffCollector, ReviewError>,
) -> bool {
    match outcome {
        ToolOutcome::Failed { message } => r matches Err(
            ReviewError::DiffListFailed { message: m },
        ) && m@ == message@,
        ToolOutcome::Ran { success, stdout, stderr } => if !success {
            r matches Err(ReviewError::DiffListFailed { message: m }) && m@ == stderr@
        } else {
            match stdout {
                None => r matches Err(ReviewError::EncodingError),
                Some(text) => r matches Ok(c) && c.wf() && views_of(c.files@) == parse_listing(
                    text@,
                ) && c.next == 0 && c.history@.len() == 0 && c.collected@.len() == 0,
            }
        },
    }
}

/// One of the three terminal states of a review invocation.
#[derive(Debug)]
pub enum Outcome {
    /// The remote service's verdict, to be shown verbatim.
    Reviewed { analysis: String },
    /// Nothing was modified; no request was built and no call was made.
    NothingToReview,
    /// The invocation failed; nothing is retried.
    Failed { error: ReviewError },
}

/// The stages of the pipeline, in the order they are entered.
pub enum Stage {
    Validating,
    Listing,
    Collecting { collector: DiffCollector },
    BuildingPrompt { changes: Vec<GitDiff> },
    Calling { changes: Vec<GitDiff>, request_body: String },
    Done { outcome: Outcome },
}

/// What the outside world hands back to the machine: the outcome of the one
/// piece of outside work the current stage asked for.
pub enum Event {
    StatusProbed { result: ToolOutcome },
    Listed { result: ToolOutcome },
    FileDiffed { result: ToolOutcome },
    PromptBuilt,
    HttpDone { result: HttpOutcome },
}

/// Which event each stage is waiting for. A terminal stage expects none: no
/// stage runs after `Done`, and in particular the one network event is
/// expected only while `Calling`.
pub open spec fn stage_expects(s: Stage, e: Event) -> bool {
    match s {
        Stage::Validating => e is StatusProbed,
        Stage::Listing => e is Listed,
        Stage::Collecting { collector } => e is FileDiffed && collector.next
            < collector.files@.len(),
        Stage::BuildingPrompt { changes } => e is PromptBuilt,
        Stage::Calling { changes, request_body } => e is HttpDone,
        Stage::Done { outcome } => false,
    }
}

pub open spec fn stage_wf(s: Stage) -> bool {
    match s {
        Stage::Collecting { collector } => collector.wf(),
        _ => true,
    }
}

/// How a terminal outcome must relate to the outcome of the remote call: the
/// verdict comes only from a successful extraction, every failure carries
/// the error the call deserved, and a call never ends in `NothingToReview`.
pub open spec fn call_outcome_ok(result: HttpOutcome, outcome: Outcome) -> bool {
    match outcome {
        Outcome::Reviewed { analysis } => http_result_ok(
            result,
            Result::<String, ReviewError>::Ok(analysis),
        ),
        Outcome::Failed { error } => http_result_ok(
            result,
            Result::<String, ReviewError>::Err(error),
        ),
        Outcome::NothingToReview => false,
    }
}

/// The transition relation of the pipeline, one clause per (stage, event)
/// pair that `stage_expects` admits.
pub open spec fn step_spec(pre: Stage, event: Event, post: Stage, repo_path: Seq<char>) -> bool {
    match (pre, event) {
        (Stage::Validating, Event::StatusProbed { result }) => match result {
            ToolOutcome::Ran { success, stdout, stderr } => if success {
                post is Listing
            } else {
                post matches Stage::Done {
                    outcome: Outcome::Failed { error: ReviewError::NotARepository { path } },
                } && path@ == repo_path
            },
            ToolOutcome::Failed { message } => post matches Stage::Done {
                outcome: Outcome::Failed {
                    error: ReviewError::ToolInvocationFailed { message: m },
                },
            } && m@ == message@,
        },
        (Stage::Listing, Event::Listed { result }) => match result {
            ToolOutcome::Failed { message } => post matches Stage::Done {
                outcome: Outcome::Failed { error: ReviewError::DiffListFailed { message: m } },
            } && m@ == message@,
            ToolOutcome::Ran { success, stdout, stderr } => if !success {
                post matches Stage::Done {
                    outcome: Outcome::Failed { error: ReviewError::DiffListFailed { message: m } },
                } && m@ == stderr@
            } else {
                match stdout {
                    None => post matches Stage::Done {
                        outcome: Outcome::Failed { error: ReviewError::EncodingError },
                    },
                    Some(text) => if parse_listing(text@).len() == 0 {
                        post matches Stage::Done { outcome: Outcome::NothingToReview }
                    } else {
                        post matches Stage::Collecting { collector } && collector.wf()
                            && views_of(collector.files@) == parse_listing(text@)
                            && collector.next == 0
                    },
                }
            },
        },
        (Stage::Collecting { collector }, Event::FileDiffed { result }) => {
            let hist = collector.history@.push(
                (collector.files@[collector.next as int]@, result),
            );
            if collector.next + 1 < collector.files@.len() {
                post matches Stage::Collecting { collector: c2 } && c2.wf() && c2.files@
                    == collector.files@ && c2.next == collector.next + 1 && c2.history@ == hist
            } else {
                if collect_model(hist).len() == 0 {
                    post matches Stage::Done { outcome: Outcome::NothingToReview }
                } else {
                    post matches Stage::BuildingPrompt { changes } && changes_of(changes@)
                        == collect_model(hist)
                }
            }
        },
        (Stage::BuildingPrompt { changes }, Event::PromptBuilt) => {
            post matches Stage::Calling { changes: c2, request_body } && c2@ == changes@
                && request_body@ == request_body_of(prompt_of(changes_of(changes@)))
        },
        (Stage::Calling { changes, request_body }, Event::HttpDone { result }) => {
            post matches Stage::Done { outcome } && call_outcome_ok(result, outcome)
        },
        _ => false,
    }
}

impl CodeReviewer {
    /// A review client for the given working tree, authenticating with the given
    /// credential.
    pub fn new_with_api_key(repo_path: String, api_key: String) -> (r: Self)
        ensures
            r.repo_path == repo_path,
            r.api_key == api_key,
    {
        CodeReviewer { api_key, repo_path }
    }

    /// Decides validation from the status probe: the tree is usable exactly
    /// when the status query ran and succeeded.
    pub fn check_repository(&self, probe: ToolOutcome) -> (r: Result<(), ReviewError>)
        ensures
            validation_result_ok(self.repo_path@, probe, r),
    {
        match probe {
            ToolOutcome::Ran { success, stdout, stderr } => if success {
                Ok(())
            } else {
                Err(ReviewError::NotARepository { path: self.repo_path.clone() })
            },
            ToolOutcome::Failed { message } => Err(
                ReviewError::ToolInvocationFailed { message },
            ),
        }
    }

    /// Advances the machine by one event. The whole behaviour of the
    /// pipeline is `step_spec`.
    pub fn step(&self, stage: Stage, event: Event) -> (post: Stage)
        requires
            stage_wf(stage),
            stage_expects(stage, event),
        ensures
            stage_wf(post),
            step_spec(stage, event, post, self.repo_path@),
    {
        match (stage, event) {
            (Stage::Validating, Event::StatusProbed { result }) => {
                match self.check_repository(result) {
                    Ok(()) => Stage::Listing,
                    Err(error) => Stage::Done { outcome: Outcome::Failed { error } },
                }
            },
            (Stage::Listing, Event::Listed { result }) => {
                match start_collection(result) {
                    Err(error) => Stage::Done { outcome: Outcome::Failed { error } },
                    Ok(collector) => {
                        if collector.done() {
                            Stage::Done { outcome: Outcome::NothingToReview }
                        } else {
                            Stage::Collecting { collector }
                        }
                    },
                }
            },
            (Stage::Collecting { collector }, Event::FileDiffed { result }) => {
                let mut collector = collector;
                collector.record(result);
                if !collector.done() {
                    Stage::Collecting { collector }
                } else {
                    let changes = collector.into_changes();
                    if changes.len() == 0 {
                        Stage::Done { outcome: Outcome::NothingToReview }
                    } else {
                        Stage::BuildingPrompt { changes }
                    }
                }
            },
            (Stage::BuildingPrompt { changes }, Event::PromptBuilt) => {
                let prompt = build_prompt(&changes);
                let request_body = build_request_body(prompt.as_str());
                Stage::Calling { changes, request_body }
            },
            (Stage::Calling { changes, request_body }, Event::HttpDone { result }) => {
                match handle_http_outcome(result) {
                    Ok(analysis) => Stage::Done { outcome: Outcome::Reviewed { analysis } },
                    Err(error) => Stage::Done { outcome: Outcome::Failed { error } },
                }
            },
            _ => {
                proof {
                    assert(false);
                }
                Stage::Done { outcome: Outcome::NothingToReview }
            },
        }
    }
}

/// Decides the start of collection from the listing query's outcome, as
/// `listing_result_ok` says.
pub fn start_collection(outcome: ToolOutcome) -> (r: Result<DiffCollector, ReviewError>)
    ensures
        listing_result_ok(outcome, r),
{
    match outcome {
        ToolOutcome::Failed { message } => Err(ReviewError::DiffListFailed { message }),
        ToolOutcome::Ran { success, stdout, stderr } => {
            if !success {
                Err(ReviewError::DiffListFailed { message: stderr })
            } else {
                match stdout {
                    None => Err(ReviewError::EncodingError),
                    Some(text) => Ok(DiffCollector::from_listing(text.as_str())),
                }
            }
        },
    }
}

/// Law: when validation fails, the machine moves straight to a failed
/// terminal state — the failure is `NotARepository` when the tool ran and
/// refused, `ToolInvocationFailed` when it could not run — and a terminal
/// stage expects no further event, so collection, prompt building and the
/// remote call never execute.
pub proof fn lemma_validation_failure_is_terminal(
    event: Event,
    post: Stage,
    repo_path: Seq<char>,
    result: ToolOutcome,
)
    requires
        event == (Event::StatusProbed { result }),
        !(result matches ToolOutcome::Ran { success: true, stdout, stderr }),
        step_spec(Stage::Validating, event, post, repo_path),
    ensures
        post matches Stage::Done { outcome: Outcome::Failed { error } } && (error
            is NotARepository || error is ToolInvocationFailed),
        forall|e: Event| !stage_expects(post, e),
{
}

/// Law: a listing with zero modified files ends the pipeline in the
/// nothing-to-review terminal state; the building and calling stages are
/// never entered, so no request is rendered and no network call is made.
pub proof fn lemma_empty_listing_short_circuits(
    event: Event,
    post: Stage,
    repo_path: Seq<char>,
    text: String,
    stderr: String,
)
    requires
        event == (Event::Listed {
            result: ToolOutcome::Ran { success: true, stdout: Some(text), stderr },
        }),
        parse_listing(text@).len() == 0,
        step_spec(Stage::Listing, event, post, repo_path),
    ensures
        post matches Stage::Done { outcome } && outcome is NothingToReview,
        forall|e: Event| !stage_expects(post, e),
{
}

/// Law: the one network event is expected only while `Calling`; no other
/// stage — in particular no terminal stage — ever asks for it.
pub proof fn lemma_network_only_while_calling(s: Stage, result: HttpOutcome)
    requires
        stage_expects(s, Event::HttpDone { result }),
    ensures
        s is Calling,
{
}

/// Law: a non-success status from the remote service ends the pipeline with
/// `ServiceError` carrying exactly that status — never with a fabricated
/// verdict.
pub proof fn lemma_service_error_is_surfaced(
    pre: Stage,
    event: Event,
    post: Stage,
    repo_path: Seq<char>,
    status: u16,
    body: Option<String>,
)
    requires
        pre is Calling,
        event == (Event::HttpDone { result: HttpOutcome::Responded { status, body } }),
        !crate::response::is_success_status(status),
        step_spec(pre, event, post, repo_path),
    ensures
        post matches Stage::Done {
            outcome: Outcome::Failed { error: ReviewError::ServiceError { status: s, body: b } },
        } && s == status && b@ == crate::response::fallback_body(body),
{
}

/// Law: a reply whose `choices` array is empty ends the pipeline with
/// `EmptyResponse`.
pub proof fn lemma_empty_choices_is_surfaced(
    pre: Stage,
    event: Event,
    post: Stage,
    repo_path: Seq<char>,
    status: u16,
    text: String,
)
    requires
        pre is Calling,
        event == (Event::HttpDone {
            result: HttpOutcome::Responded { status, body: Some(text) },
        }),
        crate::response::is_success_status(status),
        crate::response::reply_of(text@) is Empty,
        step_spec(pre, event, post, repo_path),
    ensures
        post matches Stage::Done { outcome: Outcome::Failed { error } } && error
            is EmptyResponse,
{
}

/// Law: a transport failure ends the pipeline with `TransportError` carrying
/// the transport's message; no result text is produced.
pub proof fn lemma_transport_failure_is_surfaced(
    pre: Stage,
    event: Event,
    post: Stage,
    repo_path: Seq<char>,
    message: String,
)
    requires
        pre is Calling,
        event == (Event::HttpDone { result: HttpOutcome::Failed { message } }),
        step_spec(pre, event, post, repo_path),
    ensures
        post matches Stage::Done {
            outcome: Outcome::Failed { error: ReviewError::TransportError { message: m } },
        } && m@ == message@,
{
}

} // verus!
