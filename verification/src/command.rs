//! The two commands that run code, as decisions between their steps.
//!
//! A command starts from its argument: without code in it the user is asked
//! for some, with code a request goes to the playground. When the playground
//! has answered, or could not be reached, the command ends with a status and
//! a message. What lies between the two, the sending and the posting, is the
//! caller's.

use vstd::prelude::*;
use vstd::string::*;
use crate::extract::{extracted, parse_code_arg};
use crate::format::{format_code_output, formatted};

verus! {

/// What the indicator on the user's message shows.
#[derive(Clone, Copy, Debug, PartialEq, Eq)]
pub enum Status {
    /// The program was sent and no answer has been shown.
    Pending,
    /// The program ran and succeeded.
    Success,
    /// The program did not build, or ran and failed.
    Failure,
}

/// One run asked of the playground.
#[derive(Clone, Debug, PartialEq, Eq)]
pub struct ExecutionRequest {
    pub channel: String,
    pub edition: String,
    pub code: String,
    pub crate_type: String,
    pub mode: String,
    pub tests: bool,
}

/// What the playground answers.
#[derive(Clone, Debug, PartialEq, Eq)]
pub struct PlaygroundResponse {
    pub success: bool,
    pub stdout: String,
    pub stderr: String,
}

/// How a command starts.
#[derive(Clone, Debug, PartialEq, Eq)]
pub enum Step {
    /// The argument held no code: say `content` and stop.
    Prompt { content: String },
    /// Show `Status::Pending` and send `request`.
    Submit { request: ExecutionRequest },
}

/// How the attempt to run a program ended.
#[derive(Clone, Debug, PartialEq, Eq)]
pub enum Outcome {
    /// The playground answered.
    Answered(PlaygroundResponse),
    /// No answer could be had or read; the text says why.
    Failed(String),
}

/// How a command ends: the status to show and the message to post.
#[derive(Clone, Debug, PartialEq, Eq)]
pub struct Reply {
    pub status: Status,
    pub content: String,
}

/// What a user is told whose argument holds no code.
pub open spec fn prompt_text() -> Seq<char> {
    "Please provide code to be compiled and run."@
}

/// The program that prints the value of the expression `expr`.
pub open spec fn eval_program(expr: Seq<char>) -> Seq<char> {
    "fn main() {println!(\"{:?}\", "@ + expr + ");}"@
}

/// Whether `request` asks for a debug build of the binary `program` on the
/// nightly channel, in the 2018 edition, without tests.
pub open spec fn is_request_for(request: ExecutionRequest, program: Seq<char>) -> bool {
    &&& request.channel@ == "nightly"@
    &&& request.edition@ == "2018"@
    &&& request.code@ == program
    &&& request.crate_type@ == "bin"@
    &&& request.mode@ == "debug"@
    &&& !request.tests
}

/// What is said when the playground gave no answer.
pub open spec fn failure_text(details: Seq<char>) -> Seq<char> {
    "Failed to run code through playground: "@ + details
}

/// The text that is shown for an outcome: what a successful run printed,
/// what a failed one reported, or that there was no answer.
pub open spec fn shown_text(outcome: Outcome) -> Seq<char> {
    match outcome {
        Outcome::Answered(response) => if response.success {
            response.stdout@
        } else {
            response.stderr@
        },
        Outcome::Failed(details) => failure_text(details@),
    }
}

/// The status that is shown for an outcome: success for a run that
/// succeeded, failure for one that failed and for one that gave no answer.
/// No outcome leaves the command pending.
pub open spec fn status_of(outcome: Outcome) -> Status {
    match outcome {
        Outcome::Answered(response) => if response.success {
            Status::Success
        } else {
            Status::Failure
        },
        Outcome::Failed(_) => Status::Failure,
    }
}

impl ExecutionRequest {
    /// The request that runs `program`.
    pub fn new(program: &str) -> (request: ExecutionRequest)
        ensures
            is_request_for(request, program@),
    {
        ExecutionRequest {
            channel: String::from_str("nightly"),
            edition: String::from_str("2018"),
            code: String::from_str(program),
            crate_type: String::from_str("bin"),
            mode: String::from_str("debug"),
            tests: false,
        }
    }
}

/// Writes the program that prints the value of the expression `expr`.
pub fn wrap_expression(expr: &str) -> (program: String)
    ensures
        program@ == eval_program(expr@),
{
    let mut program = String::from_str("fn main() {println!(\"{:?}\", ");
    program.append(expr);
    program.append(");}");
    program
}

/// Starts the command that runs its argument's code as a program.
pub fn play(argument: &str) -> (step: Step)
    ensures
        match extracted(argument@) {
            Some(code) => step matches Step::Submit { request } && is_request_for(request, code),
            None => step matches Step::Prompt { content } && content@ == prompt_text(),
        },
{
    match parse_code_arg(argument) {
        Some(code) => Step::Submit { request: ExecutionRequest::new(code) },
        None => Step::Prompt {
            content: String::from_str("Please provide code to be compiled and run."),
        },
    }
}

/// Starts the command that evaluates its argument's code as an expression.
pub fn eval(argument: &str) -> (step: Step)
    ensures
        match extracted(argument@) {
            Some(code) => step matches Step::Submit { request } && is_request_for(
                request,
                eval_program(code),
            ),
            None => step matches Step::Prompt { content } && content@ == prompt_text(),
        },
{
    match parse_code_arg(argument) {
        Some(code) => {
            let program = wrap_expression(code);
            Step::Submit { request: ExecutionRequest::new(program.as_str()) }
        },
        None => Step::Prompt {
            content: String::from_str("Please provide code to be compiled and run."),
        },
    }
}

/// Ends a command that sent `program`: picks the status that takes the
/// place of the pending one and renders the message for what came back.
pub fn conclude(program: &str, outcome: &Outcome) -> (reply: Reply)
    ensures
        reply.status == status_of(*outcome),
        !(reply.status is Pending),
        reply.content@ == formatted(shown_text(*outcome), program@),
{
    match outcome {
        Outcome::Answered(response) => {
            if response.success {
                Reply {
                    status: Status::Success,
                    content: format_code_output(response.stdout.as_str(), program),
                }
            } else {
                Reply {
                    status: Status::Failure,
                    content: format_code_output(response.stderr.as_str(), program),
                }
            }
        },
        Outcome::Failed(details) => {
            let mut text = String::from_str("Failed to run code through playground: ");
            text.append(details.as_str());
            Reply { status: Status::Failure, content: format_code_output(text.as_str(), program) }
        },
    }
}

} // verus!
