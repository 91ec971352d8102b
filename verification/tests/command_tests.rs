use playbot::command::{
    conclude, eval, play, wrap_expression, ExecutionRequest, Outcome, PlaygroundResponse, Reply,
    Status, Step,
};

fn request_for(program: &str) -> ExecutionRequest {
    ExecutionRequest {
        channel: "nightly".to_string(),
        edition: "2018".to_string(),
        code: program.to_string(),
        crate_type: "bin".to_string(),
        mode: "debug".to_string(),
        tests: false,
    }
}

fn answered(success: bool, stdout: &str, stderr: &str) -> Outcome {
    Outcome::Answered(PlaygroundResponse {
        success,
        stdout: stdout.to_string(),
        stderr: stderr.to_string(),
    })
}

#[test]
fn request_has_the_fixed_shape() {
    let request = ExecutionRequest::new("fn main() {}");
    assert_eq!(request.channel, "nightly");
    assert_eq!(request.edition, "2018");
    assert_eq!(request.code, "fn main() {}");
    assert_eq!(request.crate_type, "bin");
    assert_eq!(request.mode, "debug");
    assert!(!request.tests);
}

#[test]
fn play_submits_the_code() {
    assert_eq!(
        play("```rust\nfn main() {}\n```"),
        Step::Submit { request: request_for("fn main() {}\n") }
    );
    assert_eq!(play("`fn main() {}`"), Step::Submit { request: request_for("fn main() {}") });
}

#[test]
fn play_asks_for_code() {
    let prompt = Step::Prompt { content: "Please provide code to be compiled and run.".to_string() };
    assert_eq!(play(""), prompt);
    assert_eq!(play("   "), prompt);
    assert_eq!(play("fn main() {}"), prompt);
    assert_eq!(play("```rust\nfn main() {}"), prompt);
}

#[test]
fn eval_wraps_the_expression() {
    assert_eq!(
        eval("`1+1`"),
        Step::Submit { request: request_for("fn main() {println!(\"{:?}\", 1+1);}") }
    );
}

#[test]
fn eval_substitutes_the_expression_once() {
    let program = wrap_expression("1+1");
    assert_eq!(program, "fn main() {println!(\"{:?}\", 1+1);}");
    assert_eq!(program.matches("1+1").count(), 1);
}

#[test]
fn eval_wraps_a_fenced_expression() {
    assert_eq!(
        eval("```rust\nvec![1, 2]\n```"),
        Step::Submit { request: request_for("fn main() {println!(\"{:?}\", vec![1, 2]\n);}") }
    );
}

#[test]
fn eval_asks_for_code() {
    let prompt = Step::Prompt { content: "Please provide code to be compiled and run.".to_string() };
    assert_eq!(eval(""), prompt);
    assert_eq!(eval("1+1"), prompt);
    assert_eq!(eval("\n"), prompt);
}

#[test]
fn wrapping_keeps_braces_and_quotes() {
    assert_eq!(wrap_expression(""), "fn main() {println!(\"{:?}\", );}");
    assert_eq!(wrap_expression("{ \"a\" }"), "fn main() {println!(\"{:?}\", { \"a\" });}");
}

#[test]
fn success_shows_stdout() {
    assert_eq!(
        conclude("fn main() {}", &answered(true, "42\n", "")),
        Reply { status: Status::Success, content: "```42\n```".to_string() }
    );
    assert_eq!(
        conclude("fn main() {}", &answered(true, "out", "warning: unused")),
        Reply { status: Status::Success, content: "```out```".to_string() }
    );
}

#[test]
fn failure_shows_stderr() {
    assert_eq!(
        conclude("fn main() {", &answered(false, "partial", "error: unclosed delimiter")),
        Reply { status: Status::Failure, content: "```error: unclosed delimiter```".to_string() }
    );
}

#[test]
fn missing_answer_is_reported() {
    assert_eq!(
        conclude("fn main() {}", &Outcome::Failed("connection refused".to_string())),
        Reply {
            status: Status::Failure,
            content: "```Failed to run code through playground: connection refused```"
                .to_string(),
        }
    );
}

#[test]
fn long_stdout_links_the_submitted_program() {
    let program = wrap_expression("\"x\".repeat(3000)");
    let reply = conclude(&program, &answered(true, &"x".repeat(3002), ""));
    let link = "https://play.rust-lang.org?code=\
        fn+main%28%29+%7Bprintln%21%28%22%7B%3A%3F%7D%22%2C+%22x%22.repeat%283000%29%29%3B%7D";
    assert_eq!(reply.status, Status::Success);
    assert_eq!(reply.content, format!("```{}...```{}", "x".repeat(1991 - link.len()), link));
    assert_eq!(reply.content.len(), 2000);
}

#[test]
fn long_stderr_is_cut() {
    let reply = conclude("`", &answered(false, "", &"e".repeat(2000)));
    let link = "https://play.rust-lang.org?code=%60";
    assert_eq!(reply.status, Status::Failure);
    assert_eq!(reply.content, format!("```{}...```{}", "e".repeat(1991 - link.len()), link));
}

#[test]
fn long_failure_details_are_cut() {
    let reply = conclude("x", &Outcome::Failed("d".repeat(2000)));
    let text = format!("Failed to run code through playground: {}", "d".repeat(2000));
    let link = "https://play.rust-lang.org?code=x";
    assert_eq!(reply.status, Status::Failure);
    assert_eq!(reply.content, format!("```{}...```{}", &text[..1991 - link.len()], link));
}

#[test]
fn no_outcome_leaves_the_command_pending() {
    let outcomes = [
        answered(true, "out", "err"),
        answered(false, "out", "err"),
        Outcome::Failed("timed out".to_string()),
    ];
    for outcome in outcomes.iter() {
        assert_ne!(conclude("fn main() {}", outcome).status, Status::Pending);
    }
}
