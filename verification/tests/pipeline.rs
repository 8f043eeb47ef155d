use code_reviewer::{CodeReviewer, Event, HttpOutcome, Outcome, ReviewError, Stage, ToolOutcome};

fn reviewer() -> CodeReviewer {
    CodeReviewer::new_with_api_key("/tmp/test".to_string(), "test_key".to_string())
}

fn ran(success: bool, stdout: Option<&str>) -> ToolOutcome {
    ToolOutcome::Ran {
        success,
        stdout: stdout.map(|s| s.to_string()),
        stderr: String::new(),
    }
}

#[test]
fn test_validate_git_repository_valid() {
    let r = reviewer();
    let result = r.check_repository(ran(true, Some("")));
    assert!(result.is_ok());
}

#[test]
fn test_validate_git_repository_invalid() {
    let r = reviewer();
    let result = r.check_repository(ran(false, None));
    assert!(result.is_err());
    assert!(result.unwrap_err().message().contains("not a git repository"));
}

#[test]
fn validation_failure_aborts_the_pipeline() {
    let r = reviewer();
    let next = r.step(Stage::Validating, Event::StatusProbed { result: ran(false, None) });
    match next {
        Stage::Done { outcome: Outcome::Failed { error } } => {
            assert_eq!(
                error,
                ReviewError::NotARepository { path: "/tmp/test".to_string() }
            );
        }
        _ => panic!("expected a failed terminal stage"),
    }
}

#[test]
fn tool_invocation_failure_is_distinct() {
    let r = reviewer();
    let next = r.step(
        Stage::Validating,
        Event::StatusProbed {
            result: ToolOutcome::Failed { message: "git not found".to_string() },
        },
    );
    match next {
        Stage::Done { outcome: Outcome::Failed { error } } => {
            assert_eq!(
                error,
                ReviewError::ToolInvocationFailed { message: "git not found".to_string() }
            );
        }
        _ => panic!("expected a failed terminal stage"),
    }
}

#[test]
fn scenario_no_modifications_makes_no_call() {
    let r = reviewer();
    let stage = r.step(Stage::Validating, Event::StatusProbed { result: ran(true, Some("")) });
    assert!(matches!(stage, Stage::Listing));
    let stage = r.step(stage, Event::Listed { result: ran(true, Some("")) });
    match stage {
        Stage::Done { outcome } => assert!(matches!(outcome, Outcome::NothingToReview)),
        _ => panic!("expected the nothing-to-review terminal stage"),
    }
}

#[test]
fn scenario_one_modified_file_reaches_the_service() {
    let r = reviewer();
    let stage = r.step(Stage::Validating, Event::StatusProbed { result: ran(true, Some("")) });
    let stage = r.step(stage, Event::Listed { result: ran(true, Some("a.txt\n")) });
    let stage = match stage {
        Stage::Collecting { ref collector } => {
            assert_eq!(collector.next_file().unwrap().as_str(), "a.txt");
            r.step(
                stage,
                Event::FileDiffed { result: ran(true, Some("-x\n+y\n")) },
            )
        }
        _ => panic!("expected the collecting stage"),
    };
    let stage = match stage {
        Stage::BuildingPrompt { ref changes } => {
            assert_eq!(changes.len(), 1);
            assert_eq!(changes[0].file_path, "a.txt");
            assert!(changes[0].content.contains("x"));
            assert!(changes[0].content.contains("y"));
            r.step(stage, Event::PromptBuilt)
        }
        _ => panic!("expected the prompt-building stage"),
    };
    let stage = match stage {
        Stage::Calling { ref request_body, .. } => {
            assert!(request_body.contains("a.txt"));
            assert!(request_body.contains("### File: a.txt"));
            let reply = "{\"choices\":[{\"message\":{\"content\":\"no breaking changes\"}}]}";
            r.step(
                stage,
                Event::HttpDone {
                    result: HttpOutcome::Responded {
                        status: 200,
                        body: Some(reply.to_string()),
                    },
                },
            )
        }
        _ => panic!("expected the calling stage"),
    };
    match stage {
        Stage::Done { outcome: Outcome::Reviewed { analysis } } => {
            assert_eq!(analysis, "no breaking changes");
        }
        _ => panic!("expected the reviewed terminal stage"),
    }
}

#[test]
fn scenario_unreachable_service_is_transport_error() {
    let r = reviewer();
    let stage = r.step(Stage::Validating, Event::StatusProbed { result: ran(true, Some("")) });
    let stage = r.step(stage, Event::Listed { result: ran(true, Some("a.txt\n")) });
    let stage = r.step(stage, Event::FileDiffed { result: ran(true, Some("-x\n+y\n")) });
    let stage = r.step(stage, Event::PromptBuilt);
    let stage = r.step(
        stage,
        Event::HttpDone {
            result: HttpOutcome::Failed { message: "dns error".to_string() },
        },
    );
    match stage {
        Stage::Done { outcome: Outcome::Failed { error } } => {
            assert_eq!(error, ReviewError::TransportError { message: "dns error".to_string() });
        }
        _ => panic!("expected the transport-error terminal stage"),
    }
}

#[test]
fn non_success_status_surfaces_service_error() {
    let r = reviewer();
    let stage = r.step(Stage::Validating, Event::StatusProbed { result: ran(true, Some("")) });
    let stage = r.step(stage, Event::Listed { result: ran(true, Some("a.txt\n")) });
    let stage = r.step(stage, Event::FileDiffed { result: ran(true, Some("-x\n+y\n")) });
    let stage = r.step(stage, Event::PromptBuilt);
    let stage = r.step(
        stage,
        Event::HttpDone {
            result: HttpOutcome::Responded { status: 503, body: Some("busy".to_string()) },
        },
    );
    match stage {
        Stage::Done { outcome: Outcome::Failed { error } } => {
            assert_eq!(
                error,
                ReviewError::ServiceError { status: 503, body: "busy".to_string() }
            );
        }
        _ => panic!("expected the service-error terminal stage"),
    }
}

#[test]
fn empty_choices_surfaces_empty_response() {
    let r = reviewer();
    let stage = r.step(Stage::Validating, Event::StatusProbed { result: ran(true, Some("")) });
    let stage = r.step(stage, Event::Listed { result: ran(true, Some("a.txt\n")) });
    let stage = r.step(stage, Event::FileDiffed { result: ran(true, Some("-x\n+y\n")) });
    let stage = r.step(stage, Event::PromptBuilt);
    let stage = r.step(
        stage,
        Event::HttpDone {
            result: HttpOutcome::Responded {
                status: 200,
                body: Some("{\"choices\":[]}".to_string()),
            },
        },
    );
    match stage {
        Stage::Done { outcome: Outcome::Failed { error } } => {
            assert_eq!(error, ReviewError::EmptyResponse);
        }
        _ => panic!("expected the empty-response terminal stage"),
    }
}

#[test]
fn all_blank_diffs_end_in_nothing_to_review() {
    let r = reviewer();
    let stage = r.step(Stage::Validating, Event::StatusProbed { result: ran(true, Some("")) });
    let stage = r.step(stage, Event::Listed { result: ran(true, Some("a.txt\nb.txt\n")) });
    let stage = r.step(stage, Event::FileDiffed { result: ran(true, Some("  \n")) });
    let stage = r.step(
        stage,
        Event::FileDiffed {
            result: ToolOutcome::Failed { message: "flaky".to_string() },
        },
    );
    match stage {
        Stage::Done { outcome } => assert!(matches!(outcome, Outcome::NothingToReview)),
        _ => panic!("expected the nothing-to-review terminal stage"),
    }
}

#[test]
fn failed_listing_is_fatal() {
    let r = reviewer();
    let stage = r.step(Stage::Validating, Event::StatusProbed { result: ran(true, Some("")) });
    let stage = r.step(
        stage,
        Event::Listed {
            result: ToolOutcome::Ran {
                success: false,
                stdout: None,
                stderr: "fatal: bad revision".to_string(),
            },
        },
    );
    match stage {
        Stage::Done { outcome: Outcome::Failed { error } } => {
            assert_eq!(
                error,
                ReviewError::DiffListFailed { message: "fatal: bad revision".to_string() }
            );
        }
        _ => panic!("expected the diff-list-failed terminal stage"),
    }
}

#[test]
fn undecodable_listing_is_encoding_error() {
    let r = reviewer();
    let stage = r.step(Stage::Validating, Event::StatusProbed { result: ran(true, Some("")) });
    let stage = r.step(stage, Event::Listed { result: ran(true, None) });
    match stage {
        Stage::Done { outcome: Outcome::Failed { error } } => {
            assert_eq!(error, ReviewError::EncodingError);
        }
        _ => panic!("expected the encoding-error terminal stage"),
    }
}
