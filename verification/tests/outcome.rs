use desktop_shell::{conclude, Outcome, FAILURE_CONTEXT};

#[test]
fn failure_context_names_the_application() {
    assert_eq!(FAILURE_CONTEXT, "error while running tauri application");
}

#[test]
fn clean_return_means_exited() {
    assert_eq!(conclude(Ok(())), Outcome::Exited);
}

#[test]
fn failed_start_is_fatal() {
    assert_eq!(
        conclude(Err(String::from("Setup(\"plugin store failed\")"))),
        Outcome::Fatal {
            message: String::from(
                "error while running tauri application: Setup(\"plugin store failed\")"
            ),
        }
    );
}

#[test]
fn fatal_message_with_empty_detail() {
    assert_eq!(
        conclude(Err(String::new())),
        Outcome::Fatal {
            message: String::from("error while running tauri application: "),
        }
    );
}

#[test]
fn fatal_message_keeps_detail_unchanged() {
    let detail = "Io(Os { code: 98, kind: AddrInUse, message: \"Adresse déjà utilisée\" })";
    match conclude(Err(String::from(detail))) {
        Outcome::Fatal { message } => {
            assert_eq!(message, format!("{}: {}", FAILURE_CONTEXT, detail));
            assert!(message.ends_with(detail));
        }
        Outcome::Exited => panic!("a failed start must be fatal"),
    }
}

#[test]
fn outcome_is_fatal_exactly_on_failure() {
    assert!(matches!(conclude(Ok(())), Outcome::Exited));
    assert!(matches!(
        conclude(Err(String::from("x"))),
        Outcome::Fatal { .. }
    ));
}
