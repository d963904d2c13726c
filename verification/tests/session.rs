use git_acm::error::{DiffError, GenerationError};
use git_acm::provider::Provider;
use git_acm::session::{
    begin, commit_report, key_hint, msg_handler, run_git_commit, step, Effect, Failure,
    InputAction, Key, KeyKind, LoopEvent, LoopState, Notice, TerminalEvent, Transition,
};

fn press(key: Key) -> TerminalEvent {
    TerminalEvent::Key { key, kind: KeyKind::Press }
}

fn awaiting(message: &str) -> LoopState {
    LoopState::Awaiting(message.to_string())
}

fn input(event: TerminalEvent) -> LoopEvent {
    LoopEvent::Input(Some(event))
}

fn commit(message: &str) -> Effect {
    Effect::Commit(vec!["commit".to_string(), "-m".to_string(), message.to_string()])
}

#[test]
fn keys_are_read_as_actions() {
    assert_eq!(msg_handler(press(Key::Enter)), Some(InputAction::Accept));
    assert_eq!(msg_handler(press(Key::Char('r'))), Some(InputAction::Retry));
    assert_eq!(msg_handler(press(Key::Char('q'))), Some(InputAction::Quit));
}

#[test]
fn other_events_ask_for_nothing() {
    assert_eq!(msg_handler(press(Key::Char('R'))), None);
    assert_eq!(msg_handler(press(Key::Char('Q'))), None);
    assert_eq!(msg_handler(press(Key::Char('\n'))), None);
    assert_eq!(msg_handler(press(Key::Char(' '))), None);
    assert_eq!(msg_handler(press(Key::Char('a'))), None);
    assert_eq!(msg_handler(press(Key::Other)), None);
    assert_eq!(msg_handler(TerminalEvent::Other), None);
    for kind in [KeyKind::Release, KeyKind::Repeat] {
        for key in [Key::Enter, Key::Char('r'), Key::Char('q'), Key::Other] {
            assert_eq!(msg_handler(TerminalEvent::Key { key, kind }), None);
        }
    }
}

#[test]
fn key_hint_names_the_three_keys() {
    assert_eq!(key_hint(), "[enter]: accept | [r]: get a new commit message | [q]: exit");
}

#[test]
fn round_begins_with_a_generation() {
    assert_eq!(
        begin(),
        Transition { next: LoopState::Prompting, effects: vec![Effect::Generate] }
    );
}

#[test]
fn generated_message_is_shown_and_a_key_awaited() {
    for auto_commit in [false, true] {
        assert_eq!(
            step(
                LoopState::Prompting,
                LoopEvent::Generated(Ok("fix: a".to_string())),
                auto_commit
            ),
            Transition {
                next: awaiting("fix: a"),
                effects: vec![
                    Effect::Show("fix: a".to_string()),
                    Effect::ShowKeys,
                    Effect::AwaitKey,
                ],
            }
        );
    }
}

#[test]
fn failed_generation_ends_the_round() {
    let errors = [
        GenerationError::MissingCredential,
        GenerationError::MissingPrompt,
        GenerationError::Diff(DiffError::NothingStaged),
        GenerationError::Diff(DiffError::NotARepository),
        GenerationError::Diff(DiffError::Unreadable),
        GenerationError::Network,
        GenerationError::Parse,
        GenerationError::EmptyResponse,
    ];
    for error in errors {
        let result = step(LoopState::Prompting, LoopEvent::Generated(Err(error)), true);
        assert_eq!(
            result,
            Transition {
                next: LoopState::Failed(Failure::Generation(error)),
                effects: vec![Effect::Report(Failure::Generation(error))],
            }
        );
        assert_eq!(result.next.exit_code(), Some(1));
    }
}

#[test]
fn empty_message_counts_as_no_response() {
    assert_eq!(
        step(LoopState::Prompting, LoopEvent::Generated(Ok(String::new())), true),
        Transition {
            next: LoopState::Failed(Failure::Generation(GenerationError::EmptyResponse)),
            effects: vec![Effect::Report(Failure::Generation(GenerationError::EmptyResponse))],
        }
    );
}

#[test]
fn accept_with_auto_commit_commits_the_shown_message() {
    let shown = step(
        LoopState::Prompting,
        LoopEvent::Generated(Ok("feat: add \"x\"".to_string())),
        true,
    );
    assert_eq!(shown.effects[0], Effect::Show("feat: add \"x\"".to_string()));
    let result = step(shown.next, input(press(Key::Enter)), true);
    assert_eq!(
        result,
        Transition {
            next: LoopState::Accepted,
            effects: vec![
                Effect::Show("feat: add \"x\"".to_string()),
                Effect::Copy("feat: add \"x\"".to_string()),
                commit("feat: add \"x\""),
            ],
        }
    );
    assert_eq!(result.next.exit_code(), Some(0));
}

#[test]
fn accept_without_auto_commit_never_commits() {
    let result = step(awaiting("feat: y"), input(press(Key::Enter)), false);
    assert_eq!(
        result,
        Transition {
            next: LoopState::Accepted,
            effects: vec![Effect::Show("feat: y".to_string()), Effect::Copy("feat: y".to_string())],
        }
    );
    assert!(!result.effects.iter().any(|e| matches!(e, Effect::Commit(_))));
}

#[test]
fn no_step_commits_while_auto_commit_is_off() {
    let states = || {
        vec![
            LoopState::Prompting,
            awaiting("m"),
            LoopState::Accepted,
            LoopState::Quit,
            LoopState::Failed(Failure::Input),
        ]
    };
    let events = || {
        vec![
            LoopEvent::Generated(Ok("m".to_string())),
            LoopEvent::Generated(Err(GenerationError::Network)),
            LoopEvent::Input(None),
            input(press(Key::Enter)),
            input(press(Key::Char('r'))),
            input(press(Key::Char('q'))),
            input(TerminalEvent::Other),
        ]
    };
    for (i, _) in states().iter().enumerate() {
        for (j, _) in events().iter().enumerate() {
            let result = step(states().remove(i), events().remove(j), false);
            assert!(!result.effects.iter().any(|e| matches!(e, Effect::Commit(_))));
            let result = step(states().remove(i), events().remove(j), true);
            let commits = result.effects.iter().any(|e| matches!(e, Effect::Commit(_)));
            assert_eq!(commits, i == 1 && j == 3);
        }
    }
}

#[test]
fn retry_asks_for_a_new_message() {
    for auto_commit in [false, true] {
        assert_eq!(
            step(awaiting("old"), input(press(Key::Char('r'))), auto_commit),
            Transition {
                next: LoopState::Prompting,
                effects: vec![Effect::Announce(Notice::Retrying), Effect::Generate],
            }
        );
    }
}

#[test]
fn quit_does_nothing_more() {
    for auto_commit in [false, true] {
        let result = step(awaiting("m"), input(press(Key::Char('q'))), auto_commit);
        assert_eq!(
            result,
            Transition { next: LoopState::Quit, effects: vec![Effect::Announce(Notice::Exiting)] }
        );
        assert_eq!(result.next.exit_code(), Some(0));
    }
}

#[test]
fn unrecognised_event_keeps_waiting() {
    for event in [
        press(Key::Char('x')),
        press(Key::Other),
        TerminalEvent::Other,
        TerminalEvent::Key { key: Key::Enter, kind: KeyKind::Release },
    ] {
        assert_eq!(
            step(awaiting("m"), input(event), true),
            Transition { next: awaiting("m"), effects: vec![Effect::AwaitKey] }
        );
    }
}

#[test]
fn unreadable_terminal_fails_the_round() {
    let result = step(awaiting("m"), LoopEvent::Input(None), true);
    assert_eq!(
        result,
        Transition {
            next: LoopState::Failed(Failure::Input),
            effects: vec![Effect::Report(Failure::Input)],
        }
    );
    assert_eq!(result.next.exit_code(), Some(1));
}

#[test]
fn events_out_of_turn_change_nothing() {
    assert_eq!(
        step(LoopState::Prompting, input(press(Key::Enter)), true),
        Transition { next: LoopState::Prompting, effects: vec![] }
    );
    assert_eq!(
        step(LoopState::Prompting, LoopEvent::Input(None), true),
        Transition { next: LoopState::Prompting, effects: vec![] }
    );
    assert_eq!(
        step(awaiting("m"), LoopEvent::Generated(Ok("n".to_string())), true),
        Transition { next: awaiting("m"), effects: vec![] }
    );
}

#[test]
fn final_states_stay() {
    for auto_commit in [false, true] {
        assert_eq!(
            step(LoopState::Accepted, input(press(Key::Enter)), auto_commit),
            Transition { next: LoopState::Accepted, effects: vec![] }
        );
        assert_eq!(
            step(LoopState::Quit, LoopEvent::Generated(Ok("m".to_string())), auto_commit),
            Transition { next: LoopState::Quit, effects: vec![] }
        );
        assert_eq!(
            step(LoopState::Failed(Failure::Input), input(press(Key::Char('r'))), auto_commit),
            Transition { next: LoopState::Failed(Failure::Input), effects: vec![] }
        );
    }
}

#[test]
fn retry_runs_through_a_second_generation() {
    let first = begin();
    assert_eq!(first.effects, vec![Effect::Generate]);
    let shown = step(first.next, LoopEvent::Generated(Ok("one".to_string())), true);
    let retried = step(shown.next, input(press(Key::Char('r'))), true);
    assert_eq!(retried.next, LoopState::Prompting);
    let shown = step(retried.next, LoopEvent::Generated(Ok("two".to_string())), true);
    assert_eq!(shown.next, awaiting("two"));
    let accepted = step(shown.next, input(press(Key::Enter)), true);
    assert_eq!(accepted.effects.last(), Some(&commit("two")));
}

#[test]
fn exit_codes_follow_the_state() {
    assert_eq!(LoopState::Prompting.exit_code(), None);
    assert_eq!(awaiting("m").exit_code(), None);
    assert_eq!(LoopState::Accepted.exit_code(), Some(0));
    assert_eq!(LoopState::Quit.exit_code(), Some(0));
    assert_eq!(LoopState::Failed(Failure::Input).exit_code(), Some(1));
    assert_eq!(
        LoopState::Failed(Failure::Generation(GenerationError::Diff(DiffError::NothingStaged)))
            .exit_code(),
        Some(1)
    );
}

#[test]
fn commit_takes_the_message_word_for_word() {
    assert_eq!(
        run_git_commit(true, "fix: keep \"quotes\" and\nlines "),
        Some(vec![
            "commit".to_string(),
            "-m".to_string(),
            "fix: keep \"quotes\" and\nlines ".to_string(),
        ])
    );
    assert_eq!(run_git_commit(false, "fix: a"), None);
    assert_eq!(
        run_git_commit(true, ""),
        Some(vec!["commit".to_string(), "-m".to_string(), String::new()])
    );
}

#[test]
fn commit_outcome_is_reported() {
    assert_eq!(
        commit_report(None),
        vec![
            "committed.".to_string(),
            " run `git push` to push the changes to the repo".to_string(),
        ]
    );
    assert_eq!(
        commit_report(Some("hook rejected")),
        vec!["couldn't commit error : hook rejected".to_string()]
    );
}

#[test]
fn notices_have_their_words() {
    assert_eq!(Notice::Retrying.text(), "getting a new message...");
    assert_eq!(Notice::Exiting.text(), "exiting...");
}

#[test]
fn failures_have_their_words() {
    assert_eq!(Failure::Input.explain(Provider::OpenRouter), "invalid input");
    assert_eq!(
        Failure::Generation(GenerationError::EmptyResponse).explain(Provider::OpenRouter),
        "got no response"
    );
    assert_eq!(
        Failure::Generation(GenerationError::MissingCredential).explain(Provider::Gemini),
        "either export the GEMINI_API_KEY in terminal or define them in .env"
    );
}
