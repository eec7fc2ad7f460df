use chat_core::backend::BackendError;
use chat_core::context::{AiRole, ContextContent, Turn};
use chat_core::session::{
    HotkeyEvent, Session, SessionAction, SessionEvent, SessionPhase,
};

fn assert_context(ctx: &ContextContent, expected: &[(AiRole, &str)]) {
    assert_eq!(ctx.len(), expected.len());
    for (i, (role, content)) in expected.iter().enumerate() {
        assert_eq!(ctx.turn_at(i).role, *role);
        assert_eq!(ctx.turn_at(i).content, *content);
    }
}

#[test]
fn scenario_successful_exchange() {
    let mut session = Session::new(Some("You are an AI assistant."));

    let action = session.step(SessionEvent::CancelChecked { cancelled: false });
    assert!(matches!(action, SessionAction::PollHotkeys));

    let action = session.step(SessionEvent::HotkeyPolled { event: None });
    assert!(matches!(action, SessionAction::PromptForInput { surface: None }));

    let action = session.step(SessionEvent::LineRead {
        line: Some(String::from("2+2?")),
    });
    match action {
        SessionAction::CallBackend { payload } => {
            assert_context(
                &payload,
                &[
                    (AiRole::System, "You are an AI assistant."),
                    (AiRole::User, "2+2?"),
                ],
            );
        }
        _ => panic!("expected a backend call"),
    }

    let reply = Turn::new(AiRole::Assistant, "4");
    let action = session.step(SessionEvent::BackendReturned { reply: Ok(reply) });
    match action {
        SessionAction::PrintReply { content } => assert_eq!(content, "4"),
        _ => panic!("expected the reply to be printed"),
    }

    assert_eq!(session.current_phase(), SessionPhase::AwaitingInput);
    assert_context(
        &session.context_snapshot(),
        &[
            (AiRole::System, "You are an AI assistant."),
            (AiRole::User, "2+2?"),
            (AiRole::Assistant, "4"),
        ],
    );
}

#[test]
fn scenario_backend_failure_keeps_user_turn() {
    let mut session = Session::new(None);

    let action = session.step(SessionEvent::CancelChecked { cancelled: false });
    assert!(matches!(action, SessionAction::PollHotkeys));
    let action = session.step(SessionEvent::HotkeyPolled { event: None });
    assert!(matches!(action, SessionAction::PromptForInput { surface: None }));

    let action = session.step(SessionEvent::LineRead {
        line: Some(String::from("hello")),
    });
    assert!(matches!(action, SessionAction::CallBackend { .. }));

    let failure = BackendError::Transport(String::from("connection refused"));
    let action = session.step(SessionEvent::BackendReturned {
        reply: Err(failure),
    });
    match action {
        SessionAction::PrintDiagnostic { error } => match error {
            BackendError::Transport(message) => assert_eq!(message, "connection refused"),
            _ => panic!("expected a transport failure"),
        },
        _ => panic!("expected a diagnostic"),
    }

    // No Assistant turn was appended; the unanswered User turn remains.
    assert_context(&session.context_snapshot(), &[(AiRole::User, "hello")]);

    // The loop returns to prompting.
    assert_eq!(session.current_phase(), SessionPhase::AwaitingInput);
    let action = session.step(SessionEvent::CancelChecked { cancelled: false });
    assert!(matches!(action, SessionAction::PollHotkeys));
}

#[test]
fn scenario_cancellation_between_two_prompts() {
    let mut session = Session::new(Some("You are an AI assistant."));

    // One full, successful iteration.
    session.step(SessionEvent::CancelChecked { cancelled: false });
    session.step(SessionEvent::HotkeyPolled { event: None });
    session.step(SessionEvent::LineRead {
        line: Some(String::from("hi")),
    });
    session.step(SessionEvent::BackendReturned {
        reply: Ok(Turn::new(AiRole::Assistant, "hello!")),
    });
    let len_before = session.context_snapshot().len();

    // The exit hotkey set the flag before the next prompt.
    let action = session.step(SessionEvent::CancelChecked { cancelled: true });
    assert!(matches!(action, SessionAction::Stop));
    assert_eq!(session.current_phase(), SessionPhase::Terminated);
    assert_eq!(session.context_snapshot().len(), len_before);
}

#[test]
fn cancellation_checked_first_stops_everything() {
    let mut session = Session::new(Some("seed"));
    let action = session.step(SessionEvent::CancelChecked { cancelled: true });
    assert!(matches!(action, SessionAction::Stop));
    assert_eq!(session.current_phase(), SessionPhase::Terminated);
    assert_context(&session.context_snapshot(), &[(AiRole::System, "seed")]);
}

#[test]
fn pending_hotkey_is_surfaced_without_consuming_the_turn() {
    let mut session = Session::new(None);
    session.step(SessionEvent::CancelChecked { cancelled: false });
    let action = session.step(SessionEvent::HotkeyPolled {
        event: Some(HotkeyEvent::SecondaryAction),
    });
    match action {
        SessionAction::PromptForInput { surface } => {
            assert_eq!(surface, Some(HotkeyEvent::SecondaryAction));
        }
        _ => panic!("expected a prompt with the hotkey surfaced"),
    }
    assert_eq!(session.context_snapshot().len(), 0);
}

#[test]
fn end_of_input_terminates() {
    let mut session = Session::new(None);
    session.step(SessionEvent::CancelChecked { cancelled: false });
    session.step(SessionEvent::HotkeyPolled { event: None });
    let action = session.step(SessionEvent::LineRead { line: None });
    assert!(matches!(action, SessionAction::Stop));
    assert_eq!(session.current_phase(), SessionPhase::Terminated);
    assert_eq!(session.context_snapshot().len(), 0);
}

#[test]
fn empty_line_is_forwarded_as_a_normal_turn() {
    let mut session = Session::new(None);
    session.step(SessionEvent::CancelChecked { cancelled: false });
    session.step(SessionEvent::HotkeyPolled { event: None });
    let action = session.step(SessionEvent::LineRead {
        line: Some(String::from("")),
    });
    match action {
        SessionAction::CallBackend { payload } => {
            assert_context(&payload, &[(AiRole::User, "")]);
        }
        _ => panic!("expected a backend call"),
    }
}

#[test]
fn reply_role_is_always_assistant() {
    // Step 6 appends an Assistant turn with the returned content, whatever
    // role the first candidate claimed.
    let mut session = Session::new(None);
    session.step(SessionEvent::CancelChecked { cancelled: false });
    session.step(SessionEvent::HotkeyPolled { event: None });
    session.step(SessionEvent::LineRead {
        line: Some(String::from("hi")),
    });
    session.step(SessionEvent::BackendReturned {
        reply: Ok(Turn::new(AiRole::User, "odd")),
    });
    let ctx = session.context_snapshot();
    assert_eq!(ctx.turn_at(1).role, AiRole::Assistant);
    assert_eq!(ctx.turn_at(1).content, "odd");
}
