use add_to_notion::constants::{
    CONFIRM_PROMPT, DATABASE_ID_PROMPT, INSTRUCTIONS_MSG, PLAIN_TEXT_PROMPT, RESET_MSG,
    SETUP_COMPLETE_MSG, TOKEN_PROMPT, TRY_AGAIN_MSG,
};
use add_to_notion::db::{StoreEffect, UserDetails};
use add_to_notion::dialogue::{
    handle_command, handle_dialogue, instructions, is_confirmation, receive_confirm,
    receive_database_id, receive_integration_token, Command, Reply, State, Transition,
};

fn plain(text: &str) -> Reply {
    Reply { text: text.to_string(), markdown: false }
}

fn markdown(text: &str) -> Reply {
    Reply { text: text.to_string(), markdown: true }
}

fn confirm_state() -> State {
    State::Confirm { integration_token: "secret_abc".to_string(), database_id: "db42".to_string() }
}

#[test]
fn default_state_is_instructions() {
    assert_eq!(State::default(), State::Instructions);
}

#[test]
fn first_contact_gets_instructions_and_token_prompt() {
    assert_eq!(
        instructions(),
        Transition {
            next: State::ReceiveIntegrationToken,
            messages: vec![markdown(INSTRUCTIONS_MSG), plain(TOKEN_PROMPT)],
            effect: None,
        }
    );
    let step = handle_dialogue(State::Instructions, "7".to_string(), None);
    assert_eq!(step, instructions());
}

#[test]
fn instructions_text_is_unchanged() {
    assert!(INSTRUCTIONS_MSG.starts_with("\n*AddToNotionBot*\nI am your addToNotionBot"));
    assert!(INSTRUCTIONS_MSG.contains("go to settings \nThen"));
    assert!(INSTRUCTIONS_MSG.contains("(https://www\\.notion\\.so/my\\-integrations)"));
    assert!(INSTRUCTIONS_MSG.ends_with("// Use the command `/help` to show this message\n"));
    assert_eq!(INSTRUCTIONS_MSG.len(), 949);
}

#[test]
fn token_is_captured_verbatim() {
    let step = receive_integration_token(Some("  secret_ABC \n".to_string()));
    assert_eq!(
        step,
        Transition {
            next: State::ReceiveDatabaseId { integration_token: "  secret_ABC \n".to_string() },
            messages: vec![plain(DATABASE_ID_PROMPT)],
            effect: None,
        }
    );
}

#[test]
fn textless_message_reprompts_and_stays() {
    assert_eq!(
        receive_integration_token(None),
        Transition {
            next: State::ReceiveIntegrationToken,
            messages: vec![plain(PLAIN_TEXT_PROMPT)],
            effect: None,
        }
    );
    assert_eq!(
        receive_database_id(None, "tok".to_string()),
        Transition {
            next: State::ReceiveDatabaseId { integration_token: "tok".to_string() },
            messages: vec![plain("Send me plain text.")],
            effect: None,
        }
    );
    assert_eq!(
        receive_confirm("7".to_string(), None, "secret_abc".to_string(), "db42".to_string()),
        Transition {
            next: confirm_state(),
            messages: vec![plain(PLAIN_TEXT_PROMPT)],
            effect: None,
        }
    );
}

#[test]
fn database_id_is_captured_and_reported() {
    let step = receive_database_id(Some("db42".to_string()), "secret_abc".to_string());
    assert_eq!(
        step,
        Transition {
            next: confirm_state(),
            messages: vec![
                markdown(CONFIRM_PROMPT),
                plain("Integration Token: secret_abc\nDatabase ID: db42"),
            ],
            effect: None,
        }
    );
}

#[test]
fn yes_in_any_case_and_surrounding_confirms() {
    for answer in ["yes", "YES", "Yes!", "oh yEs please", "yesterday", "éYES✓"] {
        assert!(is_confirmation(answer), "{}", answer);
    }
    for answer in ["", "no", "y e s", "ye", "ja", "y\nes"] {
        assert!(!is_confirmation(answer), "{}", answer);
    }
}

#[test]
fn confirmation_registers_the_captured_texts() {
    let step = receive_confirm(
        "7".to_string(),
        Some("Yes, go".to_string()),
        "secret_abc".to_string(),
        "db42".to_string(),
    );
    assert_eq!(
        step,
        Transition {
            next: State::SetupComplete,
            messages: vec![plain(SETUP_COMPLETE_MSG)],
            effect: Some(StoreEffect::Register(UserDetails {
                user_id: "7".to_string(),
                integration_token: "secret_abc".to_string(),
                database_id: "db42".to_string(),
            })),
        }
    );
}

#[test]
fn anything_else_starts_over() {
    let step = receive_confirm(
        "7".to_string(),
        Some("nope".to_string()),
        "secret_abc".to_string(),
        "db42".to_string(),
    );
    assert_eq!(
        step,
        Transition { next: State::Instructions, messages: vec![plain(TRY_AGAIN_MSG)], effect: None }
    );
}

#[test]
fn whole_onboarding_stores_what_was_sent() {
    let user = "4711".to_string();
    let mut state = State::default();
    let mut effects = vec![];
    for text in [Some("hi"), None, Some("tok en"), None, Some("d-b"), None, Some("YES")] {
        let step = handle_dialogue(state, user.clone(), text.map(|t| t.to_string()));
        assert!(!step.messages.is_empty());
        if let Some(effect) = step.effect {
            effects.push(effect);
        }
        state = step.next;
    }
    assert_eq!(state, State::SetupComplete);
    assert_eq!(
        effects,
        vec![StoreEffect::Register(UserDetails {
            user_id: "4711".to_string(),
            integration_token: "tok en".to_string(),
            database_id: "d-b".to_string(),
        })]
    );
}

#[test]
fn completed_setup_without_credential_starts_over() {
    let step = handle_dialogue(State::SetupComplete, "7".to_string(), Some("hello".to_string()));
    assert_eq!(step, instructions());
}

#[test]
fn reset_deletes_and_restarts_from_any_state() {
    for state in [
        State::Instructions,
        State::ReceiveIntegrationToken,
        State::ReceiveDatabaseId { integration_token: "t".to_string() },
        confirm_state(),
        State::SetupComplete,
    ] {
        let step = handle_command(Command::Reset, state, "7".to_string(), "help".to_string());
        assert_eq!(
            step,
            Transition {
                next: State::Instructions,
                messages: vec![plain(RESET_MSG)],
                effect: Some(StoreEffect::Delete { user_id: "7".to_string() }),
            }
        );
    }
}

#[test]
fn help_shows_the_commands_and_changes_nothing() {
    let step =
        handle_command(Command::Help, confirm_state(), "7".to_string(), "/help /reset".to_string());
    assert_eq!(
        step,
        Transition { next: confirm_state(), messages: vec![plain("/help /reset")], effect: None }
    );
}

#[test]
fn prompts_have_their_wording() {
    assert_eq!(TOKEN_PROMPT, "Please pass me the Notion integration token");
    assert_eq!(DATABASE_ID_PROMPT, "Please send the database id now");
    assert_eq!(PLAIN_TEXT_PROMPT, "Send me plain text.");
    assert_eq!(CONFIRM_PROMPT, "Please confirm the following data with _yes_");
    assert_eq!(SETUP_COMPLETE_MSG, "You can now start feeding your Notion Webdump!");
    assert_eq!(TRY_AGAIN_MSG, "Try again");
    assert_eq!(RESET_MSG, "Try again by sending a message to activate the setup");
}
