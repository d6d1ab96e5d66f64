//! The onboarding dialogue: a conversation that collects the integration
//! token and the database id, has them confirmed and hands them over for
//! storage.
//!
//! Each function takes the state of the conversation and what the user
//! sent, and returns the next state, the messages to send and the change to
//! make to the credential store. The caller sends the messages and makes the
//! change; only when both are done does it keep the next state.

use vstd::prelude::*;
use crate::constants::{
    CONFIRMATION_WORD, CONFIRM_PROMPT, DATABASE_ID_PROMPT, INSTRUCTIONS_MSG, PLAIN_TEXT_PROMPT,
    REPORT_DATABASE_LABEL, REPORT_TOKEN_LABEL, RESET_MSG, SETUP_COMPLETE_MSG, TOKEN_PROMPT,
    TRY_AGAIN_MSG,
};
use crate::db::{
    apply_effect, stored, CredentialStore, StoreEffect, StoreEffectView, UserDetails,
    UserDetailsView,
};
use crate::text::{contains_text, has_substring, lowercase, to_lowercase};

verus! {

/// Where a conversation stands. What one state has captured, the next one
/// carries on unchanged.
#[derive(Clone, Debug, PartialEq)]
pub enum State {
    /// Nothing has been said yet.
    Instructions,
    /// The integration token was asked for.
    ReceiveIntegrationToken,
    /// The database id was asked for.
    ReceiveDatabaseId { integration_token: String },
    /// Token and database id await confirmation.
    Confirm { integration_token: String, database_id: String },
    /// The credential was handed over for storage; messages now become pages.
    SetupComplete,
}

pub enum StateView {
    Instructions,
    ReceiveIntegrationToken,
    ReceiveDatabaseId { integration_token: Seq<char> },
    Confirm { integration_token: Seq<char>, database_id: Seq<char> },
    SetupComplete,
}

impl DeepView for State {
    type V = StateView;

    open spec fn deep_view(&self) -> StateView {
        match self {
            State::Instructions => StateView::Instructions,
            State::ReceiveIntegrationToken => StateView::ReceiveIntegrationToken,
            State::ReceiveDatabaseId { integration_token } => StateView::ReceiveDatabaseId {
                integration_token: integration_token@,
            },
            State::Confirm { integration_token, database_id } => StateView::Confirm {
                integration_token: integration_token@,
                database_id: database_id@,
            },
            State::SetupComplete => StateView::SetupComplete,
        }
    }
}

impl Default for State {
    fn default() -> (state: State)
        ensures
            state == State::Instructions,
    {
        State::Instructions
    }
}

/// A message to send to the chat, as plain text or as MarkdownV2.
#[derive(Clone, Debug, PartialEq)]
pub struct Reply {
    pub text: String,
    pub markdown: bool,
}

pub struct ReplyView {
    pub text: Seq<char>,
    pub markdown: bool,
}

impl DeepView for Reply {
    type V = ReplyView;

    open spec fn deep_view(&self) -> ReplyView {
        ReplyView { text: self.text@, markdown: self.markdown }
    }
}

/// What one incoming message leads to.
#[derive(Clone, Debug, PartialEq)]
pub struct Transition {
    pub next: State,
    pub messages: Vec<Reply>,
    pub effect: Option<StoreEffect>,
}

pub struct TransitionView {
    pub next: StateView,
    pub messages: Seq<ReplyView>,
    pub effect: Option<StoreEffectView>,
}

impl DeepView for Transition {
    type V = TransitionView;

    open spec fn deep_view(&self) -> TransitionView {
        TransitionView {
            next: self.next.deep_view(),
            messages: self.messages.deep_view(),
            effect: self.effect.deep_view(),
        }
    }
}

/// The commands that the bot understands.
#[derive(Clone, Copy, Debug, PartialEq, Eq, Structural)]
pub enum Command {
    /// Show the commands.
    Help,
    /// Forget the user's credential and start onboarding anew.
    Reset,
}

pub open spec fn plain(text: Seq<char>) -> ReplyView {
    ReplyView { text: text, markdown: false }
}

pub open spec fn markdown(text: Seq<char>) -> ReplyView {
    ReplyView { text: text, markdown: true }
}

/// The answer to a message without text: ask for text, change nothing.
pub open spec fn reprompt(state: StateView) -> TransitionView {
    TransitionView { next: state, messages: seq![plain(PLAIN_TEXT_PROMPT@)], effect: None }
}

/// Whatever comes first is answered with the instructions and the request
/// for the integration token.
pub open spec fn after_instructions() -> TransitionView {
    TransitionView {
        next: StateView::ReceiveIntegrationToken,
        messages: seq![markdown(INSTRUCTIONS_MSG@), plain(TOKEN_PROMPT@)],
        effect: None,
    }
}

/// Any text is taken as the integration token, as it stands.
pub open spec fn after_integration_token(text: Option<Seq<char>>) -> TransitionView {
    match text {
        Some(token) => TransitionView {
            next: StateView::ReceiveDatabaseId { integration_token: token },
            messages: seq![plain(DATABASE_ID_PROMPT@)],
            effect: None,
        },
        None => reprompt(StateView::ReceiveIntegrationToken),
    }
}

/// The summary that the user is asked to confirm.
pub open spec fn report(integration_token: Seq<char>, database_id: Seq<char>) -> Seq<char> {
    REPORT_TOKEN_LABEL@ + integration_token + REPORT_DATABASE_LABEL@ + database_id
}

/// Any text is taken as the database id, as it stands, and shown for
/// confirmation next to the token.
pub open spec fn after_database_id(
    text: Option<Seq<char>>,
    integration_token: Seq<char>,
) -> TransitionView {
    match text {
        Some(database_id) => TransitionView {
            next: StateView::Confirm {
                integration_token: integration_token,
                database_id: database_id,
            },
            messages: seq![
                markdown(CONFIRM_PROMPT@),
                plain(report(integration_token, database_id)),
            ],
            effect: None,
        },
        None => reprompt(StateView::ReceiveDatabaseId { integration_token: integration_token }),
    }
}

/// Whether a text confirms: lower-cased, it holds the word "yes" somewhere.
pub open spec fn confirms(text: Seq<char>) -> bool {
    has_substring(lowercase(text), CONFIRMATION_WORD@)
}

/// A confirming text has the credential stored and completes the setup; any
/// other text drops what was captured and starts over.
pub open spec fn after_confirm(
    user_id: Seq<char>,
    text: Option<Seq<char>>,
    integration_token: Seq<char>,
    database_id: Seq<char>,
) -> TransitionView {
    match text {
        Some(answer) => if confirms(answer) {
            TransitionView {
                next: StateView::SetupComplete,
                messages: seq![plain(SETUP_COMPLETE_MSG@)],
                effect: Some(
                    StoreEffectView::Register(
                        UserDetailsView {
                            user_id: user_id,
                            integration_token: integration_token,
                            database_id: database_id,
                        },
                    ),
                ),
            }
        } else {
            TransitionView {
                next: StateView::Instructions,
                messages: seq![plain(TRY_AGAIN_MSG@)],
                effect: None,
            }
        },
        None => reprompt(
            StateView::Confirm { integration_token: integration_token, database_id: database_id },
        ),
    }
}

/// One step of the dialogue. A conversation whose setup is complete gets
/// here only when its credential is gone; it then starts over like a new
/// one.
pub open spec fn dialogue_step(
    state: StateView,
    user_id: Seq<char>,
    text: Option<Seq<char>>,
) -> TransitionView {
    match state {
        StateView::Instructions => after_instructions(),
        StateView::ReceiveIntegrationToken => after_integration_token(text),
        StateView::ReceiveDatabaseId { integration_token } => after_database_id(
            text,
            integration_token,
        ),
        StateView::Confirm { integration_token, database_id } => after_confirm(
            user_id,
            text,
            integration_token,
            database_id,
        ),
        StateView::SetupComplete => after_instructions(),
    }
}

/// What a command leads to, whatever the state: `Help` shows the commands
/// and changes nothing; `Reset` has the user's credential deleted and the
/// conversation start over.
pub open spec fn after_command(
    command: Command,
    state: StateView,
    user_id: Seq<char>,
    descriptions: Seq<char>,
) -> TransitionView {
    match command {
        Command::Help => TransitionView {
            next: state,
            messages: seq![plain(descriptions)],
            effect: None,
        },
        Command::Reset => TransitionView {
            next: StateView::Instructions,
            messages: seq![plain(RESET_MSG@)],
            effect: Some(StoreEffectView::Delete { user_id: user_id }),
        },
    }
}

/// How far a conversation has come.
pub open spec fn progress(state: StateView) -> int {
    match state {
        StateView::Instructions => 0,
        StateView::ReceiveIntegrationToken => 1,
        StateView::ReceiveDatabaseId { .. } => 2,
        StateView::Confirm { .. } => 3,
        StateView::SetupComplete => 4,
    }
}

/// Where a conversation and the credential store stand after the user has
/// sent `inputs` one after the other, each with text or without, and the
/// caller has made each step's change to the store.
pub open spec fn conversation(
    state: StateView,
    store: CredentialStore,
    user_id: Seq<char>,
    inputs: Seq<Option<Seq<char>>>,
) -> (StateView, CredentialStore)
    decreases inputs.len(),
{
    if inputs.len() == 0 {
        (state, store)
    } else {
        let first = dialogue_step(state, user_id, inputs[0]);
        conversation(
            first.next,
            apply_effect(store, first.effect),
            user_id,
            inputs.drop_first(),
        )
    }
}

/// So many messages without text.
pub open spec fn textless(count: nat) -> Seq<Option<Seq<char>>> {
    Seq::new(count, |i: int| None)
}

/// A conversation can be followed in two parts.
pub proof fn lemma_conversation_in_parts(
    state: StateView,
    store: CredentialStore,
    user_id: Seq<char>,
    first: Seq<Option<Seq<char>>>,
    rest: Seq<Option<Seq<char>>>,
)
    ensures
        conversation(state, store, user_id, first + rest) == conversation(
            conversation(state, store, user_id, first).0,
            conversation(state, store, user_id, first).1,
            user_id,
            rest,
        ),
    decreases first.len(),
{
    if first.len() == 0 {
        assert(first + rest =~= rest);
    } else {
        let step = dialogue_step(state, user_id, first[0]);
        assert((first + rest)[0] == first[0]);
        assert((first + rest).drop_first() =~= first.drop_first() + rest);
        lemma_conversation_in_parts(
            step.next,
            apply_effect(store, step.effect),
            user_id,
            first.drop_first(),
            rest,
        );
    }
}

/// A conversation of one message is one step.
pub proof fn lemma_conversation_of_one(
    state: StateView,
    store: CredentialStore,
    user_id: Seq<char>,
    input: Option<Seq<char>>,
)
    ensures
        conversation(state, store, user_id, seq![input]) == (
            dialogue_step(state, user_id, input).next,
            apply_effect(store, dialogue_step(state, user_id, input).effect),
        ),
{
    assert(seq![input].drop_first() =~= Seq::<Option<Seq<char>>>::empty());
    reveal_with_fuel(conversation, 2);
}

/// Once the conversation has begun, messages without text, however many,
/// leave the state and the store as they are.
pub proof fn lemma_textless_messages_change_nothing(
    state: StateView,
    store: CredentialStore,
    user_id: Seq<char>,
    count: nat,
)
    requires
        state != StateView::Instructions,
        state != StateView::SetupComplete,
    ensures
        conversation(state, store, user_id, textless(count)) == (state, store),
    decreases count,
{
    if count > 0 {
        assert(textless(count).drop_first() =~= textless((count - 1) as nat));
        lemma_textless_messages_change_nothing(state, store, user_id, (count - 1) as nat);
    }
}

/// Every setup that ends in a confirming answer stores exactly the two
/// texts that the user sent for the token and the database id: whatever
/// opened the conversation, however many messages without text came in
/// between, and whatever the store held before, the store afterwards holds
/// for the user the token and the database id as sent, and the setup is
/// complete.
pub proof fn lemma_onboarding_stores_what_was_sent(
    store: CredentialStore,
    user_id: Seq<char>,
    opening: Option<Seq<char>>,
    integration_token: Seq<char>,
    database_id: Seq<char>,
    answer: Seq<char>,
    pauses: (nat, nat, nat),
)
    requires
        confirms(answer),
    ensures
        ({
            let inputs = seq![opening] + textless(pauses.0) + seq![Some(integration_token)]
                + textless(pauses.1) + seq![Some(database_id)] + textless(pauses.2) + seq![
                Some(answer),
            ];
            let details = UserDetailsView {
                user_id: user_id,
                integration_token: integration_token,
                database_id: database_id,
            };
            let end = conversation(StateView::Instructions, store, user_id, inputs);
            &&& end.0 == StateView::SetupComplete
            &&& end.1 == store.insert(user_id, details)
            &&& stored(end.1, user_id) == Some(details)
        }),
{
    let start = StateView::Instructions;
    let asked = StateView::ReceiveIntegrationToken;
    let got_token = StateView::ReceiveDatabaseId { integration_token: integration_token };
    let got_both = StateView::Confirm {
        integration_token: integration_token,
        database_id: database_id,
    };
    let i1 = seq![opening];
    let i2 = i1 + textless(pauses.0);
    let i3 = i2 + seq![Some(integration_token)];
    let i4 = i3 + textless(pauses.1);
    let i5 = i4 + seq![Some(database_id)];
    let i6 = i5 + textless(pauses.2);

    lemma_conversation_of_one(start, store, user_id, opening);
    lemma_conversation_in_parts(start, store, user_id, i1, textless(pauses.0));
    lemma_textless_messages_change_nothing(asked, store, user_id, pauses.0);
    assert(conversation(start, store, user_id, i2) == (asked, store));

    lemma_conversation_in_parts(start, store, user_id, i2, seq![Some(integration_token)]);
    lemma_conversation_of_one(asked, store, user_id, Some(integration_token));
    lemma_conversation_in_parts(start, store, user_id, i3, textless(pauses.1));
    lemma_textless_messages_change_nothing(got_token, store, user_id, pauses.1);
    assert(conversation(start, store, user_id, i4) == (got_token, store));

    lemma_conversation_in_parts(start, store, user_id, i4, seq![Some(database_id)]);
    lemma_conversation_of_one(got_token, store, user_id, Some(database_id));
    lemma_conversation_in_parts(start, store, user_id, i5, textless(pauses.2));
    lemma_textless_messages_change_nothing(got_both, store, user_id, pauses.2);
    assert(conversation(start, store, user_id, i6) == (got_both, store));

    lemma_conversation_in_parts(start, store, user_id, i6, seq![Some(answer)]);
    lemma_conversation_of_one(got_both, store, user_id, Some(answer));
}

/// A setup that ends in an answer that does not confirm stores nothing:
/// the store is as it was before the conversation, which is back at its
/// start.
pub proof fn lemma_unconfirmed_onboarding_stores_nothing(
    store: CredentialStore,
    user_id: Seq<char>,
    opening: Option<Seq<char>>,
    integration_token: Seq<char>,
    database_id: Seq<char>,
    answer: Seq<char>,
)
    requires
        !confirms(answer),
    ensures
        conversation(
            StateView::Instructions,
            store,
            user_id,
            seq![opening, Some(integration_token), Some(database_id), Some(answer)],
        ) == (StateView::Instructions, store),
{
    let inputs = seq![opening, Some(integration_token), Some(database_id), Some(answer)];
    let i1 = seq![opening];
    let i2 = i1 + seq![Some(integration_token)];
    let i3 = i2 + seq![Some(database_id)];
    assert(inputs =~= i3 + seq![Some(answer)]);
    let start = StateView::Instructions;
    let asked = StateView::ReceiveIntegrationToken;
    let got_token = StateView::ReceiveDatabaseId { integration_token: integration_token };
    let got_both = StateView::Confirm {
        integration_token: integration_token,
        database_id: database_id,
    };
    lemma_conversation_of_one(start, store, user_id, opening);
    lemma_conversation_in_parts(start, store, user_id, i1, seq![Some(integration_token)]);
    lemma_conversation_of_one(asked, store, user_id, Some(integration_token));
    lemma_conversation_in_parts(start, store, user_id, i2, seq![Some(database_id)]);
    lemma_conversation_of_one(got_token, store, user_id, Some(database_id));
    lemma_conversation_in_parts(start, store, user_id, i3, seq![Some(answer)]);
    lemma_conversation_of_one(got_both, store, user_id, Some(answer));
}

/// A credential is handed over for storage in one case only: the state
/// awaits confirmation and the answer confirms. It then holds the user's id
/// and the two captured texts, unchanged. The dialogue never deletes.
pub proof fn lemma_stores_only_what_was_confirmed(
    state: StateView,
    user_id: Seq<char>,
    text: Option<Seq<char>>,
)
    ensures
        match dialogue_step(state, user_id, text).effect {
            Some(effect) => {
                &&& state matches StateView::Confirm { integration_token, database_id }
                &&& text matches Some(answer)
                &&& confirms(answer)
                &&& effect == StoreEffectView::Register(
                    UserDetailsView {
                        user_id: user_id,
                        integration_token: integration_token,
                        database_id: database_id,
                    },
                )
                &&& dialogue_step(state, user_id, text).next == StateView::SetupComplete
            },
            None => dialogue_step(state, user_id, text).next != StateView::SetupComplete,
        },
{
}

/// An answer that does not confirm sends the conversation back to its
/// start, and the credential store stays as it is.
pub proof fn lemma_unconfirmed_setup_starts_over(
    store: CredentialStore,
    user_id: Seq<char>,
    integration_token: Seq<char>,
    database_id: Seq<char>,
    answer: Seq<char>,
)
    requires
        !confirms(answer),
    ensures
        ({
            let waiting = StateView::Confirm {
                integration_token: integration_token,
                database_id: database_id,
            };
            let last = dialogue_step(waiting, user_id, Some(answer));
            &&& last.next == StateView::Instructions
            &&& last.effect is None
            &&& apply_effect(store, last.effect) == store
        }),
{
}

/// A message without text changes nothing once the conversation has begun:
/// the state stays, nothing is stored, and the user is asked for text.
pub proof fn lemma_textless_message_keeps_state(state: StateView, user_id: Seq<char>)
    requires
        state != StateView::Instructions,
        state != StateView::SetupComplete,
    ensures
        dialogue_step(state, user_id, None) == reprompt(state),
{
}

/// What a state has captured is carried into the next state as it stands.
pub proof fn lemma_captured_texts_carry_forward(
    user_id: Seq<char>,
    integration_token: Seq<char>,
    database_id: Seq<char>,
)
    ensures
        dialogue_step(StateView::ReceiveIntegrationToken, user_id, Some(integration_token)).next
            == (StateView::ReceiveDatabaseId { integration_token: integration_token }),
        dialogue_step(
            StateView::ReceiveDatabaseId { integration_token: integration_token },
            user_id,
            Some(database_id),
        ).next == (StateView::Confirm {
            integration_token: integration_token,
            database_id: database_id,
        }),
{
}

/// No state is skipped: a step stays where it is, moves on by one state, or
/// goes back to the start (a completed setup whose credential is gone
/// starts over with the request for the token). Every step sends something.
pub proof fn lemma_no_state_is_skipped(
    state: StateView,
    user_id: Seq<char>,
    text: Option<Seq<char>>,
)
    ensures
        ({
            let next = dialogue_step(state, user_id, text).next;
            ||| progress(next) == progress(state)
            ||| progress(next) == progress(state) + 1
            ||| next == StateView::Instructions
            ||| state == StateView::SetupComplete && next == StateView::ReceiveIntegrationToken
        }),
        dialogue_step(state, user_id, text).messages.len() >= 1,
{
}

/// A reset has the user's credential deleted and the conversation start
/// over, from whatever state; afterwards the store holds nothing for the
/// user.
pub proof fn lemma_reset_forgets(
    store: CredentialStore,
    state: StateView,
    user_id: Seq<char>,
    descriptions: Seq<char>,
)
    ensures
        after_command(Command::Reset, state, user_id, descriptions).next == StateView::Instructions,
        stored(
            apply_effect(
                store,
                after_command(Command::Reset, state, user_id, descriptions).effect,
            ),
            user_id,
        ) is None,
{
}

fn plain_reply(text: &str) -> (reply: Reply)
    ensures
        reply.deep_view() == plain(text@),
{
    Reply { text: String::from_str(text), markdown: false }
}

fn markdown_reply(text: &str) -> (reply: Reply)
    ensures
        reply.deep_view() == markdown(text@),
{
    Reply { text: String::from_str(text), markdown: true }
}

fn one(reply: Reply) -> (messages: Vec<Reply>)
    ensures
        messages.deep_view() == seq![reply.deep_view()],
{
    let mut messages: Vec<Reply> = Vec::new();
    messages.push(reply);
    assert(messages.deep_view() =~= seq![reply.deep_view()]);
    messages
}

fn two(first: Reply, second: Reply) -> (messages: Vec<Reply>)
    ensures
        messages.deep_view() == seq![first.deep_view(), second.deep_view()],
{
    let mut messages: Vec<Reply> = Vec::new();
    messages.push(first);
    messages.push(second);
    assert(messages.deep_view() =~= seq![first.deep_view(), second.deep_view()]);
    messages
}

fn ask_for_text(state: State) -> (transition: Transition)
    ensures
        transition.deep_view() == reprompt(state.deep_view()),
{
    Transition { next: state, messages: one(plain_reply(PLAIN_TEXT_PROMPT)), effect: None }
}

/// Answers the first message of a conversation.
pub fn instructions() -> (transition: Transition)
    ensures
        transition.deep_view() == after_instructions(),
{
    Transition {
        next: State::ReceiveIntegrationToken,
        messages: two(markdown_reply(INSTRUCTIONS_MSG), plain_reply(TOKEN_PROMPT)),
        effect: None,
    }
}

/// Takes the integration token.
pub fn receive_integration_token(text: Option<String>) -> (transition: Transition)
    ensures
        transition.deep_view() == after_integration_token(text.deep_view()),
{
    match text {
        Some(token) => Transition {
            next: State::ReceiveDatabaseId { integration_token: token },
            messages: one(plain_reply(DATABASE_ID_PROMPT)),
            effect: None,
        },
        None => ask_for_text(State::ReceiveIntegrationToken),
    }
}

/// Takes the database id and asks for confirmation.
pub fn receive_database_id(
    text: Option<String>,
    integration_token: String,
) -> (transition: Transition)
    ensures
        transition.deep_view() == after_database_id(text.deep_view(), integration_token@),
{
    match text {
        Some(database_id) => {
            let summary = String::from_str(REPORT_TOKEN_LABEL).concat(
                integration_token.as_str(),
            ).concat(REPORT_DATABASE_LABEL).concat(database_id.as_str());
            Transition {
                next: State::Confirm { integration_token, database_id },
                messages: two(markdown_reply(CONFIRM_PROMPT), plain_reply(summary.as_str())),
                effect: None,
            }
        },
        None => ask_for_text(State::ReceiveDatabaseId { integration_token }),
    }
}

/// Whether `text` confirms.
pub fn is_confirmation(text: &str) -> (confirmed: bool)
    ensures
        confirmed == confirms(text@),
{
    let lower = to_lowercase(text);
    contains_text(lower.as_str(), CONFIRMATION_WORD)
}

/// Takes the answer to the request for confirmation.
pub fn receive_confirm(
    user_id: String,
    text: Option<String>,
    integration_token: String,
    database_id: String,
) -> (transition: Transition)
    ensures
        transition.deep_view() == after_confirm(
            user_id@,
            text.deep_view(),
            integration_token@,
            database_id@,
        ),
{
    match text {
        Some(answer) => {
            if is_confirmation(answer.as_str()) {
                Transition {
                    next: State::SetupComplete,
                    messages: one(plain_reply(SETUP_COMPLETE_MSG)),
                    effect: Some(
                        StoreEffect::Register(
                            UserDetails { user_id, integration_token, database_id },
                        ),
                    ),
                }
            } else {
                Transition {
                    next: State::Instructions,
                    messages: one(plain_reply(TRY_AGAIN_MSG)),
                    effect: None,
                }
            }
        },
        None => ask_for_text(State::Confirm { integration_token, database_id }),
    }
}

/// Makes one step of the dialogue: from the state of the conversation and
/// the text of the incoming message, if it has any.
pub fn handle_dialogue(
    state: State,
    user_id: String,
    text: Option<String>,
) -> (transition: Transition)
    ensures
        transition.deep_view() == dialogue_step(state.deep_view(), user_id@, text.deep_view()),
{
    match state {
        State::Instructions => instructions(),
        State::ReceiveIntegrationToken => receive_integration_token(text),
        State::ReceiveDatabaseId { integration_token } => receive_database_id(
            text,
            integration_token,
        ),
        State::Confirm { integration_token, database_id } => receive_confirm(
            user_id,
            text,
            integration_token,
            database_id,
        ),
        State::SetupComplete => instructions(),
    }
}

/// Carries out a command. `descriptions` is the list of commands as the
/// chat transport renders it.
pub fn handle_command(
    command: Command,
    state: State,
    user_id: String,
    descriptions: String,
) -> (transition: Transition)
    ensures
        transition.deep_view() == after_command(
            command,
            state.deep_view(),
            user_id@,
            descriptions@,
        ),
{
    match command {
        Command::Help => Transition {
            next: state,
            messages: one(Reply { text: descriptions, markdown: false }),
            effect: None,
        },
        Command::Reset => Transition {
            next: State::Instructions,
            messages: one(plain_reply(RESET_MSG)),
            effect: Some(StoreEffect::Delete { user_id }),
        },
    }
}

} // verus!
