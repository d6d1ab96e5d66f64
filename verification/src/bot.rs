//! Where an incoming message goes: to a command, to the page pipeline or to
//! the onboarding dialogue.

use vstd::prelude::*;
use crate::db::{UserDetails, UserDetailsView};
use crate::dialogue::{
    after_command, dialogue_step, handle_command, handle_dialogue, Command, State, StateView,
    Transition, TransitionView,
};
use crate::message::{begin, start, text_read, Message, MessageView, Pipeline, PipelineView};

verus! {

/// What an incoming message leads to.
#[derive(Clone, Debug, PartialEq)]
pub enum Dispatch {
    /// The message was a command; this is what to do about it.
    Command(Transition),
    /// The user is onboarded: the message becomes a page, starting here.
    Page(Pipeline),
    /// The user has no credential: the dialogue makes a step.
    Dialogue(Transition),
}

pub enum DispatchView {
    Command(TransitionView),
    Page(PipelineView),
    Dialogue(TransitionView),
}

impl DeepView for Dispatch {
    type V = DispatchView;

    open spec fn deep_view(&self) -> DispatchView {
        match self {
            Dispatch::Command(transition) => DispatchView::Command(transition.deep_view()),
            Dispatch::Page(pipeline) => DispatchView::Page(pipeline.deep_view()),
            Dispatch::Dialogue(transition) => DispatchView::Dialogue(transition.deep_view()),
        }
    }
}

/// The route of a message. A command comes first. Any other message of a
/// user whose credential is stored goes to the pipeline, whatever the state
/// of the conversation; one of a user without a stored credential goes to
/// the dialogue, under the chat's id as user id.
pub open spec fn routed(
    message: MessageView,
    command: Option<Command>,
    credential: Option<UserDetailsView>,
    state: StateView,
    bot_token: Seq<char>,
    descriptions: Seq<char>,
) -> DispatchView {
    match command {
        Some(given) => DispatchView::Command(
            after_command(given, state, message.chat_id, descriptions),
        ),
        None => match credential {
            Some(details) => DispatchView::Page(
                begin(message, details, bot_token, text_read(message)),
            ),
            None => DispatchView::Dialogue(dialogue_step(state, message.chat_id, message.text)),
        },
    }
}

/// A message of a user without a stored credential never starts a page: it
/// makes a step of the dialogue, which answers with at least one message.
pub proof fn lemma_without_credential_no_page(
    message: MessageView,
    state: StateView,
    bot_token: Seq<char>,
    descriptions: Seq<char>,
)
    ensures
        routed(message, None, None, state, bot_token, descriptions) == DispatchView::Dialogue(
            dialogue_step(state, message.chat_id, message.text),
        ),
        dialogue_step(state, message.chat_id, message.text).messages.len() >= 1,
        forall|command: Option<Command>|
            !(#[trigger] routed(message, command, None, state, bot_token, descriptions) is Page),
{
}

/// Routes an incoming message. `command` is the command that the message
/// holds, if it is one; `credential` is what the credential store has for
/// the chat; `state` is the state of the chat's conversation.
pub fn dispatch(
    message: Message,
    command: Option<Command>,
    credential: Option<UserDetails>,
    state: State,
    bot_token: String,
    descriptions: String,
) -> (route: Dispatch)
    ensures
        route.deep_view() == routed(
            message.deep_view(),
            command,
            credential.deep_view(),
            state.deep_view(),
            bot_token@,
            descriptions@,
        ),
{
    match command {
        Some(given) => Dispatch::Command(
            handle_command(given, state, message.chat_id, descriptions),
        ),
        None => match credential {
            Some(details) => Dispatch::Page(start(message, details, bot_token)),
            None => Dispatch::Dialogue(handle_dialogue(state, message.chat_id, message.text)),
        },
    }
}

} // verus!
