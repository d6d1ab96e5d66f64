//! The credential record that onboarding produces, and what the dialogue
//! asks the credential store to do with it.
//!
//! The store itself lives outside this crate. Here it is a map from user id
//! to record, which is all that the contracts need of it.

use vstd::prelude::*;

verus! {

/// What a user supplies once: the integration token and the target database,
/// stored under the user's id.
#[derive(Clone, Default, PartialEq, Debug)]
pub struct UserDetails {
    pub user_id: String,
    pub integration_token: String,
    pub database_id: String,
}

pub struct UserDetailsView {
    pub user_id: Seq<char>,
    pub integration_token: Seq<char>,
    pub database_id: Seq<char>,
}

impl DeepView for UserDetails {
    type V = UserDetailsView;

    open spec fn deep_view(&self) -> UserDetailsView {
        UserDetailsView {
            user_id: self.user_id@,
            integration_token: self.integration_token@,
            database_id: self.database_id@,
        }
    }
}

/// A change that the caller is to make to the credential store.
#[derive(Clone, PartialEq, Debug)]
pub enum StoreEffect {
    /// Store the record under its user id, in place of any earlier one.
    Register(UserDetails),
    /// Remove the record of that user, if there is one.
    Delete { user_id: String },
}

pub enum StoreEffectView {
    Register(UserDetailsView),
    Delete { user_id: Seq<char> },
}

impl DeepView for StoreEffect {
    type V = StoreEffectView;

    open spec fn deep_view(&self) -> StoreEffectView {
        match self {
            StoreEffect::Register(details) => StoreEffectView::Register(details.deep_view()),
            StoreEffect::Delete { user_id } => StoreEffectView::Delete { user_id: user_id@ },
        }
    }
}

/// The credential store as a map: at most one record per user id.
pub type CredentialStore = Map<Seq<char>, UserDetailsView>;

/// The store after the caller has carried out `effect`; unchanged where
/// there is none.
pub open spec fn apply_effect(
    store: CredentialStore,
    effect: Option<StoreEffectView>,
) -> CredentialStore {
    match effect {
        Some(StoreEffectView::Register(details)) => store.insert(details.user_id, details),
        Some(StoreEffectView::Delete { user_id }) => store.remove(user_id),
        None => store,
    }
}

/// The record stored for a user; `None` tells that the user has yet to
/// complete onboarding.
pub open spec fn stored(store: CredentialStore, user_id: Seq<char>) -> Option<UserDetailsView> {
    if store.dom().contains(user_id) {
        Some(store[user_id])
    } else {
        None
    }
}

/// A registered record is the one found under its user id afterwards, and a
/// deleted one is gone; the records of other users stay as they were.
pub proof fn lemma_store_effects(store: CredentialStore, details: UserDetailsView, other: Seq<char>)
    ensures
        stored(apply_effect(store, Some(StoreEffectView::Register(details))), details.user_id)
            == Some(details),
        stored(
            apply_effect(store, Some(StoreEffectView::Delete { user_id: details.user_id })),
            details.user_id,
        ) is None,
        other != details.user_id ==> stored(
            apply_effect(store, Some(StoreEffectView::Register(details))),
            other,
        ) == stored(store, other),
        other != details.user_id ==> stored(
            apply_effect(store, Some(StoreEffectView::Delete { user_id: details.user_id })),
            other,
        ) == stored(store, other),
{
}

} // verus!
