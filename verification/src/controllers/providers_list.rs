//! Showing the description of a configured provider.
use vstd::prelude::*;

use crate::entities::llm_provider_kind::LLMProviderKind;

verus! {

/// The command that describes a configured provider.
#[derive(Clone, Copy, Debug)]
pub struct ProvidersListController;

/// Why no provider could be picked.
#[derive(Clone, Copy, Debug, PartialEq, Eq, Structural)]
pub enum ProviderSelectionError {
    /// The configuration holds no provider.
    NoProviders,
    /// The chosen index names no provider.
    FailedToSelect,
}

/// The text of a provider selection error.
pub open spec fn provider_selection_message(e: ProviderSelectionError) -> Seq<char> {
    match e {
        ProviderSelectionError::NoProviders => "You have no providers configured. Add a new one."@,
        ProviderSelectionError::FailedToSelect => "Failed to select LLM provider"@,
    }
}

impl ProviderSelectionError {
    pub fn message(&self) -> (r: String)
        ensures
            r@ == provider_selection_message(*self),
    {
        match self {
            ProviderSelectionError::NoProviders => String::from_str(
                "You have no providers configured. Add a new one.",
            ),
            ProviderSelectionError::FailedToSelect => String::from_str(
                "Failed to select LLM provider",
            ),
        }
    }
}

impl ProvidersListController {
    /// The provider at the chosen index.
    pub fn select_provider_kind(providers: &[LLMProviderKind], idx: usize) -> (r: Result<
        &LLMProviderKind,
        ProviderSelectionError,
    >)
        ensures
            providers@.len() == 0 ==> r == Err::<&LLMProviderKind, ProviderSelectionError>(
                ProviderSelectionError::NoProviders,
            ),
            providers@.len() > 0 && idx >= providers@.len() ==> r == Err::<
                &LLMProviderKind,
                ProviderSelectionError,
            >(ProviderSelectionError::FailedToSelect),
            idx < providers@.len() ==> r == Ok::<&LLMProviderKind, ProviderSelectionError>(
                &providers@[idx as int],
            ),
    {
        if providers.len() == 0 {
            return Err(ProviderSelectionError::NoProviders);
        }
        if idx >= providers.len() {
            return Err(ProviderSelectionError::FailedToSelect);
        }
        Ok(&providers[idx])
    }
}

} // verus!
