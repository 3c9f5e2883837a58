//! Removing a configured provider.
use vstd::prelude::*;

use crate::controllers::providers_list::ProviderSelectionError;
use crate::entities::llm_provider_kind::LLMProviderKind;

verus! {

/// The command that removes a configured provider.
#[derive(Clone, Copy, Debug)]
pub struct ProvidersDeleteController;

impl ProvidersDeleteController {
    /// The index of the provider to remove, refused when there is none.
    pub fn select_provider_idx(providers: &[LLMProviderKind], idx: usize) -> (r: Result<
        usize,
        ProviderSelectionError,
    >)
        ensures
            providers@.len() == 0 ==> r == Err::<usize, ProviderSelectionError>(
                ProviderSelectionError::NoProviders,
            ),
            providers@.len() > 0 ==> r == Ok::<usize, ProviderSelectionError>(idx),
    {
        if providers.len() == 0 {
            return Err(ProviderSelectionError::NoProviders);
        }
        Ok(idx)
    }
}

} // verus!
