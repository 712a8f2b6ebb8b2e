//! Entry point of the importing context.
use crate::importing::application::confirm::ConfirmHandler;
use crate::importing::application::match_candidates::MatchCandidatesHandler;
use crate::importing::application::preview::PreviewHandler;
use crate::shared::sharing::share;
use std::sync::Arc;
use vstd::prelude::*;

verus! {

/// The preview, match and confirm steps of an import behind one value,
/// sharing the same ports.
pub struct ImportingFacade<A, T, P, I> {
    pub preview: PreviewHandler<A, T>,
    pub match_candidates: MatchCandidatesHandler<A, T>,
    pub confirm: ConfirmHandler<A, T, P, I>,
}

impl<A, T, P, I> ImportingFacade<A, T, P, I> {
    /// Creates a new facade whose handlers share the given ports.
    pub fn new(
        account_repository: Arc<A>,
        transaction_repository: Arc<T>,
        event_publisher: Arc<P>,
        id_generator: Arc<I>,
    ) -> (r: Self)
        ensures
            r.preview.account_repository == account_repository,
            r.preview.transaction_repository == transaction_repository,
            r.match_candidates.account_repository == account_repository,
            r.match_candidates.transaction_repository == transaction_repository,
            r.confirm.account_repository == account_repository,
            r.confirm.transaction_repository == transaction_repository,
            r.confirm.event_publisher == event_publisher,
            r.confirm.id_generator == id_generator,
    {
        ImportingFacade {
            preview: PreviewHandler::new(share(&account_repository), share(&transaction_repository)),
            match_candidates: MatchCandidatesHandler::new(
                share(&account_repository),
                share(&transaction_repository),
            ),
            confirm: ConfirmHandler::new(
                account_repository,
                transaction_repository,
                event_publisher,
                id_generator,
            ),
        }
    }
}

} // verus!
