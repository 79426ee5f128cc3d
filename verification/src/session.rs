//! The state of a session: a lookup that is pending, has succeeded with its
//! result, or has failed.

use crate::ip_fetcher::{FetchError, FetchState, IpDetails, IpDetailsView, IpFetcher, IpFetcherView};
use vstd::prelude::*;

verus! {

/// The state of a session. A result is held exactly where the lookup succeeded.
#[derive(Clone, Debug, PartialEq, Eq)]
pub enum SessionState {
    Pending,
    Success(IpDetails),
    Failure,
}

/// What a [`SessionState`] holds.
pub enum SessionStateView {
    Pending,
    Success(IpDetailsView),
    Failure,
}

impl View for SessionState {
    type V = SessionStateView;

    open spec fn view(&self) -> SessionStateView {
        match *self {
            SessionState::Pending => SessionStateView::Pending,
            SessionState::Success(details) => SessionStateView::Success(details@),
            SessionState::Failure => SessionStateView::Failure,
        }
    }
}

/// What the session learns of its worker: the worker's one report, or that
/// the channel closed without one.
#[derive(Debug, PartialEq, Eq)]
pub enum Delivery {
    Report(Result<IpFetcher, FetchError>),
    Closed,
}

/// What a [`Delivery`] holds.
pub enum DeliveryView {
    Report(Result<IpFetcherView, FetchError>),
    Closed,
}

impl View for Delivery {
    type V = DeliveryView;

    open spec fn view(&self) -> DeliveryView {
        match *self {
            Delivery::Report(Ok(fetched)) => DeliveryView::Report(Ok(fetched@)),
            Delivery::Report(Err(error)) => DeliveryView::Report(Err(error)),
            Delivery::Closed => DeliveryView::Closed,
        }
    }
}

impl SessionStateView {
    /// The tag of the state.
    pub open spec fn status(self) -> FetchState {
        match self {
            SessionStateView::Pending => FetchState::Pending,
            SessionStateView::Success(_) => FetchState::Success,
            SessionStateView::Failure => FetchState::Failure,
        }
    }

    /// The result that the state holds.
    pub open spec fn details(self) -> Option<IpDetailsView> {
        match self {
            SessionStateView::Success(details) => Some(details),
            _ => None,
        }
    }

    /// The state after a delivery. A pending lookup succeeds with the result
    /// of a report that holds one, and fails on an error, on a report without
    /// a result and on a closed channel; a state that is no longer pending
    /// stays as it is.
    pub open spec fn resolve(self, delivery: DeliveryView) -> SessionStateView {
        match self {
            SessionStateView::Pending => match delivery {
                DeliveryView::Report(Ok(fetched)) => match fetched.details {
                    Some(details) => SessionStateView::Success(details),
                    None => SessionStateView::Failure,
                },
                _ => SessionStateView::Failure,
            },
            _ => self,
        }
    }
}

impl SessionState {
    /// The state of a session that has just begun.
    pub fn new() -> (state: SessionState)
        ensures
            state@ == SessionStateView::Pending,
    {
        SessionState::Pending
    }

    /// The tag of the state.
    pub fn status(&self) -> (status: FetchState)
        ensures
            status == self@.status(),
    {
        match self {
            SessionState::Pending => FetchState::Pending,
            SessionState::Success(_) => FetchState::Success,
            SessionState::Failure => FetchState::Failure,
        }
    }

    /// The result that the state holds: one exactly where the lookup succeeded.
    pub fn details(&self) -> (details: Option<&IpDetails>)
        ensures
            details is Some <==> self@.status() == FetchState::Success,
            match details {
                Some(found) => self@.details() == Some(found@),
                None => self@.details() is None,
            },
    {
        match self {
            SessionState::Success(details) => Some(details),
            _ => None,
        }
    }

    /// The state after a delivery from the worker.
    pub fn resolve(self, delivery: Delivery) -> (next: SessionState)
        ensures
            next@ == self@.resolve(delivery@),
    {
        match self {
            SessionState::Pending => match delivery {
                Delivery::Report(Ok(fetched)) => match fetched.details {
                    Some(details) => SessionState::Success(details),
                    None => SessionState::Failure,
                },
                _ => SessionState::Failure,
            },
            resolved => resolved,
        }
    }
}

} // verus!
