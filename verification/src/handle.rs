//! The handles that a lookup can be sent through.
use vstd::prelude::*;

verus! {

/// A handle through which requests are sent to name servers.
pub trait DnsHandle {
    type Request;

    type Response;

    /// Whether this handle validates what it receives with DNSSEC.
    fn is_verifying_dnssec(&self) -> bool;

    /// Sends a request.
    fn send(&self, request: Self::Request) -> Self::Response;
}

/// The handle of a lookup: one that retries, or one that also validates.
pub enum LookupEither<R, S> {
    /// Retries a request that failed.
    Retry(R),
    /// Retries a request that failed, and validates the response.
    Secure(S),
}

impl<R: Clone, S: Clone> Clone for LookupEither<R, S> {
    fn clone(&self) -> (copy: Self)
        ensures
            match (*self, copy) {
                (LookupEither::Retry(own), LookupEither::Retry(handle)) => cloned(own, handle),
                (LookupEither::Secure(own), LookupEither::Secure(handle)) => cloned(own, handle),
                _ => false,
            },
    {
        match self {
            LookupEither::Retry(handle) => LookupEither::Retry(handle.clone()),
            LookupEither::Secure(handle) => LookupEither::Secure(handle.clone()),
        }
    }
}

impl<R: DnsHandle, S: DnsHandle<Request = R::Request, Response = R::Response>> DnsHandle for LookupEither<R, S> {
    type Request = R::Request;

    type Response = R::Response;

    /// Whether the handle inside validates what it receives.
    fn is_verifying_dnssec(&self) -> (verifying: bool)
        ensures
            match *self {
                LookupEither::Retry(handle) => call_ensures(
                    R::is_verifying_dnssec,
                    (&handle,),
                    verifying,
                ),
                LookupEither::Secure(handle) => call_ensures(
                    S::is_verifying_dnssec,
                    (&handle,),
                    verifying,
                ),
            },
    {
        match self {
            LookupEither::Retry(handle) => handle.is_verifying_dnssec(),
            LookupEither::Secure(handle) => handle.is_verifying_dnssec(),
        }
    }

    /// Sends the request through the handle inside.
    fn send(&self, request: R::Request) -> (response: R::Response)
        ensures
            match *self {
                LookupEither::Retry(handle) => call_ensures(R::send, (&handle, request), response),
                LookupEither::Secure(handle) => call_ensures(S::send, (&handle, request), response),
            },
    {
        match self {
            LookupEither::Retry(handle) => handle.send(request),
            LookupEither::Secure(handle) => handle.send(request),
        }
    }
}

} // verus!
