//! The response future of a route: what it carries besides the work it
//! waits on, and what it does to the response once that work is done.
use vstd::prelude::*;

use bytes::Bytes;
use http::HeaderMap;

use crate::finish::{
    allow_is_due, allow_name, content_length_is_due, content_length_name,
    lemma_header_names_differ, optional_bytes,
    set_allow_header, set_content_length, with_allow, with_content_length, BodySizeHint,
};
use crate::headers::{
    bytes_clone, bytes_contents, header_map_contains_key, header_map_entries,
    header_map_key_count, header_value_from_shared, is_valid_header_value,
};

verus! {

/// Where a route future gets its response from: a future still to be
/// polled, or a response at hand (taken out once handed on).
pub enum RouteFutureKind<F, Res> {
    Future { future: F },
    Response { response: Option<Res> },
}

/// The response future of a route: the source of the response, whether to
/// strip the body of the response, and the `Allow` value to add to it.
pub struct RouteFuture<F, Res> {
    pub kind: RouteFutureKind<F, Res>,
    strip_body: bool,
    allow_header: Option<Bytes>,
}

/// Why a finished response could not be given its headers. In both cases
/// `HeaderMap` would panic.
#[derive(Clone, Copy, Debug, PartialEq, Eq, Structural)]
pub enum FinishError {
    /// The `Allow` value holds a byte that no header value may hold.
    InvalidAllowHeader,
    /// The table of the header map could not grow to take a header that
    /// was due.
    HeaderMapFull,
}

/// The `Allow` value is due to be stored but holds a byte that no header
/// value may hold.
pub open spec fn allow_is_invalid(m: HeaderMap, allow: Option<Bytes>) -> bool {
    allow_is_due(m, allow) && !is_valid_header_value(bytes_contents(allow.unwrap()))
}

/// A count of one for a condition that holds, zero otherwise.
pub open spec fn one_if(b: bool) -> int {
    if b {
        1
    } else {
        0
    }
}

impl<F, Res> RouteFuture<F, Res> {
    /// Where the response comes from: the field `kind`. It is closed because
    /// the struct's other fields are private, which keeps its fields from
    /// being read in specifications outside this module.
    pub closed spec fn source(&self) -> RouteFutureKind<F, Res> {
        self.kind
    }

    /// Whether the body of the response is to be stripped.
    pub closed spec fn strips_body(&self) -> bool {
        self.strip_body
    }

    /// The `Allow` value still to be added to the response.
    pub closed spec fn pending_allow(&self) -> Option<Bytes> {
        self.allow_header
    }

    /// A route future that waits on `future`, keeps the body and adds no
    /// `Allow` header.
    pub fn from_future(future: F) -> (route_future: Self)
        ensures
            route_future.source() == (RouteFutureKind::Future::<F, Res> { future }),
            !route_future.strips_body(),
            route_future.pending_allow() is None,
    {
        RouteFuture { kind: RouteFutureKind::Future { future }, strip_body: false, allow_header: None }
    }

    /// The same route future, set to strip the body or not.
    pub fn strip_body(self, strip_body: bool) -> (route_future: Self)
        ensures
            route_future.source() == self.source(),
            route_future.strips_body() == strip_body,
            route_future.pending_allow() == self.pending_allow(),
    {
        let mut this = self;
        this.strip_body = strip_body;
        this
    }

    /// The same route future, set to add `allow_header` as `Allow`.
    pub fn allow_header(self, allow_header: Bytes) -> (route_future: Self)
        ensures
            route_future.source() == self.source(),
            route_future.strips_body() == self.strips_body(),
            route_future.pending_allow() == Some(allow_header),
    {
        let mut this = self;
        this.allow_header = Some(allow_header);
        this
    }

    /// Takes out the response at hand, if the route future holds one; a
    /// route future that waits on a future is left as it is.
    pub fn take_response(&mut self) -> (response: Option<Res>)
        ensures
            final(self).strips_body() == old(self).strips_body(),
            final(self).pending_allow() == old(self).pending_allow(),
            match old(self).source() {
                RouteFutureKind::Response { response: held } => {
                    &&& response == held
                    &&& final(self).source() == (RouteFutureKind::Response::<F, Res> { response: None })
                },
                RouteFutureKind::Future { .. } => {
                    &&& response is None
                    &&& final(self).source() == old(self).source()
                },
            },
    {
        match &mut self.kind {
            RouteFutureKind::Response { response } => response.take(),
            RouteFutureKind::Future { .. } => None,
        }
    }

    /// Gives a response that is ready its headers: `Allow`, when the route
    /// future holds a value and `headers` has none (the value is used up
    /// either way), then `Content-Length`, when the body's size is known
    /// exactly and `headers` has none. Returns whether the body is to be
    /// stripped; the length is set from the body as it was.
    ///
    /// Fails, leaving everything as it was, when the `Allow` value that is
    /// due holds a byte that no header value may hold. Fails too when the
    /// header map refuses an insertion that is due because its table cannot
    /// grow; the `Allow` value is then used up, and the headers are as they
    /// were before that insertion. When nothing is due, or the map has fewer
    /// than 6553 names, that does not happen.
    pub fn finish_response(&mut self, headers: &mut HeaderMap, size_hint: BodySizeHint) -> (res:
        Result<bool, FinishError>)
        ensures
            res matches Err(FinishError::InvalidAllowHeader) <==> allow_is_invalid(
                *old(headers),
                old(self).pending_allow(),
            ),
            res matches Err(FinishError::InvalidAllowHeader) ==> old(self).pending_allow() is Some
                && !is_valid_header_value(bytes_contents(old(self).pending_allow().unwrap())),
            res matches Err(FinishError::InvalidAllowHeader) ==> *final(self) == *old(self)
                && *final(headers) == *old(headers),
            header_map_key_count(*old(headers)) < 6553 && !allow_is_invalid(
                *old(headers),
                old(self).pending_allow(),
            ) ==> res is Ok,
            res matches Err(FinishError::HeaderMapFull) ==> allow_is_due(
                *old(headers),
                old(self).pending_allow(),
            ) || content_length_is_due(*old(headers), size_hint.spec_exact()),
            res matches Err(FinishError::HeaderMapFull) ==> {
                &&& final(self).source() == old(self).source()
                &&& final(self).strips_body() == old(self).strips_body()
                &&& final(self).pending_allow() is None
                &&& {
                    ||| {
                        &&& allow_is_due(*old(headers), old(self).pending_allow())
                        &&& header_map_entries(*final(headers)) == header_map_entries(*old(headers))
                        &&& header_map_key_count(*final(headers)) == header_map_key_count(*old(headers))
                    }
                    ||| {
                        &&& content_length_is_due(*old(headers), size_hint.spec_exact())
                        &&& header_map_entries(*final(headers)) == with_allow(
                            header_map_entries(*old(headers)),
                            optional_bytes(old(self).pending_allow()),
                        )
                        &&& header_map_key_count(*final(headers)) == header_map_key_count(
                            *old(headers),
                        ) + one_if(allow_is_due(*old(headers), old(self).pending_allow()))
                    }
                }
            },
            res matches Ok(strip) ==> {
                &&& strip == old(self).strips_body()
                &&& final(self).source() == old(self).source()
                &&& final(self).strips_body() == old(self).strips_body()
                &&& final(self).pending_allow() is None
                &&& header_map_entries(*final(headers)) == with_content_length(
                    with_allow(header_map_entries(*old(headers)), optional_bytes(old(self).pending_allow())),
                    size_hint.spec_exact(),
                )
                &&& header_map_key_count(*final(headers)) == header_map_key_count(*old(headers))
                    + one_if(allow_is_due(*old(headers), old(self).pending_allow())) + one_if(
                    content_length_is_due(*old(headers), size_hint.spec_exact()),
                )
            },
    {
        proof {
            reveal_strlit("allow");
            assert("allow"@ =~= allow_name());
            lemma_header_names_differ();
        }
        if let Some(allow) = &self.allow_header {
            if !header_map_contains_key(headers, "allow") {
                let probe = header_value_from_shared(bytes_clone(allow));
                if probe.is_err() {
                    return Err(FinishError::InvalidAllowHeader);
                }
            }
        }
        let ghost before = header_map_entries(*headers);
        if set_allow_header(headers, &mut self.allow_header).is_err() {
            return Err(FinishError::HeaderMapFull);
        }
        assert(header_map_entries(*headers).dom().contains(content_length_name()) == before.dom().contains(
            content_length_name(),
        ));
        if set_content_length(size_hint, headers).is_err() {
            return Err(FinishError::HeaderMapFull);
        }
        Ok(self.strip_body)
    }
}

/// A route future whose inner work cannot fail.
pub struct InfallibleRouteFuture<F, Res> {
    pub future: RouteFuture<F, Res>,
}

impl<F, Res> InfallibleRouteFuture<F, Res> {
    /// Wraps `future`.
    pub fn new(future: RouteFuture<F, Res>) -> (wrapped: Self)
        ensures
            wrapped.future == future,
    {
        InfallibleRouteFuture { future }
    }
}

} // verus!
