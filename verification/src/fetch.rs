//! The decisions of a bounded image download: when to try again, which
//! response to accept, and how much to read.

use vstd::prelude::*;
use crate::json::decimal_u64;
use crate::json::has_prefix;
use crate::json::parse_decimal_u64;
use crate::json::starts_with;
use crate::record::is_success;
use crate::record::status_is_success;

verus! {

/// The most bytes that an image may have: 20 MiB.
pub const MAX_IMAGE_BYTES: u64 = 20 * 1024 * 1024;

/// The number of requests made before a download is given up.
pub const MAX_ATTEMPTS: u32 = 3;

/// The wait before the second request, in milliseconds; the wait before
/// each later one is longer by as much.
pub const BACKOFF_STEP_MS: u64 = 200;

/// The seconds allowed for connecting to the image's host.
pub const CONNECT_TIMEOUT_SECS: u64 = 10;

/// The seconds allowed for one request as a whole.
pub const REQUEST_TIMEOUT_SECS: u64 = 20;

/// Why a download fails.
#[derive(Clone, Debug, PartialEq, Eq)]
pub enum FetchError {
    /// Every request failed in transport; `detail` is what the last one said.
    TransportExhausted { attempts: u32, detail: String },
    /// The response is no success, or carries something other than an image.
    RejectedContent { status: u16, content_type: String },
    /// The image is larger than the limit, by its declared or its real size.
    TooLarge { size: u64, limit: u64 },
    /// The bytes are no image.
    DecodeFailed { detail: String },
}

/// A download under way: `attempt` is the number of the request that was
/// made last, counted from 1.
#[derive(Clone, Copy, Debug, PartialEq, Eq)]
pub struct FetchState {
    pub attempt: u32,
}

/// What the outside world reports to a download.
#[derive(Clone, Debug, PartialEq, Eq)]
pub enum FetchEvent {
    /// The request failed before any response came.
    TransportFailed { detail: String },
    /// A response came, with these headers; an absent content type is the
    /// empty text.
    Responded { status: u16, content_type: String, content_length: Option<String> },
    /// The whole body was read and has this many bytes.
    BodyRead { length: u64 },
    /// The bytes were decoded.
    Decoded,
    /// The bytes could not be decoded.
    DecodeFailed { detail: String },
}

/// What a download asks the outside world to do next.
#[derive(Clone, Debug, PartialEq, Eq)]
pub enum FetchAction {
    /// Make the request.
    Request,
    /// Wait this long, then make the request again.
    RetryAfter { millis: u64 },
    /// Read the body of the response.
    ReadBody,
    /// Decode the bytes.
    Decode,
    /// Show the image.
    Render,
    /// Stop with this error; `dump` says that the bytes at hand are to be
    /// written to the diagnostic file first.
    Fail { error: FetchError, dump: bool },
}

/// Whether a content type is acceptable for an image: none at all, or one
/// that begins with `image/`.
pub open spec fn is_image_type(content_type: Seq<char>) -> bool {
    content_type.len() == 0 || has_prefix(content_type, "image/"@)
}

/// The length that a `Content-Length` header declares, where it is there and
/// is a decimal number.
pub open spec fn declared_length(header: Option<String>) -> Option<u64> {
    match header {
        Some(text) => decimal_u64(text@),
        None => None,
    }
}

impl FetchState {
    /// A download makes at least one request and at most three.
    pub open spec fn wf(self) -> bool {
        1 <= self.attempt <= MAX_ATTEMPTS
    }

    /// The state after `event`, and what to do then.
    pub open spec fn next(self, event: FetchEvent) -> (FetchState, FetchAction) {
        match event {
            FetchEvent::TransportFailed { detail } => if self.attempt >= MAX_ATTEMPTS {
                (
                    self,
                    FetchAction::Fail {
                        error: FetchError::TransportExhausted { attempts: self.attempt, detail },
                        dump: false,
                    },
                )
            } else {
                (
                    FetchState { attempt: (self.attempt + 1) as u32 },
                    FetchAction::RetryAfter { millis: (BACKOFF_STEP_MS * self.attempt) as u64 },
                )
            },
            FetchEvent::Responded { status, content_type, content_length } => if !is_success(
                status,
            ) || !is_image_type(content_type@) {
                (
                    self,
                    FetchAction::Fail {
                        error: FetchError::RejectedContent { status, content_type },
                        dump: true,
                    },
                )
            } else {
                match declared_length(content_length) {
                    Some(size) if size > MAX_IMAGE_BYTES => (
                        self,
                        FetchAction::Fail {
                            error: FetchError::TooLarge { size, limit: MAX_IMAGE_BYTES },
                            dump: false,
                        },
                    ),
                    _ => (self, FetchAction::ReadBody),
                }
            },
            FetchEvent::BodyRead { length } => if length > MAX_IMAGE_BYTES {
                (
                    self,
                    FetchAction::Fail {
                        error: FetchError::TooLarge { size: length, limit: MAX_IMAGE_BYTES },
                        dump: false,
                    },
                )
            } else {
                (self, FetchAction::Decode)
            },
            FetchEvent::Decoded => (self, FetchAction::Render),
            FetchEvent::DecodeFailed { detail } => (
                self,
                FetchAction::Fail { error: FetchError::DecodeFailed { detail }, dump: true },
            ),
        }
    }

    /// Begins a download: the first request is to be made.
    pub fn start() -> (r: (FetchState, FetchAction))
        ensures
            r.0.attempt == 1,
            r.0.wf(),
            r.1 == FetchAction::Request,
    {
        (FetchState { attempt: 1 }, FetchAction::Request)
    }

    /// Takes one event and decides what follows.
    pub fn step(self, event: FetchEvent) -> (r: (FetchState, FetchAction))
        ensures
            r == self.next(event),
            self.wf() ==> r.0.wf(),
    {
        match event {
            FetchEvent::TransportFailed { detail } => {
                if self.attempt >= MAX_ATTEMPTS {
                    (
                        self,
                        FetchAction::Fail {
                            error: FetchError::TransportExhausted {
                                attempts: self.attempt,
                                detail,
                            },
                            dump: false,
                        },
                    )
                } else {
                    let attempt: u32 = self.attempt;
                    let wide: u64 = attempt as u64;
                    (
                        FetchState { attempt: attempt + 1 },
                        FetchAction::RetryAfter { millis: BACKOFF_STEP_MS * wide },
                    )
                }
            },
            FetchEvent::Responded { status, content_type, content_length } => {
                let image = content_type.as_str().is_empty() || starts_with(
                    content_type.as_str(),
                    "image/",
                );
                if !status_is_success(status) || !image {
                    return (
                        self,
                        FetchAction::Fail {
                            error: FetchError::RejectedContent { status, content_type },
                            dump: true,
                        },
                    );
                }
                let declared: Option<u64> = match &content_length {
                    Some(text) => parse_decimal_u64(text.as_str()),
                    None => None,
                };
                match declared {
                    Some(size) => {
                        if size > MAX_IMAGE_BYTES {
                            (
                                self,
                                FetchAction::Fail {
                                    error: FetchError::TooLarge { size, limit: MAX_IMAGE_BYTES },
                                    dump: false,
                                },
                            )
                        } else {
                            (self, FetchAction::ReadBody)
                        }
                    },
                    None => (self, FetchAction::ReadBody),
                }
            },
            FetchEvent::BodyRead { length } => {
                if exceeds_limit(length) {
                    (
                        self,
                        FetchAction::Fail {
                            error: FetchError::TooLarge { size: length, limit: MAX_IMAGE_BYTES },
                            dump: false,
                        },
                    )
                } else {
                    (self, FetchAction::Decode)
                }
            },
            FetchEvent::Decoded => (self, FetchAction::Render),
            FetchEvent::DecodeFailed { detail } => (
                self,
                FetchAction::Fail { error: FetchError::DecodeFailed { detail }, dump: true },
            ),
        }
    }
}

/// Tests whether a number of bytes is over the limit for an image.
pub fn exceeds_limit(length: u64) -> (r: bool)
    ensures
        r == (length > MAX_IMAGE_BYTES),
{
    length > MAX_IMAGE_BYTES
}

/// The failure of an image of `size` bytes as too large.
pub open spec fn too_large(size: u64) -> FetchAction {
    FetchAction::Fail { error: FetchError::TooLarge { size, limit: MAX_IMAGE_BYTES }, dump: false }
}

/// A response that is acceptable but declares more bytes than the limit
/// fails as too large, and its body is not asked for.
pub proof fn lemma_declared_oversize_is_refused(
    state: FetchState,
    status: u16,
    content_type: String,
    content_length: Option<String>,
    size: u64,
)
    requires
        is_success(status),
        is_image_type(content_type@),
        declared_length(content_length) == Some(size),
        size > MAX_IMAGE_BYTES,
    ensures
        state.next(FetchEvent::Responded { status, content_type, content_length }) == (
            state,
            too_large(size),
        ),
{
}

/// A body that turns out longer than the limit fails as too large, whatever
/// was declared.
pub proof fn lemma_read_oversize_is_refused(state: FetchState, length: u64)
    requires
        length > MAX_IMAGE_BYTES,
    ensures
        state.next(FetchEvent::BodyRead { length }) == (state, too_large(length)),
{
}

/// A body is asked for only after a response that declares no length over
/// the limit, and bytes are decoded only where there are no more of them
/// than the limit.
pub proof fn lemma_only_bounded_bytes_go_on(state: FetchState, event: FetchEvent)
    ensures
        state.next(event).1 is ReadBody ==> (event matches FetchEvent::Responded {
            content_length,
            ..
        } && !(declared_length(content_length) matches Some(size) && size > MAX_IMAGE_BYTES)),
        state.next(event).1 is Decode ==> (event matches FetchEvent::BodyRead { length }
            && length <= MAX_IMAGE_BYTES),
{
}

/// A transport failure is answered by another request after the first and
/// after the second request, with a wait of 200 ms times the number of the
/// request that failed, and by giving up after the third.
pub proof fn lemma_retry_schedule(state: FetchState, detail: String)
    requires
        state.wf(),
    ensures
        state.attempt < MAX_ATTEMPTS ==> state.next(FetchEvent::TransportFailed { detail }) == (
            FetchState { attempt: (state.attempt + 1) as u32 },
            FetchAction::RetryAfter { millis: (200 * state.attempt) as u64 },
        ),
        state.attempt == MAX_ATTEMPTS ==> state.next(FetchEvent::TransportFailed { detail }) == (
            state,
            FetchAction::Fail {
                error: FetchError::TransportExhausted { attempts: 3, detail },
                dump: false,
            },
        ),
{
}

/// Three transport failures in a row end a download that has just begun:
/// the first two are answered by a retry, after 200 ms and then after
/// 400 ms, and the third by the error that carries what it said.
pub proof fn lemma_three_attempts(first: String, second: String, third: String)
    ensures
        ({
            let begun = FetchState { attempt: 1 };
            let one = begun.next(FetchEvent::TransportFailed { detail: first });
            let two = one.0.next(FetchEvent::TransportFailed { detail: second });
            let three = two.0.next(FetchEvent::TransportFailed { detail: third });
            &&& one.1 == FetchAction::RetryAfter { millis: 200 }
            &&& two.1 == FetchAction::RetryAfter { millis: 400 }
            &&& three.1 == FetchAction::Fail {
                error: FetchError::TransportExhausted { attempts: 3, detail: third },
                dump: false,
            }
        }),
{
}

} // verus!
