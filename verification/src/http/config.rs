use vstd::prelude::*;

verus! {

/// What the parser does with a header whose name it does not recognize.
#[derive(Debug, Clone, Copy, PartialEq, Eq, Structural)]
pub enum UnknownHeaderPolicy {
    /// The whole request is rejected.
    Reject,
    /// The header is left out and the rest of the request is kept.
    Skip,
}

/// The ceilings on what a peer may send. `None` stands for no ceiling.
#[derive(Debug, Clone, Copy, PartialEq, Eq, Structural)]
pub struct Limits {
    /// The greatest number of bytes that a message head may hold, the blank
    /// line not counted.
    pub max_head_bytes: Option<usize>,
    /// The greatest length that a request may declare for its body.
    pub max_body_bytes: Option<usize>,
}

impl Limits {
    /// No ceilings at all.
    pub open spec fn unlimited() -> Limits {
        Limits { max_head_bytes: None, max_body_bytes: None }
    }

    /// Returns the limits that set no ceiling.
    pub fn none() -> (limits: Limits)
        ensures
            limits == Limits::unlimited(),
    {
        Limits { max_head_bytes: None, max_body_bytes: None }
    }
}

/// True when `n` is above the ceiling `limit`.
pub open spec fn exceeds(n: int, limit: Option<usize>) -> bool {
    match limit {
        Some(max) => n > max,
        None => false,
    }
}

/// Tells whether `n` is above the ceiling `limit`.
pub fn is_over(n: usize, limit: Option<usize>) -> (r: bool)
    ensures
        r == exceeds(n as int, limit),
{
    match limit {
        Some(max) => n > max,
        None => false,
    }
}

/// The choices that a server makes once, when it is built.
#[derive(Debug, Clone, Copy, PartialEq, Eq, Structural)]
pub struct Config {
    /// What to do with a header of an unrecognized name.
    pub on_unknown_header: UnknownHeaderPolicy,
    /// Whether a response that carries no `Content-Length` header is sent with
    /// one that is computed from its body.
    pub auto_content_length: bool,
    /// The ceilings on the size of a request.
    pub limits: Limits,
}

impl Config {
    /// The configuration that [`Config::default`] returns: unrecognized
    /// headers are rejected, `Content-Length` is computed, and requests may be
    /// of any size.
    pub open spec fn standard() -> Config {
        Config {
            on_unknown_header: UnknownHeaderPolicy::Reject,
            auto_content_length: true,
            limits: Limits::unlimited(),
        }
    }
}

impl Default for Config {
    fn default() -> (c: Config)
        ensures
            c == Config::standard(),
    {
        Config {
            on_unknown_header: UnknownHeaderPolicy::Reject,
            auto_content_length: true,
            limits: Limits::none(),
        }
    }
}

} // verus!
