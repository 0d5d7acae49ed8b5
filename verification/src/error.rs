//! Why a prompt could not be processed.
use vstd::prelude::*;
use vstd::std_specs::convert::FromSpec;

verus! {

/// A failure of the router, by its text.
#[derive(Debug)]
pub struct RoutingError {
    pub msg: String,
}

/// A failure of the soul registry, by its text.
#[derive(Debug)]
pub struct ProfileError {
    pub msg: String,
}

/// A failure of the brain, by its text.
#[derive(Debug)]
pub struct BrainError {
    pub msg: String,
}

/// A failure of the soul authority, by its text.
#[derive(Debug)]
pub struct SoulError {
    pub msg: String,
}

/// A failure of the memory provider, by its text.
#[derive(Debug)]
pub struct MemoryError {
    pub msg: String,
}

/// The error of a run.
#[derive(Debug)]
pub enum OrchError {
    RoutingFailed { msg: String },
    /// `soul_id` holds the registry's own words.
    SoulNotFound { soul_id: String },
    BrainFailed { msg: String },
    AuthDenied { msg: String },
    HookDenied { hook_id: String },
    MemoryError { msg: String },
}

impl From<RoutingError> for OrchError {
    fn from(e: RoutingError) -> (err: OrchError) {
        OrchError::RoutingFailed { msg: e.msg }
    }
}

impl vstd::std_specs::convert::FromSpecImpl<RoutingError> for OrchError {
    open spec fn obeys_from_spec() -> bool {
        true
    }

    open spec fn from_spec(e: RoutingError) -> OrchError {
        OrchError::RoutingFailed { msg: e.msg }
    }
}

impl From<ProfileError> for OrchError {
    fn from(e: ProfileError) -> (err: OrchError) {
        OrchError::SoulNotFound { soul_id: e.msg }
    }
}

impl vstd::std_specs::convert::FromSpecImpl<ProfileError> for OrchError {
    open spec fn obeys_from_spec() -> bool {
        true
    }

    open spec fn from_spec(e: ProfileError) -> OrchError {
        OrchError::SoulNotFound { soul_id: e.msg }
    }
}

impl From<BrainError> for OrchError {
    fn from(e: BrainError) -> (err: OrchError) {
        OrchError::BrainFailed { msg: e.msg }
    }
}

impl vstd::std_specs::convert::FromSpecImpl<BrainError> for OrchError {
    open spec fn obeys_from_spec() -> bool {
        true
    }

    open spec fn from_spec(e: BrainError) -> OrchError {
        OrchError::BrainFailed { msg: e.msg }
    }
}

impl From<SoulError> for OrchError {
    fn from(e: SoulError) -> (err: OrchError) {
        OrchError::AuthDenied { msg: e.msg }
    }
}

impl vstd::std_specs::convert::FromSpecImpl<SoulError> for OrchError {
    open spec fn obeys_from_spec() -> bool {
        true
    }

    open spec fn from_spec(e: SoulError) -> OrchError {
        OrchError::AuthDenied { msg: e.msg }
    }
}

impl From<MemoryError> for OrchError {
    fn from(e: MemoryError) -> (err: OrchError) {
        OrchError::MemoryError { msg: e.msg }
    }
}

impl vstd::std_specs::convert::FromSpecImpl<MemoryError> for OrchError {
    open spec fn obeys_from_spec() -> bool {
        true
    }

    open spec fn from_spec(e: MemoryError) -> OrchError {
        OrchError::MemoryError { msg: e.msg }
    }
}

impl OrchError {
    /// The error in words: what kind it is, then what it holds.
    pub open spec fn words(self) -> Seq<char> {
        match self {
            OrchError::RoutingFailed { msg } => "routing failed: "@ + msg@,
            OrchError::SoulNotFound { soul_id } => "soul not found: "@ + soul_id@,
            OrchError::BrainFailed { msg } => "brain execute failed: "@ + msg@,
            OrchError::AuthDenied { msg } => "authority denied: "@ + msg@,
            OrchError::HookDenied { hook_id } => "hook denied: "@ + hook_id@,
            OrchError::MemoryError { msg } => "memory error: "@ + msg@,
        }
    }

    /// The text to show for the error.
    pub fn message(&self) -> (text: String)
        ensures
            text@ == self.words(),
    {
        match self {
            OrchError::RoutingFailed { msg } => "routing failed: ".to_owned().concat(msg.as_str()),
            OrchError::SoulNotFound { soul_id } => "soul not found: ".to_owned().concat(
                soul_id.as_str(),
            ),
            OrchError::BrainFailed { msg } => "brain execute failed: ".to_owned().concat(
                msg.as_str(),
            ),
            OrchError::AuthDenied { msg } => "authority denied: ".to_owned().concat(msg.as_str()),
            OrchError::HookDenied { hook_id } => "hook denied: ".to_owned().concat(
                hook_id.as_str(),
            ),
            OrchError::MemoryError { msg } => "memory error: ".to_owned().concat(msg.as_str()),
        }
    }
}

/// Each failure of a service becomes the error of its kind, with the service's own words.
pub proof fn law_failures_keep_their_words(
    routing: RoutingError,
    profile: ProfileError,
    brain: BrainError,
    soul: SoulError,
    memory: MemoryError,
)
    ensures
        <OrchError as FromSpec<RoutingError>>::obeys_from_spec(),
        <OrchError as FromSpec<ProfileError>>::obeys_from_spec(),
        <OrchError as FromSpec<BrainError>>::obeys_from_spec(),
        <OrchError as FromSpec<SoulError>>::obeys_from_spec(),
        <OrchError as FromSpec<MemoryError>>::obeys_from_spec(),
        <OrchError as FromSpec<RoutingError>>::from_spec(routing) == (OrchError::RoutingFailed {
            msg: routing.msg,
        }),
        <OrchError as FromSpec<ProfileError>>::from_spec(profile) == (OrchError::SoulNotFound {
            soul_id: profile.msg,
        }),
        <OrchError as FromSpec<BrainError>>::from_spec(brain) == (OrchError::BrainFailed {
            msg: brain.msg,
        }),
        <OrchError as FromSpec<SoulError>>::from_spec(soul) == (OrchError::AuthDenied {
            msg: soul.msg,
        }),
        <OrchError as FromSpec<MemoryError>>::from_spec(memory) == (OrchError::MemoryError {
            msg: memory.msg,
        }),
{
}

/// An error reads as its kind, followed by the words that it holds.
pub proof fn law_errors_read_as_kind_and_words(words: String)
    ensures
        (OrchError::RoutingFailed { msg: words }).words() == "routing failed: "@ + words@,
        (OrchError::SoulNotFound { soul_id: words }).words() == "soul not found: "@ + words@,
        (OrchError::BrainFailed { msg: words }).words() == "brain execute failed: "@ + words@,
        (OrchError::AuthDenied { msg: words }).words() == "authority denied: "@ + words@,
        (OrchError::HookDenied { hook_id: words }).words() == "hook denied: "@ + words@,
        (OrchError::MemoryError { msg: words }).words() == "memory error: "@ + words@,
{
}

} // verus!
