//! The error type shared by the whole library.

use vstd::prelude::*;
use vstd::string::StringExecFns;

verus! {

/// `gfx::buffer::CreationError`, the reason why a buffer could not be created.
#[verifier::external_type_specification]
#[verifier::external_body]
pub struct ExBufferCreationError(gfx::buffer::CreationError);

/// Why a buffer could not be created, with what was rejected as text.
#[derive(Debug)]
pub enum BufferFailure {
    /// Some of the bind flags are not supported.
    UnsupportedBind(String),
    /// The usage mode is not supported.
    UnsupportedUsage(String),
    /// Any other reason.
    Other,
}

/// A buffer failure with its text as a sequence of characters.
pub enum BufferFailureView {
    UnsupportedBind(Seq<char>),
    UnsupportedUsage(Seq<char>),
    Other,
}

impl View for BufferFailure {
    type V = BufferFailureView;

    open spec fn view(&self) -> BufferFailureView {
        match self {
            BufferFailure::UnsupportedBind(b) => BufferFailureView::UnsupportedBind(b@),
            BufferFailure::UnsupportedUsage(u) => BufferFailureView::UnsupportedUsage(u@),
            BufferFailure::Other => BufferFailureView::Other,
        }
    }
}

/// The variant of a `gfx` buffer creation error, with the rejected bind flags
/// or usage mode as `gfx` prints them for debugging.
pub uninterp spec fn buffer_failure(e: gfx::buffer::CreationError) -> BufferFailureView;

/// Tells the variants of `gfx::buffer::CreationError` apart and formats the
/// payload of each with its `Debug` implementation.
#[verifier::external_body]
fn buffer_failure_of(e: gfx::buffer::CreationError) -> (r: BufferFailure)
    ensures
        r@ == buffer_failure(e),
{
    match e {
        gfx::buffer::CreationError::UnsupportedBind(b) => BufferFailure::UnsupportedBind(
            format!("{:?}", b),
        ),
        gfx::buffer::CreationError::UnsupportedUsage(u) => BufferFailure::UnsupportedUsage(
            format!("{:?}", u),
        ),
        gfx::buffer::CreationError::Other => BufferFailure::Other,
    }
}

/// The description of the render error for a buffer failure.
pub open spec fn buffer_failure_text(failure: BufferFailureView) -> Seq<char> {
    match failure {
        BufferFailureView::UnsupportedBind(b) => "Could not create buffer: Unsupported Bind ("@ + b
            + ")"@,
        BufferFailureView::UnsupportedUsage(u) => "Could not create buffer: Unsupported Usage ("@
            + u + ")"@,
        BufferFailureView::Other => "Could not create buffer: Unknown error"@,
    }
}

/// Everything that can go wrong inside the library, each with a description.
#[derive(Debug, Clone)]
pub enum GameError {
    /// A configuration value was missing or malformed.
    ConfigError(String),
    /// A resource could not be loaded or had an unusable shape.
    ResourceLoadError(String),
    /// The rendering state could not satisfy a request.
    RenderError(String),
    /// The video subsystem reported a problem.
    VideoError(String),
    /// Reading or writing a byte stream failed.
    IOError(String),
}

/// The result of any fallible library operation.
pub type GameResult<T> = Result<T, GameError>;

impl GameError {
    /// The render error for a buffer that `gfx` could not create.
    pub fn from_buffer_error(e: gfx::buffer::CreationError) -> (r: GameError)
        ensures
            r is RenderError,
            r.message() == buffer_failure_text(buffer_failure(e)),
    {
        GameError::from_buffer_failure(buffer_failure_of(e))
    }

    /// The render error for a buffer that could not be created.
    pub fn from_buffer_failure(failure: BufferFailure) -> (r: GameError)
        ensures
            r is RenderError,
            r.message() == buffer_failure_text(failure@),
    {
        match failure {
            BufferFailure::UnsupportedBind(b) => GameError::RenderError(
                "Could not create buffer: Unsupported Bind (".to_owned().concat(b.as_str()).concat(
                    ")",
                ),
            ),
            BufferFailure::UnsupportedUsage(u) => GameError::RenderError(
                "Could not create buffer: Unsupported Usage (".to_owned().concat(
                    u.as_str(),
                ).concat(")"),
            ),
            BufferFailure::Other => GameError::RenderError(
                "Could not create buffer: Unknown error".to_owned(),
            ),
        }
    }

    /// The description carried by the error, as a sequence of characters.
    pub open spec fn message(self) -> Seq<char> {
        match self {
            GameError::ConfigError(s) => s@,
            GameError::ResourceLoadError(s) => s@,
            GameError::RenderError(s) => s@,
            GameError::VideoError(s) => s@,
            GameError::IOError(s) => s@,
        }
    }

    /// A copy of the description carried by the error.
    pub fn description(&self) -> (r: String)
        ensures
            r@ == self.message(),
    {
        match self {
            GameError::ConfigError(s) => s.clone(),
            GameError::ResourceLoadError(s) => s.clone(),
            GameError::RenderError(s) => s.clone(),
            GameError::VideoError(s) => s.clone(),
            GameError::IOError(s) => s.clone(),
        }
    }
}

} // verus!
