//! Why a build stops.

use vstd::prelude::*;

verus! {

/// How the renderer let the build down.
#[derive(Clone, Copy, Debug, PartialEq, Eq, Structural)]
pub enum RendererFailure {
    /// The renderer could not be started.
    NotStarted,
    /// The renderer ended with a status other than success.
    ExitStatus,
    /// What the renderer wrote is not UTF-8 text.
    UndecodableOutput,
    /// What the renderer wrote is longer than a page in which a title can
    /// be looked for.
    OversizedOutput,
}

/// Why a build stops. The first failure ends the build; none is recovered.
#[derive(Clone, Copy, Debug, PartialEq, Eq, Structural)]
pub enum BuildError {
    /// The source root does not exist.
    SourceNotFound,
    /// The old build tree could not be removed, or a directory of the new
    /// one could not be created.
    BuildTreeError,
    /// The renderer did not hand back a page.
    RendererInvocationFailure(RendererFailure),
    /// A rendered page has no title element.
    NoTitleFound,
    /// Reading, writing or copying failed.
    IoError,
    /// The driver reported something that the action it was given cannot
    /// end in.
    OutOfSequence,
}

impl BuildError {
    /// The text of [`BuildError::message`].
    pub open spec fn message_text(self) -> Seq<char> {
        match self {
            BuildError::SourceNotFound => "the source directory is not found"@,
            BuildError::BuildTreeError => "the build tree cannot be removed or created"@,
            BuildError::RendererInvocationFailure(RendererFailure::NotStarted) => "failed to execute asciidoctor"@,
            BuildError::RendererInvocationFailure(RendererFailure::ExitStatus) => "asciidoctor reported a failure"@,
            BuildError::RendererInvocationFailure(RendererFailure::UndecodableOutput) => "asciidoctor wrote something other than UTF-8 text"@,
            BuildError::RendererInvocationFailure(RendererFailure::OversizedOutput) => "asciidoctor wrote a page too long to be read"@,
            BuildError::NoTitleFound => "No title is found in the HTML file."@,
            BuildError::IoError => "a file or directory cannot be read or written"@,
            BuildError::OutOfSequence => "an outcome was reported that the pending action cannot have"@,
        }
    }

    /// A sentence for the user.
    pub fn message(&self) -> (text: String)
        ensures
            text@ == self.message_text(),
    {
        let text = match self {
            BuildError::SourceNotFound => "the source directory is not found",
            BuildError::BuildTreeError => "the build tree cannot be removed or created",
            BuildError::RendererInvocationFailure(RendererFailure::NotStarted) => "failed to execute asciidoctor",
            BuildError::RendererInvocationFailure(RendererFailure::ExitStatus) => "asciidoctor reported a failure",
            BuildError::RendererInvocationFailure(RendererFailure::UndecodableOutput) => "asciidoctor wrote something other than UTF-8 text",
            BuildError::RendererInvocationFailure(RendererFailure::OversizedOutput) => "asciidoctor wrote a page too long to be read",
            BuildError::NoTitleFound => "No title is found in the HTML file.",
            BuildError::IoError => "a file or directory cannot be read or written",
            BuildError::OutOfSequence => "an outcome was reported that the pending action cannot have",
        };
        String::from_str(text)
    }
}

} // verus!
