//! The renderer as the build sees it: how it is called and what counts as a
//! page.

use vstd::prelude::*;
use vstd::utf8::{decode_utf8, encode_utf8, valid_utf8};
use crate::error::{BuildError, RendererFailure};

verus! {

/// The program that renders a document.
pub const RENDERER: &'static str = "asciidoctor";

/// The arguments of a renderer call for `document`: the diagram extension is
/// loaded, the page goes to standard output, and the document comes last.
pub open spec fn renderer_command(document: Seq<char>) -> Seq<Seq<char>> {
    seq!["-r"@, "asciidoctor-diagram"@, "-o"@, "-"@, document]
}

/// The arguments with which the renderer is called for `document`.
pub fn renderer_arguments(document: &str) -> (arguments: Vec<String>)
    ensures
        arguments.deep_view() == renderer_command(document@),
{
    let mut arguments: Vec<String> = Vec::new();
    arguments.push(String::from_str("-r"));
    arguments.push(String::from_str("asciidoctor-diagram"));
    arguments.push(String::from_str("-o"));
    arguments.push(String::from_str("-"));
    arguments.push(String::from_str(document));
    assert(arguments.deep_view() =~= renderer_command(document@));
    arguments
}

/// `String::from_utf8` of std: the string made of `bytes`, where they are
/// UTF-8. The contract claims that it is there exactly for valid UTF-8 and
/// that its bytes are the ones given.
#[verifier::external_body]
fn string_from_utf8(bytes: Vec<u8>) -> (text: Option<String>)
    ensures
        text is Some <==> valid_utf8(bytes@),
        text matches Some(t) ==> encode_utf8(t@) == bytes@,
{
    String::from_utf8(bytes).ok()
}

/// What a renderer run amounts to: the page as text, where the run succeeded
/// and wrote UTF-8.
pub open spec fn decoded(success: bool, output: Seq<u8>) -> Result<Seq<char>, BuildError> {
    if !success {
        Err(BuildError::RendererInvocationFailure(RendererFailure::ExitStatus))
    } else if !valid_utf8(output) {
        Err(BuildError::RendererInvocationFailure(RendererFailure::UndecodableOutput))
    } else {
        Ok(decode_utf8(output))
    }
}

/// Turns what a renderer run left, its exit status and its standard output,
/// into the page. A run that failed, or output that is not text, is an error
/// and never a page.
pub fn decode_output(success: bool, output: Vec<u8>) -> (page: Result<String, BuildError>)
    ensures
        match page {
            Ok(text) => decoded(success, output@) == Ok::<Seq<char>, BuildError>(text@),
            Err(e) => decoded(success, output@) == Err::<Seq<char>, BuildError>(e),
        },
{
    if !success {
        return Err(BuildError::RendererInvocationFailure(RendererFailure::ExitStatus));
    }
    match string_from_utf8(output) {
        Some(text) => {
            proof {
                vstd::utf8::encode_utf8_decode_utf8(text@);
            }
            Ok(text)
        },
        None => Err(BuildError::RendererInvocationFailure(RendererFailure::UndecodableOutput)),
    }
}

} // verus!
