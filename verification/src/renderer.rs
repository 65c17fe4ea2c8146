//! Renderers: from the text of a buffer to HTML.

use pulldown_cmark::Parser;
use vstd::prelude::*;

verus! {

/// `std::io::Error`, the error of a writer.
#[verifier::external_type_specification]
#[verifier::external_body]
pub struct ExIoError(std::io::Error);

/// What is wrong with the output of a renderer.
#[derive(Debug)]
pub enum RenderError {
    /// It is not UTF-8, so that it cannot be text.
    NotUtf8,
}

/// `std::string::FromUtf8Error`, the error of [`String::from_utf8`].
#[verifier::external_type_specification]
#[verifier::external_body]
pub struct ExFromUtf8Error(std::string::FromUtf8Error);

/// `String::from_utf8`: the text whose UTF-8 encoding is the given bytes, and an error exactly if
/// they are not UTF-8.
pub assume_specification[ String::from_utf8 ](bytes: Vec<u8>) -> (text: Result<
    String,
    std::string::FromUtf8Error,
>)
    ensures
        text is Ok == vstd::utf8::valid_utf8(bytes@),
        text matches Ok(text) ==> vstd::utf8::encode_utf8(text@) == bytes@,
;

/// Takes the output of a renderer as text.
pub fn html_of(output: Vec<u8>) -> (html: Result<String, RenderError>)
    ensures
        match html {
            Ok(html) => vstd::utf8::encode_utf8(html@) == output@,
            Err(RenderError::NotUtf8) => !vstd::utf8::valid_utf8(output@),
        },
{
    match String::from_utf8(output) {
        Ok(html) => Ok(html),
        Err(_) => Err(RenderError::NotUtf8),
    }
}

/// Renders the text of a buffer as HTML.
pub trait Renderer {
    /// What went wrong where a rendering fails.
    type Error;

    /// Whether a rendering of `source` can end in `outcome`: the bytes that it writes, or the
    /// error that it fails with. A renderer that promises nothing here can end in anything.
    open spec fn renders(&self, source: Seq<char>, outcome: Result<Seq<u8>, Self::Error>) -> bool {
        true
    }

    /// Renders `source`, and appends what it comes to to `output`.
    fn render(&self, source: &str, output: &mut Vec<u8>) -> (result: Result<(), Self::Error>)
        ensures
            old(output)@.is_prefix_of(final(output)@),
            match result {
                Ok(()) => self.renders(
                    source@,
                    Ok(final(output)@.skip(old(output)@.len() as int)),
                ),
                Err(error) => self.renders(source@, Err(error)),
            },
    ;
}

/// The HTML that pulldown-cmark makes of the markdown `source`.
pub uninterp spec fn markdown_html(source: Seq<char>) -> Seq<char>;

/// `pulldown_cmark::html::write_html`, on the events of `Parser::new(source)` and with a vector
/// of bytes to write to: the HTML is a function of the source, it is written as UTF-8 behind
/// what the vector holds, and as a vector takes every write, nothing fails.
#[verifier::external_body]
fn write_markdown_html(source: &str, output: &mut Vec<u8>) -> (result: std::io::Result<()>)
    ensures
        result is Ok,
        final(output)@ == old(output)@ + vstd::utf8::encode_utf8(markdown_html(source@)),
{
    pulldown_cmark::html::write_html(output, Parser::new(source))
}

/// Renders markdown.
pub struct MarkdownRenderer;

impl Renderer for MarkdownRenderer {
    type Error = std::io::Error;

    /// A rendering of markdown always succeeds, and writes its HTML.
    open spec fn renders(
        &self,
        source: Seq<char>,
        outcome: Result<Seq<u8>, std::io::Error>,
    ) -> bool {
        outcome == Ok::<Seq<u8>, std::io::Error>(
            vstd::utf8::encode_utf8(markdown_html(source)),
        )
    }

    fn render(&self, source: &str, output: &mut Vec<u8>) -> (result: std::io::Result<()>)
        ensures
            result is Ok,
            final(output)@ == old(output)@ + vstd::utf8::encode_utf8(markdown_html(source@)),
    {
        let ghost before = output@;
        let result = write_markdown_html(source, output);
        assert(output@.skip(before.len() as int) =~= vstd::utf8::encode_utf8(
            markdown_html(source@),
        ));
        result
    }
}

/// The text that is taken from the output of a renderer is the one that the output encodes, and
/// there is one exactly if the output is UTF-8.
pub proof fn html_is_what_was_written(output: Vec<u8>, html: Result<String, RenderError>)
    requires
        call_ensures(html_of, (output,), html),
    ensures
        html is Ok <==> vstd::utf8::valid_utf8(output@),
        html is Ok ==> html->Ok_0@ == vstd::utf8::decode_utf8(output@),
        html is Ok ==> vstd::utf8::encode_utf8(html->Ok_0@) == output@,
{
    if html is Ok {
        vstd::utf8::encode_utf8_valid_utf8(html->Ok_0@);
        vstd::utf8::encode_utf8_decode_utf8(html->Ok_0@);
    }
}

/// A rendering of markdown never fails, and comes to the HTML of the whole source and of nothing
/// else.
pub proof fn markdown_is_rendered_whole(
    renderer: MarkdownRenderer,
    source: Seq<char>,
    outcome: Result<Seq<u8>, std::io::Error>,
)
    ensures
        renderer.renders(source, outcome) <==> outcome is Ok && outcome->Ok_0
            == vstd::utf8::encode_utf8(markdown_html(source)),
{
}

/// The HTML of the source stands in the output behind what was there.
pub proof fn markdown_is_appended(
    renderer: MarkdownRenderer,
    source: &str,
    output: &mut Vec<u8>,
    result: std::io::Result<()>,
)
    requires
        call_ensures(
            <MarkdownRenderer as Renderer>::render,
            (&renderer, source, output),
            result,
        ),
    ensures
        result is Ok,
        final(output)@ == old(output)@ + vstd::utf8::encode_utf8(markdown_html(source@)),
{
    assert(final(output)@ =~= old(output)@ + final(output)@.skip(old(output)@.len() as int));
}

} // verus!
