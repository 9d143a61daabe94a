//! The formatting pipeline: parsing a document and rendering it through the
//! `xmlem` pretty-printing engine.
//!
//! Both engine steps are deterministic functions of the source text: parsing
//! succeeds exactly on well-formed input, and rendering is total on any
//! parsed document. Their results are named by the uninterpreted functions
//! `xml_well_formed` and `pretty_of`; everything around the two engine calls
//! is verified against those names.

use vstd::prelude::*;

use crate::config::EntityMode;
use crate::config::FormatConfig;

verus! {

/// Declares the engine's document model, `xmlem::Document`, as an opaque
/// type that values of this module can carry.
#[verifier::external_type_specification]
#[verifier::external_body]
pub struct ExXmlemDocument(xmlem::Document);

/// Declares the engine's parse-failure type, `xmlem::ReadError`, as an
/// opaque type that the parsing wrapper can return.
#[verifier::external_type_specification]
#[verifier::external_body]
pub struct ExReadError(xmlem::ReadError);

/// Whether the engine's parser accepts the source text as a well-formed
/// document.
pub uninterp spec fn xml_well_formed(source: Seq<char>) -> bool;

/// The text that the engine renders for a document parsed from `source`,
/// under the given indent width, maximum line length, entity encoding
/// (hexadecimal or standard) and text-node indentation choice.
pub uninterp spec fn pretty_of(
    source: Seq<char>,
    indent: int,
    max_line_length: int,
    hex_entities: bool,
    indent_text_nodes: bool,
) -> Seq<char>;

/// The rendered text for a source under a resolved configuration.
pub open spec fn rendered(source: Seq<char>, config: FormatConfig) -> Seq<char> {
    pretty_of(
        source,
        config.indent as int,
        config.max_line_length as int,
        config.entity_mode is Hex,
        config.indent_text_nodes,
    )
}

/// A parsed XML document, paired with the source text it was parsed from.
/// Its view is that source text; the rendered output is a function of it.
pub struct XmlDocument {
    inner: xmlem::Document,
    source: String,
}

impl View for XmlDocument {
    type V = Seq<char>;

    closed spec fn view(&self) -> Seq<char> {
        self.source@
    }
}

/// A parse error: the document was not well-formed XML. Carries the
/// engine's description of the failure.
#[derive(Debug)]
pub struct ParseError {
    pub message: String,
}

/// Relies on `xmlem::Document`'s `FromStr` impl: parsing is a deterministic
/// function of the source text, returning `Ok` exactly on well-formed input.
#[verifier::external_body]
fn engine_parse(source: &str) -> (r: Result<XmlDocument, xmlem::ReadError>)
    ensures
        r is Ok <==> xml_well_formed(source@),
        r matches Ok(doc) ==> doc@ == source@,
{
    match <xmlem::Document as core::str::FromStr>::from_str(source) {
        Ok(inner) => Ok(XmlDocument { inner, source: source.to_owned() }),
        Err(e) => Err(e),
    }
}

/// Relies on `xmlem::ReadError`'s `Display` impl for a description of the
/// parse failure.
#[verifier::external_body]
fn read_error_message(e: &xmlem::ReadError) -> String {
    format!("{}", e)
}

/// Relies on `xmlem::Document::to_string_pretty_with_config`: rendering is
/// total on a parsed document and a deterministic function of the source
/// text and the configuration.
#[verifier::external_body]
fn engine_render(doc: &XmlDocument, config: &FormatConfig) -> (r: String)
    ensures
        r@ == pretty_of(
            doc@,
            config.indent as int,
            config.max_line_length as int,
            config.entity_mode is Hex,
            config.indent_text_nodes,
        ),
{
    let mode = match config.entity_mode {
        EntityMode::Standard => xmlem::display::EntityMode::Standard,
        EntityMode::Hex => xmlem::display::EntityMode::Hex,
    };
    let engine_config = xmlem::display::Config::default_pretty()
        .indent(config.indent)
        .max_line_length(config.max_line_length)
        .entity_mode(mode)
        .indent_text_nodes(config.indent_text_nodes);
    doc.inner.to_string_pretty_with_config(&engine_config)
}

/// Parses the source text into a document. Returns `Ok` exactly when the
/// text is well-formed XML; otherwise the error carries the engine's
/// description of the failure.
pub fn parse_document(source: &str) -> (r: Result<XmlDocument, ParseError>)
    ensures
        r is Ok <==> xml_well_formed(source@),
        r matches Ok(doc) ==> doc@ == source@,
{
    match engine_parse(source) {
        Ok(doc) => Ok(doc),
        Err(e) => Err(ParseError { message: read_error_message(&e) }),
    }
}

/// Renders a parsed document under the given configuration. Rendering is
/// total: it does not fail on any parsed document.
pub fn prettify(doc: &XmlDocument, config: &FormatConfig) -> (r: String)
    ensures
        r@ == rendered(doc@, *config),
{
    engine_render(doc, config)
}

/// Parses and renders in one step: returns the formatted text exactly when
/// the source is well-formed XML, and the parse error otherwise.
pub fn prettify_source(source: &str, config: &FormatConfig) -> (r: Result<String, ParseError>)
    ensures
        r is Ok <==> xml_well_formed(source@),
        r matches Ok(text) ==> text@ == rendered(source@, *config),
{
    match parse_document(source) {
        Ok(doc) => Ok(prettify(&doc, config)),
        Err(e) => Err(e),
    }
}

} // verus!
