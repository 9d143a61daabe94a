//! Reformats an XML document into a canonical, human-readable form.
//!
//! The library has two halves: a request resolver, which turns raw
//! command-line inputs into a fully determined formatting request (input
//! source, output destination, configuration) or a usage diagnostic, and a
//! formatting pipeline, which parses a document and renders it through the
//! `xmlem` pretty-printing engine.

pub mod config;
pub mod engine;
pub mod resolve;

pub use config::EntityMode;
pub use config::FormatConfig;
pub use engine::ParseError;
pub use engine::XmlDocument;
pub use engine::parse_document;
pub use engine::prettify;
pub use engine::prettify_source;
pub use resolve::Diagnostic;
pub use resolve::InputSource;
pub use resolve::InvocationArguments;
pub use resolve::OutputSink;
pub use resolve::ResolvedRequest;
pub use resolve::Resolution;
pub use resolve::resolve;
