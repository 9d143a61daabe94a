//! The formatting configuration: indent width, maximum line length, entity
//! encoding mode, and whether text nodes are reflowed and indented.

use vstd::prelude::*;

verus! {

/// How reserved and non-ASCII characters are written in the output:
/// named/standard form, or hexadecimal numeric character references
/// (`&#xNNNN;`).
#[derive(Clone, Copy, PartialEq, Eq, Structural)]
pub enum EntityMode {
    Standard,
    Hex,
}

/// A fully resolved formatting configuration, with all defaults applied.
#[derive(Clone, Copy, PartialEq, Eq, Structural)]
pub struct FormatConfig {
    /// Indentation width in spaces. Zero is legal: no indentation, but the
    /// line structure is still applied.
    pub indent: usize,
    /// Target maximum line length. Wrapping is best-effort: content that
    /// cannot be wrapped is still emitted intact.
    pub max_line_length: usize,
    /// Entity encoding mode for the output.
    pub entity_mode: EntityMode,
    /// Whether text-node content is reflowed and indented.
    pub indent_text_nodes: bool,
}

/// The configuration that a set of optional flags resolves to: indent
/// defaults to 2, maximum line length to 120, entity mode to standard, and
/// text-node indentation to on.
pub open spec fn config_from_options(
    indent: Option<usize>,
    max_line_length: Option<usize>,
    uses_hex_entities: bool,
    is_no_text_indent: bool,
) -> FormatConfig {
    FormatConfig {
        indent: match indent {
            Some(n) => n,
            None => 2,
        },
        max_line_length: match max_line_length {
            Some(n) => n,
            None => 120,
        },
        entity_mode: if uses_hex_entities {
            EntityMode::Hex
        } else {
            EntityMode::Standard
        },
        indent_text_nodes: !is_no_text_indent,
    }
}

impl FormatConfig {
    /// Builds a configuration from the optional command-line values,
    /// applying every default in one pass.
    pub fn from_options(
        indent: Option<usize>,
        max_line_length: Option<usize>,
        uses_hex_entities: bool,
        is_no_text_indent: bool,
    ) -> (r: FormatConfig)
        ensures
            r == config_from_options(indent, max_line_length, uses_hex_entities, is_no_text_indent),
    {
        FormatConfig {
            indent: match indent {
                Some(n) => n,
                None => 2,
            },
            max_line_length: match max_line_length {
                Some(n) => n,
                None => 120,
            },
            entity_mode: if uses_hex_entities {
                EntityMode::Hex
            } else {
                EntityMode::Standard
            },
            indent_text_nodes: !is_no_text_indent,
        }
    }
}

} // verus!
