//! The request resolver: maps raw command-line inputs to a fully determined
//! formatting request, or to a usage diagnostic when no valid request exists.

use vstd::prelude::*;

use crate::config::FormatConfig;
use crate::config::config_from_options;

verus! {

/// The raw flags as provided by the caller, before any resolution. All
/// fields are optional except the booleans, which default to false.
pub struct InvocationArguments {
    /// Positional argument: path to the XML document. Absent means the
    /// document is read from standard input.
    pub input_path: Option<String>,
    /// Explicit output path. Absent means standard output.
    pub output_path: Option<String>,
    /// Overwrite the input file with the formatted result.
    pub is_replace: bool,
    /// Indentation width in spaces; defaults to 2.
    pub indent: Option<usize>,
    /// Target maximum line length; defaults to 120.
    pub max_line_length: Option<usize>,
    /// Encode entities in hexadecimal numeric form.
    pub uses_hex_entities: bool,
    /// Leave text-node content as-is rather than reflowing and indenting it.
    pub is_no_text_indent: bool,
}

/// Where the document is read from: a named file, or standard input.
pub enum InputSource {
    File(String),
    Stdin,
}

/// Where the formatted text goes: a named file, or standard output.
pub enum OutputSink {
    File(String),
    Stdout,
}

/// The fully determined plan for one invocation.
pub struct ResolvedRequest {
    pub input: InputSource,
    pub output: OutputSink,
    pub config: FormatConfig,
}

/// A usage-guidance condition: the invocation cannot proceed, the user is
/// told why on the error stream, and the process exits without an error
/// status. These are not operational failures.
#[derive(Clone, Copy, PartialEq, Eq, Structural)]
pub enum Diagnostic {
    /// No input path was given and standard input is an interactive
    /// terminal, so there is no document to read.
    NoDocumentProvided,
    /// Replace-in-place was requested while reading from standard input,
    /// which has no addressable location to replace.
    CannotReplaceStdin,
}

/// The outcome of resolution: a request to execute, or guidance to print.
pub enum Resolution {
    Request(ResolvedRequest),
    Guidance(Diagnostic),
}

/// Mathematical model of an input source.
pub enum InputModel {
    File(Seq<char>),
    Stdin,
}

/// Mathematical model of an output destination.
pub enum OutputModel {
    File(Seq<char>),
    Stdout,
}

/// Mathematical model of a resolved request.
pub struct RequestModel {
    pub input: InputModel,
    pub output: OutputModel,
    pub config: FormatConfig,
}

/// Mathematical model of a resolution outcome.
pub enum ResolutionModel {
    Request(RequestModel),
    Guidance(Diagnostic),
}

/// Mathematical model of the raw arguments.
pub struct ArgsModel {
    pub input_path: Option<Seq<char>>,
    pub output_path: Option<Seq<char>>,
    pub is_replace: bool,
    pub indent: Option<usize>,
    pub max_line_length: Option<usize>,
    pub uses_hex_entities: bool,
    pub is_no_text_indent: bool,
}

impl View for InvocationArguments {
    type V = ArgsModel;

    open spec fn view(&self) -> ArgsModel {
        ArgsModel {
            input_path: match self.input_path {
                Some(p) => Some(p@),
                None => None,
            },
            output_path: match self.output_path {
                Some(p) => Some(p@),
                None => None,
            },
            is_replace: self.is_replace,
            indent: self.indent,
            max_line_length: self.max_line_length,
            uses_hex_entities: self.uses_hex_entities,
            is_no_text_indent: self.is_no_text_indent,
        }
    }
}

impl View for InputSource {
    type V = InputModel;

    open spec fn view(&self) -> InputModel {
        match self {
            InputSource::File(p) => InputModel::File(p@),
            InputSource::Stdin => InputModel::Stdin,
        }
    }
}

impl View for OutputSink {
    type V = OutputModel;

    open spec fn view(&self) -> OutputModel {
        match self {
            OutputSink::File(p) => OutputModel::File(p@),
            OutputSink::Stdout => OutputModel::Stdout,
        }
    }
}

impl View for ResolvedRequest {
    type V = RequestModel;

    open spec fn view(&self) -> RequestModel {
        RequestModel {
            input: self.input@,
            output: self.output@,
            config: self.config,
        }
    }
}

impl View for Resolution {
    type V = ResolutionModel;

    open spec fn view(&self) -> ResolutionModel {
        match self {
            Resolution::Request(req) => ResolutionModel::Request(req@),
            Resolution::Guidance(d) => ResolutionModel::Guidance(*d),
        }
    }
}

/// The input source that a set of arguments selects, once the two guidance
/// conditions are ruled out: the named file when a path is given, standard
/// input otherwise.
pub open spec fn chosen_input(args: ArgsModel) -> InputModel {
    match args.input_path {
        Some(p) => InputModel::File(p),
        None => InputModel::Stdin,
    }
}

/// The output destination that a set of arguments selects, once the two
/// guidance conditions are ruled out: the input file itself under
/// replace-in-place, the explicit output path when one is given, and
/// standard output otherwise.
pub open spec fn chosen_output(args: ArgsModel) -> OutputModel {
    if args.is_replace {
        match args.input_path {
            Some(p) => OutputModel::File(p),
            None => OutputModel::Stdout,
        }
    } else {
        match args.output_path {
            Some(p) => OutputModel::File(p),
            None => OutputModel::Stdout,
        }
    }
}

/// The resolution that a set of arguments determines. Input selection runs
/// first: with no input path and an interactive terminal on standard input
/// there is no document to read. Output selection runs second: replacing
/// the input requires a named input file.
pub open spec fn resolution_model(args: ArgsModel, stdin_is_terminal: bool) -> ResolutionModel {
    if args.input_path is None && stdin_is_terminal {
        ResolutionModel::Guidance(Diagnostic::NoDocumentProvided)
    } else if args.input_path is None && args.is_replace {
        ResolutionModel::Guidance(Diagnostic::CannotReplaceStdin)
    } else {
        ResolutionModel::Request(RequestModel {
            input: chosen_input(args),
            output: chosen_output(args),
            config: config_from_options(
                args.indent,
                args.max_line_length,
                args.uses_hex_entities,
                args.is_no_text_indent,
            ),
        })
    }
}

/// Deterministically maps the raw arguments to a resolved request, or to the
/// usage diagnostic that explains why no valid request exists.
/// `stdin_is_terminal` is the one environmental input: whether standard
/// input is connected to an interactive terminal rather than piped data.
pub fn resolve(args: InvocationArguments, stdin_is_terminal: bool) -> (r: Resolution)
    ensures
        r@ == resolution_model(args@, stdin_is_terminal),
{
    let input_path: Option<String> = match args.input_path {
        Some(p) => Some(p),
        None => {
            if stdin_is_terminal {
                return Resolution::Guidance(Diagnostic::NoDocumentProvided);
            }
            None
        }
    };

    let config = FormatConfig::from_options(
        args.indent,
        args.max_line_length,
        args.uses_hex_entities,
        args.is_no_text_indent,
    );

    if args.is_replace {
        match input_path {
            Some(p) => Resolution::Request(ResolvedRequest {
                input: InputSource::File(p.clone()),
                output: OutputSink::File(p),
                config,
            }),
            None => Resolution::Guidance(Diagnostic::CannotReplaceStdin),
        }
    } else {
        let input = match input_path {
            Some(p) => InputSource::File(p),
            None => InputSource::Stdin,
        };
        let output = match args.output_path {
            Some(p) => OutputSink::File(p),
            None => OutputSink::Stdout,
        };
        Resolution::Request(ResolvedRequest { input, output, config })
    }
}

/// Law: for every argument set that resolves to a request, exactly one
/// output destination is chosen, and the choice follows the resolution
/// rules: the input file itself under replace-in-place, the explicit output
/// path when one is given, and standard output otherwise.
pub proof fn lemma_output_selection(args: ArgsModel, stdin_is_terminal: bool)
    ensures
        resolution_model(args, stdin_is_terminal) matches ResolutionModel::Request(req) ==> {
            &&& req.output is File <==> !(req.output is Stdout)
            &&& args.is_replace ==> req.output == chosen_input(args).to_output()
            &&& !args.is_replace ==> req.output == (match args.output_path {
                Some(p) => OutputModel::File(p),
                None => OutputModel::Stdout,
            })
        },
{
}

/// Law: requesting replace-in-place while the document comes from standard
/// input (no input path, piped data) always resolves to the
/// cannot-replace diagnostic, never to a request, so no write is ever
/// attempted.
pub proof fn lemma_replace_requires_named_file(args: ArgsModel)
    requires
        args.input_path is None,
        args.is_replace,
    ensures
        resolution_model(args, false) == ResolutionModel::Guidance(Diagnostic::CannotReplaceStdin),
{
}

/// Law: omitting the input path while standard input is an interactive
/// terminal always resolves to the no-document diagnostic, never to a
/// request, so no parse is ever attempted.
pub proof fn lemma_no_document_on_terminal(args: ArgsModel)
    requires
        args.input_path is None,
    ensures
        resolution_model(args, true) == ResolutionModel::Guidance(Diagnostic::NoDocumentProvided),
{
}

impl InputModel {
    /// The output destination at the same location as this input source,
    /// as replace-in-place selects it.
    pub open spec fn to_output(self) -> OutputModel {
        match self {
            InputModel::File(p) => OutputModel::File(p),
            InputModel::Stdin => OutputModel::Stdout,
        }
    }
}

} // verus!

