//! Deciding where and in which format the rendered document leaves the
//! program: saved to a destination file whose extension names the
//! format, or printed to standard output in an explicitly requested
//! format.

use vstd::prelude::*;
use vstd::string::StringExecFns;

use crate::text::str_equal;

verus! {

/// A supported output format.
#[derive(Debug, Clone, Copy, PartialEq, Eq, Structural)]
pub enum OutputFormat {
    SVG,
    PNG,
    JPEG,
}

/// How the output leaves the program: saved to the requested destination
/// file, or printed to standard output.
#[derive(Debug, Clone, Copy, PartialEq, Eq, Structural)]
pub enum OutputMode {
    Save(OutputFormat),
    Print(OutputFormat),
}

/// Why no output mode could be chosen.
#[derive(Debug, Clone, PartialEq, Eq)]
pub enum OutputModeError {
    /// The destination extension or requested format names no supported
    /// format; carries the offending name.
    UnsupportedExtension(String),
    /// The destination file has no extension to guess the format from.
    UnknownFileFormat,
    /// Printing to standard output needs an explicit format option.
    MissingFormat,
}

/// The descriptive text reported for each output-mode error.
pub open spec fn output_error_message(e: OutputModeError) -> Seq<char> {
    match e {
        OutputModeError::UnsupportedExtension(x) => "invalid output: unsupported extension "@ + x@,
        OutputModeError::UnknownFileFormat => "invalid output: unable to guess output file format"@,
        OutputModeError::MissingFormat => "missing format: when outputing to standard output, a format option is required"@,
    }
}

impl OutputModeError {
    /// The descriptive text for this error value.
    pub fn message(&self) -> (r: String)
        ensures
            r@ == output_error_message(*self),
    {
        match self {
            OutputModeError::UnsupportedExtension(x) => {
                let mut m = String::from_str("invalid output: unsupported extension ");
                m.append(x.as_str());
                m
            },
            OutputModeError::UnknownFileFormat => String::from_str(
                "invalid output: unable to guess output file format",
            ),
            OutputModeError::MissingFormat => String::from_str(
                "missing format: when outputing to standard output, a format option is required",
            ),
        }
    }
}

/// The format a file extension or format name stands for: `png`, `jpg`
/// or `jpeg`, and `svg` are supported.
pub open spec fn format_for_name(name: Seq<char>) -> Option<OutputFormat> {
    if name == "png"@ {
        Option::Some(OutputFormat::PNG)
    } else if name == "jpg"@ || name == "jpeg"@ {
        Option::Some(OutputFormat::JPEG)
    } else if name == "svg"@ {
        Option::Some(OutputFormat::SVG)
    } else {
        Option::None
    }
}

/// Resolves a format name to its format.
fn format_of(name: &str) -> (r: Option<OutputFormat>)
    ensures
        r == format_for_name(name@),
{
    if str_equal(name, "png") {
        Some(OutputFormat::PNG)
    } else if str_equal(name, "jpg") || str_equal(name, "jpeg") {
        Some(OutputFormat::JPEG)
    } else if str_equal(name, "svg") {
        Some(OutputFormat::SVG)
    } else {
        None
    }
}

/// Chooses the output mode. A destination file decides by its extension
/// (`destination_extension` is the extension of that file, or `None`
/// inside `Some` when the file name has none); without a destination the
/// explicitly requested format decides; with neither, or with a name
/// that stands for no supported format, no mode can be chosen.
pub fn guess_output_mode(
    destination_extension: &Option<Option<String>>,
    requested_format: &Option<String>,
) -> (r: Result<OutputMode, OutputModeError>)
    ensures
        match *destination_extension {
            Option::Some(dest) => match dest {
                Option::Some(ext) => match format_for_name(ext@) {
                    Option::Some(f) => r == Ok::<OutputMode, OutputModeError>(OutputMode::Save(f)),
                    Option::None => r matches Err(OutputModeError::UnsupportedExtension(x)) && x@
                        == ext@,
                },
                Option::None => r == Err::<OutputMode, OutputModeError>(
                    OutputModeError::UnknownFileFormat,
                ),
            },
            Option::None => match *requested_format {
                Option::Some(fmt) => match format_for_name(fmt@) {
                    Option::Some(f) => r == Ok::<OutputMode, OutputModeError>(
                        OutputMode::Print(f),
                    ),
                    Option::None => r matches Err(OutputModeError::UnsupportedExtension(x)) && x@
                        == fmt@,
                },
                Option::None => r == Err::<OutputMode, OutputModeError>(
                    OutputModeError::MissingFormat,
                ),
            },
        },
{
    match destination_extension {
        Option::Some(dest) => match dest {
            Option::Some(ext) => match format_of(ext.as_str()) {
                Option::Some(f) => Ok(OutputMode::Save(f)),
                Option::None => Err(OutputModeError::UnsupportedExtension(ext.clone())),
            },
            Option::None => Err(OutputModeError::UnknownFileFormat),
        },
        Option::None => match requested_format {
            Option::Some(fmt) => match format_of(fmt.as_str()) {
                Option::Some(f) => Ok(OutputMode::Print(f)),
                Option::None => Err(OutputModeError::UnsupportedExtension(fmt.clone())),
            },
            Option::None => Err(OutputModeError::MissingFormat),
        },
    }
}

} // verus!
