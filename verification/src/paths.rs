//! Path resolution: validating the input path's `.epub` extension and
//! deriving the intermediate HTML path and the final Markdown output path.

use vstd::prelude::*;
use vstd::string::StrSliceExecFns;
use vstd::string::StringExecFns;
use crate::errors::ErrorModel;
use crate::errors::PipelineError;
use crate::text::ends_with;
use crate::text::file_name;
use crate::text::file_name_of;
use crate::text::join;
use crate::text::join_path;
use crate::text::str_ends_with;
use crate::text::trim_suffix;
use crate::text::trim_suffix_of;

verus! {

/// What one conversion attempt is asked to do: the input EPUB path and,
/// optionally, a caller-supplied output path.
#[derive(Debug)]
pub struct InputSpec {
    pub epub_path: String,
    pub output_path: Option<String>,
}

/// Mathematical model of an [`InputSpec`].
pub struct InputModel {
    pub epub_path: Seq<char>,
    pub output_path: Option<Seq<char>>,
}

impl View for InputSpec {
    type V = InputModel;

    open spec fn view(&self) -> InputModel {
        InputModel {
            epub_path: self.epub_path@,
            output_path: match self.output_path {
                Some(ref p) => Some(p@),
                None => None,
            },
        }
    }
}

/// The two paths one conversion run works with: the staged HTML file and
/// the final Markdown file.
#[derive(Debug)]
pub struct ResolvedPaths {
    pub intermediate: String,
    pub output: String,
}

/// Mathematical model of a [`ResolvedPaths`].
pub struct PathsModel {
    pub intermediate: Seq<char>,
    pub output: Seq<char>,
}

impl View for ResolvedPaths {
    type V = PathsModel;

    open spec fn view(&self) -> PathsModel {
        PathsModel { intermediate: self.intermediate@, output: self.output@ }
    }
}

/// The extension suffix an input path must carry, case-sensitively.
pub open spec fn epub_suffix() -> Seq<char> {
    ".epub"@
}

/// The fixed name of the staged HTML file in the working directory.
pub open spec fn intermediate_file_name() -> Seq<char> {
    "temp_epub.html"@
}

/// An input path is accepted exactly when its file-name part ends with
/// `.epub` and holds more than that suffix, so that the extension is
/// `epub` and the stem is not empty.
pub open spec fn valid_epub_path(p: Seq<char>) -> bool {
    file_name_of(p).len() > epub_suffix().len() && ends_with(file_name_of(p), epub_suffix())
}

/// The message given for an input path without a file-name part.
pub open spec fn no_file_name_msg() -> Seq<char> {
    "the input path has no file name"@
}

/// The message given for an input path whose extension is not `.epub`.
pub open spec fn bad_extension_msg() -> Seq<char> {
    "the input file must have the .epub extension"@
}

/// The error a rejected input path produces.
pub open spec fn invalid_input_error(p: Seq<char>) -> ErrorModel {
    if file_name_of(p).len() == 0 {
        ErrorModel::InvalidInput { msg: no_file_name_msg() }
    } else {
        ErrorModel::InvalidInput { msg: bad_extension_msg() }
    }
}

/// The output file name derived from the input's file name: every trailing
/// literal `.epub` trimmed off, then `.md` appended.
pub open spec fn derived_output_name(name: Seq<char>) -> Seq<char> {
    trim_suffix(name, epub_suffix()) + ".md"@
}

/// The output path of a run: the caller-supplied path verbatim when one was
/// given, otherwise the derived file name placed in the working directory.
pub open spec fn resolved_output(input: InputModel, cwd: Seq<char>) -> Seq<char> {
    match input.output_path {
        Some(out) => out,
        None => join_path(cwd, derived_output_name(file_name_of(input.epub_path))),
    }
}

/// Both paths of a run: the fixed intermediate file in the working
/// directory, and the resolved output path.
pub open spec fn resolved_model(input: InputModel, cwd: Seq<char>) -> PathsModel {
    PathsModel {
        intermediate: join_path(cwd, intermediate_file_name()),
        output: resolved_output(input, cwd),
    }
}

/// Decides whether an input path is accepted by the pipeline.
pub fn validate_epub_path(p: &str) -> (b: bool)
    ensures
        b == valid_epub_path(p@),
{
    let name = file_name(p);
    str_ends_with(name, ".epub") && name.unicode_len() > ".epub".unicode_len()
}

/// The error a rejected input path produces, as a value.
pub fn invalid_input_value(p: &str) -> (e: PipelineError)
    ensures
        e@ == invalid_input_error(p@),
{
    let name = file_name(p);
    if name.unicode_len() == 0 {
        PipelineError::InvalidInput { msg: String::from_str("the input path has no file name") }
    } else {
        PipelineError::InvalidInput {
            msg: String::from_str("the input file must have the .epub extension"),
        }
    }
}

/// Derives the intermediate HTML path and the final Markdown output path
/// from the input and the working directory.  Returns `Ok` exactly when the
/// input path is accepted; a caller-supplied output path passes through
/// unchanged, and a derived one is the input's file name with every
/// trailing `.epub` trimmed and `.md` appended, joined onto `cwd`.
pub fn resolve_paths(input: &InputSpec, cwd: &str) -> (r: Result<ResolvedPaths, PipelineError>)
    ensures
        r is Ok <==> valid_epub_path(input@.epub_path),
        r matches Ok(paths) ==> paths@ == resolved_model(input@, cwd@),
        r matches Err(e) ==> e@ == invalid_input_error(input@.epub_path),
{
    if !validate_epub_path(input.epub_path.as_str()) {
        return Err(invalid_input_value(input.epub_path.as_str()));
    }
    let intermediate = join(cwd, "temp_epub.html");
    let output = match &input.output_path {
        Some(out) => out.clone(),
        None => {
            let name = file_name(input.epub_path.as_str());
            proof {
                reveal_strlit(".epub");
            }
            let stem = trim_suffix_of(name, ".epub");
            let md_name = stem.concat(".md");
            join(cwd, md_name.as_str())
        },
    };
    Ok(ResolvedPaths { intermediate, output })
}

} // verus!
