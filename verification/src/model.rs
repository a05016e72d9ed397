//! Requests, responses and the choices a caller makes.

use vstd::prelude::*;

verus! {

/// The format in which the tool reports.
#[derive(Clone, Copy, Debug, PartialEq, Eq, Structural)]
pub enum InfoFormat {
    Json,
    Html,
    Xml,
}

/// The backends that can extract information.
#[derive(Clone, Copy, Debug, PartialEq, Eq, Structural)]
pub enum InfoExtractorEngine {
    MediaInfo,
}

/// What a caller asks for.
#[derive(Clone, Debug, PartialEq, Eq)]
pub struct InfoExtractorRequest {
    /// Path of the media file to inspect.
    pub input: String,
    /// Report format; JSON when absent.
    pub format: Option<InfoFormat>,
    /// Whether the complete report is wanted; it is when absent.
    pub full: Option<bool>,
    /// Stem of the file to write the report to. When absent the report is
    /// shown on the console; when empty a stem is generated.
    pub output_file: Option<String>,
}

/// Where the report went.
#[derive(Clone, Debug, PartialEq, Eq)]
pub struct InfoExtractorResponseOutput {
    /// Path of the written file, if one was written.
    pub file: Option<String>,
}

/// What a caller gets back from a successful extraction.
#[derive(Clone, Debug, PartialEq, Eq)]
pub struct InfoExtractorResponse {
    pub output: InfoExtractorResponseOutput,
}

impl InfoFormat {
    /// The suffix of a report file in this format, dot included.
    pub open spec fn spec_extension(self) -> Seq<char> {
        match self {
            InfoFormat::Json => ".json"@,
            InfoFormat::Html => ".html"@,
            InfoFormat::Xml => ".xml"@,
        }
    }

    /// The suffix of a report file in this format, dot included.
    pub fn extension(&self) -> (ext: &'static str)
        ensures
            ext@ == self.spec_extension(),
    {
        match self {
            InfoFormat::Json => ".json",
            InfoFormat::Html => ".html",
            InfoFormat::Xml => ".xml",
        }
    }
}

impl InfoExtractorRequest {
    /// The format the request resolves to: JSON unless another is named.
    pub open spec fn spec_format(self) -> InfoFormat {
        match self.format {
            Some(f) => f,
            None => InfoFormat::Json,
        }
    }

    /// Whether the request resolves to a complete report: yes unless it says no.
    pub open spec fn spec_full(self) -> bool {
        match self.full {
            Some(b) => b,
            None => true,
        }
    }

    /// The format the request resolves to.
    pub fn resolved_format(&self) -> (f: InfoFormat)
        ensures
            f == self.spec_format(),
    {
        match self.format {
            Some(f) => f,
            None => InfoFormat::Json,
        }
    }

    /// Whether the request resolves to a complete report.
    pub fn resolved_full(&self) -> (b: bool)
        ensures
            b == self.spec_full(),
    {
        match self.full {
            Some(b) => b,
            None => true,
        }
    }
}

impl InfoExtractorResponse {
    /// The path the response names, if it names one.
    pub open spec fn spec_file(self) -> Option<Seq<char>> {
        match self.output.file {
            Some(p) => Some(p@),
            None => None,
        }
    }

    /// A response for a report that was only shown.
    pub fn inline() -> (r: InfoExtractorResponse)
        ensures
            r.spec_file() == None::<Seq<char>>,
    {
        InfoExtractorResponse { output: InfoExtractorResponseOutput { file: None } }
    }

    /// A response for a report written to `path`.
    pub fn written(path: String) -> (r: InfoExtractorResponse)
        ensures
            r.spec_file() == Some(path@),
    {
        InfoExtractorResponse { output: InfoExtractorResponseOutput { file: Some(path) } }
    }
}

} // verus!
