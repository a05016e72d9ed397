//! The extraction service: from a request to the command line to run, and
//! from what the run gave to what the caller sees.

use vstd::prelude::*;
use vstd::string::*;
use crate::command_manager::{words, CommandLine, CommandManager, CommandOutput, Launch};
use crate::error::AtiumError;
use crate::model::{InfoExtractorEngine, InfoExtractorRequest, InfoExtractorResponse, InfoFormat};

verus! {

/// What is kept of a request while the tool runs.
#[derive(Clone, Debug, PartialEq, Eq)]
pub struct PendingExtraction {
    pub format: InfoFormat,
    pub output_file: Option<String>,
}

/// What is to be done once the tool has run.
#[derive(Debug, PartialEq, Eq)]
pub enum ExtractionStep {
    /// The extraction has failed: show `console` to the caller, if there is
    /// any, and hand back `error`, however the showing went.
    Fail { console: Option<Vec<u8>>, error: AtiumError },
    /// Show `contents` on the console, then go on with how that went.
    Show { contents: Vec<u8> },
    /// Write `contents` to the file at `path`, then conclude with how that went.
    Write { path: String, contents: Vec<u8> },
}

/// The text of a string that may be absent.
pub open spec fn optional_text(s: Option<String>) -> Option<Seq<char>> {
    match s {
        Some(t) => Some(t@),
        None => None,
    }
}

/// Whether `c` is a digit of lower-case hexadecimal.
pub open spec fn is_lower_hex(c: char) -> bool {
    ('0' <= c && c <= '9') || ('a' <= c && c <= 'f')
}

/// Whether `c` may stand at place `i` of an identifier: a hyphen after the
/// groups of 8, 4, 4 and 4 digits, a lower-case hexadecimal digit elsewhere.
pub open spec fn fits_identifier(i: int, c: char) -> bool {
    if i == 8 || i == 13 || i == 18 || i == 23 {
        c == '-'
    } else {
        is_lower_hex(c)
    }
}

/// Whether `id` has the shape of a random identifier: thirty-two lower-case
/// hexadecimal digits in groups of 8, 4, 4, 4 and 12 with a hyphen between
/// groups, where the third group starts with `4` (the version) and the
/// fourth with `8`, `9`, `a` or `b` (the variant).
pub open spec fn is_identifier(id: Seq<char>) -> bool {
    &&& id.len() == 36
    &&& forall|i: int| 0 <= i < 36 ==> fits_identifier(i, #[trigger] id[i])
    &&& id[14] == '4'
    &&& (id[19] == '8' || id[19] == '9' || id[19] == 'a' || id[19] == 'b')
}

/// The argument that asks the tool for `format`.
pub open spec fn format_argument(format: InfoFormat) -> Seq<char> {
    match format {
        InfoFormat::Json => "--output=JSON"@,
        InfoFormat::Html => "--output=HTML"@,
        InfoFormat::Xml => "--output=XML"@,
    }
}

/// The arguments the tool is run with for `request`: the format, then
/// `--full` if the complete report is wanted, then the input path.
pub open spec fn media_info_arguments(request: InfoExtractorRequest) -> Seq<Seq<char>> {
    if request.spec_full() {
        seq![format_argument(request.spec_format()), "--full"@, request.input@]
    } else {
        seq![format_argument(request.spec_format()), request.input@]
    }
}

/// Whether `path` names the report file for `stem` in `format`: the stem
/// followed by the format's suffix, with an identifier for an empty stem.
pub open spec fn names_report(path: Seq<char>, stem: Seq<char>, format: InfoFormat) -> bool {
    if stem.len() > 0 {
        path == stem + format.spec_extension()
    } else {
        exists|id: Seq<char>| #[trigger] is_identifier(id) && path == id + format.spec_extension()
    }
}

/// Whether `step` delivers `report` as asked: to be shown on the console when
/// no output file was named, to be written to the named file otherwise.
pub open spec fn delivered(
    report: Seq<u8>,
    output_file: Option<Seq<char>>,
    format: InfoFormat,
    step: ExtractionStep,
) -> bool {
    match output_file {
        None => {
            &&& step matches ExtractionStep::Show { contents }
            &&& contents@ == report
        },
        Some(stem) => {
            &&& step matches ExtractionStep::Write { path, contents }
            &&& contents@ == report
            &&& names_report(path@, stem, format)
        },
    }
}

/// Whether `step` is what follows `launch` for the extraction `pending`.
///
/// A tool that did not start ends the extraction with a command error and
/// nothing shown. A tool that reported failure has its standard output shown,
/// where it puts its complaints, and ends the extraction with a command
/// error. A tool that succeeded has its standard output delivered.
pub open spec fn routed(pending: PendingExtraction, launch: Launch, step: ExtractionStep) -> bool {
    match launch {
        Launch::NotStarted => {
            &&& step matches ExtractionStep::Fail { console: None, error: e }
            &&& e is CommandError
            &&& e.text() == "Could not execute command"@
        },
        Launch::Exited(output) => if output.success {
            delivered(output.stdout@, optional_text(pending.output_file), pending.format, step)
        } else {
            &&& step matches ExtractionStep::Fail { console: Some(shown), error: e }
            &&& shown@ == output.stdout@
            &&& e is CommandError
            &&& e.text() == "Command execution returned ERROR status"@
        },
    }
}

/// Whether `r` is what an extraction ends in once its report was to be shown
/// on the console and `printed` came of that: a response without a file if
/// the report was shown, and otherwise the very error the showing gave.
pub open spec fn presented(
    printed: Result<(), AtiumError>,
    r: Result<InfoExtractorResponse, AtiumError>,
) -> bool {
    match printed {
        Ok(_) => r matches Ok(response) && response.spec_file() is None,
        Err(e) => r == Err::<InfoExtractorResponse, AtiumError>(e),
    }
}

/// Whether `r` is what an extraction ends in once the write to `path` was
/// tried: a response that names the path if the write succeeded, an I/O
/// error if it did not.
pub open spec fn concluded(
    path: Seq<char>,
    written: bool,
    r: Result<InfoExtractorResponse, AtiumError>,
) -> bool {
    if written {
        r matches Ok(response) && response.spec_file() == Some(path)
    } else {
        r matches Err(e) && e is IOError && e.text() == "could not write to file!"@
    }
}

/// The capability every extraction engine offers.
///
/// An extraction is opened with `get_info`, which gives the command line to
/// run. What running it gave goes to `resume`, which either ends the
/// extraction in an error or asks for the report to be shown or written. How
/// the showing went goes to `shown`, how the write went to `conclude`.
pub trait InfoExtractorService {
    /// The program the engine runs.
    spec fn program(&self) -> Seq<char>;

    /// The arguments the engine runs its program with for `request`.
    spec fn arguments(&self, request: InfoExtractorRequest) -> Seq<Seq<char>>;

    /// Opens an extraction: the command line to run, and what to keep of the
    /// request until the run is over.
    fn get_info(&self, request: InfoExtractorRequest) -> (r: (CommandLine, PendingExtraction))
        ensures
            r.0@ == (self.program(), self.arguments(request)),
            r.1.format == request.spec_format(),
            optional_text(r.1.output_file) == optional_text(request.output_file),
    ;

    /// Takes what running the command line gave and says what follows.
    fn resume(&self, pending: PendingExtraction, launch: Launch) -> (step: ExtractionStep)
        ensures
            routed(pending, launch, step),
    ;

    /// Ends an extraction whose report was to be shown on the console: the
    /// response names no file if the report was shown, and the error of the
    /// showing comes back unchanged if it was not.
    fn shown(&self, printed: Result<(), AtiumError>) -> (r: Result<
        InfoExtractorResponse,
        AtiumError,
    >)
        ensures
            presented(printed, r),
    ;

    /// Ends an extraction whose report was to be written to `path`: the
    /// response names the path if the write succeeded, and an I/O error comes
    /// back if it did not.
    fn conclude(&self, path: String, written: bool) -> (r: Result<InfoExtractorResponse, AtiumError>)
        ensures
            concluded(path@, written, r),
    ;
}

/// Builds the service for an engine.
pub struct InfoExtractorBuilder {}

/// The engine that runs the `mediainfo` tool.
#[derive(Clone, Debug, PartialEq, Eq)]
pub struct MediaInfoExtractorService {
    command_manager: CommandManager,
}

/// A new random identifier as text.
///
/// Calls `uuid::Uuid::new_v4` and formats the result with `to_string`, which
/// writes the hyphenated lower-case form. The contract claims that shape,
/// with the version and variant digits that `new_v4` sets, and nothing about
/// which identifier comes back. The call aborts if the operating system
/// gives no random bytes.
#[verifier::external_body]
fn fresh_identifier() -> (id: String)
    ensures
        is_identifier(id@),
{
    uuid::Uuid::new_v4().to_string()
}

/// The path of the report file with the given stem: the stem followed by the
/// format's suffix.
pub fn report_path(stem: String, format: InfoFormat) -> (path: String)
    ensures
        path@ == stem@ + format.spec_extension(),
{
    stem.concat(format.extension())
}

impl InfoExtractorBuilder {
    /// The command line whose start shows that the engine's tool is present.
    pub fn probe(engine: InfoExtractorEngine) -> (line: CommandLine)
        ensures
            line@ == ("mediainfo"@, seq!["--version"@]),
    {
        match engine {
            InfoExtractorEngine::MediaInfo => {
                let mut args: Vec<String> = Vec::new();
                args.push(String::from_str("--version"));
                assert(words(args@) =~= seq!["--version"@]);
                CommandManager::probe("mediainfo", args)
            },
        }
    }

    /// The service for `engine`, given what running its probe gave. A service
    /// is built if and only if the probe started; otherwise a command error
    /// comes back.
    pub fn new(engine: InfoExtractorEngine, probe: Launch) -> (r: Result<
        Box<dyn InfoExtractorService>,
        AtiumError,
    >)
        ensures
            probe is Exited <==> r is Ok,
            r matches Ok(service) ==> service.program() == "mediainfo"@ && forall|
                request: InfoExtractorRequest,
            | #[trigger] service.arguments(request) == media_info_arguments(request),
            r matches Err(e) ==> e is CommandError && e.text() == "Could not execute command"@,
    {
        match engine {
            InfoExtractorEngine::MediaInfo => {
                match CommandManager::new("mediainfo", &probe) {
                    Ok(command_manager) => Ok(Box::new(MediaInfoExtractorService::new(command_manager))),
                    Err(e) => Err(e),
                }
            },
        }
    }
}

impl MediaInfoExtractorService {
    /// The service that runs the program of `command_manager`.
    pub fn new(command_manager: CommandManager) -> (service: MediaInfoExtractorService)
        ensures
            service.program() == command_manager.program(),
    {
        MediaInfoExtractorService { command_manager }
    }

    /// Asks for the standard output of the run to be shown on the console.
    pub fn write_to_stdout(&self, output: CommandOutput) -> (step: ExtractionStep)
        ensures
            step matches ExtractionStep::Show { contents } && contents@ == output.stdout@,
    {
        ExtractionStep::Show { contents: output.stdout }
    }

    /// Asks for the report to be written to the file named by `out_filepath`
    /// and `format`. An empty `out_filepath` stands for a stem that is still
    /// to be chosen: a new random identifier takes its place.
    pub fn write_info_to_file(
        &self,
        output: CommandOutput,
        out_filepath: String,
        format: InfoFormat,
    ) -> (step: ExtractionStep)
        ensures
            step matches ExtractionStep::Write { path, contents } && contents@ == output.stdout@
                && names_report(path@, out_filepath@, format),
    {
        let id = if out_filepath.as_str().is_empty() {
            fresh_identifier()
        } else {
            out_filepath
        };
        let path = report_path(id, format);
        ExtractionStep::Write { path, contents: output.stdout }
    }

    /// Delivers the report of a run that succeeded: to the console when no
    /// output file was asked for, to that file otherwise.
    pub fn write_result(
        &self,
        execution_result: CommandOutput,
        output_file: Option<String>,
        format: InfoFormat,
    ) -> (step: ExtractionStep)
        ensures
            delivered(execution_result.stdout@, optional_text(output_file), format, step),
    {
        match output_file {
            None => self.write_to_stdout(execution_result),
            Some(output_filepath) => self.write_info_to_file(
                execution_result,
                output_filepath,
                format,
            ),
        }
    }
}

impl InfoExtractorService for MediaInfoExtractorService {
    closed spec fn program(&self) -> Seq<char> {
        self.command_manager.program()
    }

    open spec fn arguments(&self, request: InfoExtractorRequest) -> Seq<Seq<char>> {
        media_info_arguments(request)
    }

    fn get_info(&self, request: InfoExtractorRequest) -> (r: (CommandLine, PendingExtraction)) {
        let format = request.resolved_format();
        let full = request.resolved_full();

        let mut args: Vec<String> = Vec::new();
        match format {
            InfoFormat::Json => {
                args.push(String::from_str("--output=JSON"));
            },
            InfoFormat::Html => {
                args.push(String::from_str("--output=HTML"));
            },
            InfoFormat::Xml => {
                args.push(String::from_str("--output=XML"));
            },
        }
        if full {
            args.push(String::from_str("--full"));
        }
        args.push(request.input.clone());
        assert(words(args@) =~= media_info_arguments(request));

        let line = self.command_manager.execute_with_args(args);
        (line, PendingExtraction { format, output_file: request.output_file })
    }

    fn resume(&self, pending: PendingExtraction, launch: Launch) -> (step: ExtractionStep) {
        match launch {
            Launch::Exited(execution_result) => {
                if !execution_result.success {
                    return ExtractionStep::Fail {
                        console: Some(execution_result.stdout),
                        error: AtiumError::CommandError(
                            String::from_str("Command execution returned ERROR status"),
                        ),
                    };
                }
                self.write_result(execution_result, pending.output_file, pending.format)
            },
            Launch::NotStarted => ExtractionStep::Fail {
                console: None,
                error: AtiumError::CommandError(String::from_str("Could not execute command")),
            },
        }
    }

    fn shown(&self, printed: Result<(), AtiumError>) -> (r: Result<
        InfoExtractorResponse,
        AtiumError,
    >) {
        match printed {
            Ok(_) => Ok(InfoExtractorResponse::inline()),
            Err(e) => Err(e),
        }
    }

    fn conclude(&self, path: String, written: bool) -> (r: Result<
        InfoExtractorResponse,
        AtiumError,
    >) {
        if written {
            Ok(InfoExtractorResponse::written(path))
        } else {
            Err(AtiumError::IOError(String::from_str("could not write to file!")))
        }
    }
}

/// Whatever the format, a request that names no output file has the tool run
/// with the argument for that format, a run that succeeds has its standard
/// output shown on the console, and once that is shown the extraction ends in
/// a response without a file.
pub proof fn lemma_inline_report(
    service: MediaInfoExtractorService,
    request: InfoExtractorRequest,
    pending: PendingExtraction,
    output: CommandOutput,
    step: ExtractionStep,
    r: Result<InfoExtractorResponse, AtiumError>,
)
    requires
        request.output_file is None,
        pending.format == request.spec_format(),
        optional_text(pending.output_file) == optional_text(request.output_file),
        output.success,
        routed(pending, Launch::Exited(output), step),
        presented(Ok(()), r),
    ensures
        service.arguments(request)[0] == format_argument(request.spec_format()),
        service.arguments(request).contains(format_argument(request.spec_format())),
        step matches ExtractionStep::Show { contents } && contents@ == output.stdout@,
        r matches Ok(response) && response.spec_file() is None,
{
    assert(service.arguments(request)[0] == format_argument(request.spec_format()));
}

/// For a stem that is not empty, the file asked for is the stem followed by
/// the format's suffix, and once it is written the response names that path.
pub proof fn lemma_named_report(
    pending: PendingExtraction,
    output: CommandOutput,
    step: ExtractionStep,
    stem: Seq<char>,
    r: Result<InfoExtractorResponse, AtiumError>,
)
    requires
        optional_text(pending.output_file) == Some(stem),
        stem.len() > 0,
        output.success,
        routed(pending, Launch::Exited(output), step),
        step matches ExtractionStep::Write { path, .. } ==> concluded(path@, true, r),
    ensures
        step matches ExtractionStep::Write { path, contents } && contents@ == output.stdout@
            && path@ == stem + pending.format.spec_extension(),
        r matches Ok(response) && response.spec_file() == Some(
            stem + pending.format.spec_extension(),
        ),
{
}

/// For an empty stem, the file asked for has a name that is not empty: an
/// identifier followed by the format's suffix.
pub proof fn lemma_generated_report(
    pending: PendingExtraction,
    output: CommandOutput,
    step: ExtractionStep,
)
    requires
        optional_text(pending.output_file) == Some(Seq::<char>::empty()),
        output.success,
        routed(pending, Launch::Exited(output), step),
    ensures
        step matches ExtractionStep::Write { path, contents } && contents@ == output.stdout@
            && path@.len() == 36 + pending.format.spec_extension().len() && path@.len() > 0
            && is_identifier(path@.subrange(0, 36)) && path@.subrange(36, path@.len() as int)
            == pending.format.spec_extension(),
{
    if let ExtractionStep::Write { path, contents } = step {
        let ext = pending.format.spec_extension();
        let id = choose|id: Seq<char>| #[trigger] is_identifier(id) && path@ == id + ext;
        assert(path@.subrange(0, 36) =~= id);
        assert(path@.subrange(36, path@.len() as int) =~= ext);
    }
}

/// Leaving `full` out of a request is the same as asking for the complete
/// report: the tool is run with the same arguments.
pub proof fn lemma_full_by_default(
    service: MediaInfoExtractorService,
    omitted: InfoExtractorRequest,
    explicit: InfoExtractorRequest,
)
    requires
        omitted.full is None,
        explicit.full == Some(true),
        omitted.input@ == explicit.input@,
        omitted.format == explicit.format,
    ensures
        omitted.spec_full(),
        service.arguments(omitted) == service.arguments(explicit),
        service.arguments(omitted) == seq![
            format_argument(omitted.spec_format()),
            "--full"@,
            omitted.input@,
        ],
{
}

/// A tool that reports failure never gets a response through, whatever it
/// wrote: the extraction ends in a command error, with the tool's standard
/// output to be shown, and no file is asked for.
pub proof fn lemma_failed_run(pending: PendingExtraction, output: CommandOutput, step: ExtractionStep)
    requires
        !output.success,
        routed(pending, Launch::Exited(output), step),
    ensures
        step matches ExtractionStep::Fail { console: Some(shown), error } && shown@
            == output.stdout@ && error is CommandError,
{
}

/// A report that could not be shown never gets a response through: the
/// extraction ends in the error that the showing gave.
pub proof fn lemma_failed_print(
    e: AtiumError,
    r: Result<InfoExtractorResponse, AtiumError>,
)
    requires
        presented(Err(e), r),
    ensures
        r matches Err(given) && given == e,
{
}

/// A write that failed never gets a response through: the extraction ends in
/// an I/O error.
pub proof fn lemma_failed_write(path: Seq<char>, r: Result<InfoExtractorResponse, AtiumError>)
    requires
        concluded(path, false, r),
    ensures
        r matches Err(e) && e is IOError,
{
}

} // verus!
