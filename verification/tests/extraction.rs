use atium::command_manager::{CommandLine, CommandManager, CommandOutput, Launch};
use atium::error::AtiumError;
use atium::model::{
    InfoExtractorEngine, InfoExtractorRequest, InfoExtractorResponse, InfoExtractorResponseOutput,
    InfoFormat,
};
use atium::service::{
    report_path, ExtractionStep, InfoExtractorBuilder, InfoExtractorService,
    MediaInfoExtractorService, PendingExtraction,
};

fn finished(success: bool, stdout: &[u8]) -> Launch {
    Launch::Exited(CommandOutput { success, stdout: stdout.to_vec(), stderr: Vec::new() })
}

fn service() -> Box<dyn InfoExtractorService> {
    match InfoExtractorBuilder::new(InfoExtractorEngine::MediaInfo, finished(true, b"v1")) {
        Ok(s) => s,
        Err(e) => panic!("no service: {:?}", e),
    }
}

fn request(
    input: &str,
    format: Option<InfoFormat>,
    full: Option<bool>,
    output_file: Option<&str>,
) -> InfoExtractorRequest {
    InfoExtractorRequest {
        input: input.to_string(),
        format,
        full,
        output_file: output_file.map(|s| s.to_string()),
    }
}

fn strings(words: &[&str]) -> Vec<String> {
    words.iter().map(|w| w.to_string()).collect()
}

fn formats() -> Vec<(InfoFormat, &'static str, &'static str)> {
    vec![
        (InfoFormat::Json, "--output=JSON", ".json"),
        (InfoFormat::Html, "--output=HTML", ".html"),
        (InfoFormat::Xml, "--output=XML", ".xml"),
    ]
}

#[test]
fn probe_asks_mediainfo_for_its_version() {
    let line = InfoExtractorBuilder::probe(InfoExtractorEngine::MediaInfo);
    assert_eq!(
        line,
        CommandLine { program: "mediainfo".to_string(), args: strings(&["--version"]) }
    );
}

#[test]
fn builder_refuses_a_tool_that_did_not_start() {
    let r = InfoExtractorBuilder::new(InfoExtractorEngine::MediaInfo, Launch::NotStarted);
    match r {
        Ok(_) => panic!("a service was built"),
        Err(e) => {
            assert_eq!(e, AtiumError::CommandError("Could not execute command".to_string()))
        }
    }
}

#[test]
fn builder_accepts_a_probe_that_started_whatever_its_status() {
    assert!(InfoExtractorBuilder::new(InfoExtractorEngine::MediaInfo, finished(true, b"")).is_ok());
    assert!(
        InfoExtractorBuilder::new(InfoExtractorEngine::MediaInfo, finished(false, b"")).is_ok()
    );
}

#[test]
fn default_request_is_shown_on_the_console() {
    let s = service();
    let (line, pending) = s.get_info(request("clip.mp4", None, None, None));
    assert_eq!(line.program, "mediainfo");
    assert_eq!(line.args, strings(&["--output=JSON", "--full", "clip.mp4"]));
    assert_eq!(pending, PendingExtraction { format: InfoFormat::Json, output_file: None });
    let step = s.resume(pending, finished(true, b"{\"media\":1}"));
    assert_eq!(step, ExtractionStep::Show { contents: b"{\"media\":1}".to_vec() });
    assert_eq!(
        s.shown(Ok(())),
        Ok(InfoExtractorResponse { output: InfoExtractorResponseOutput { file: None } })
    );
}

#[test]
fn xml_report_is_written_to_the_named_file() {
    let s = service();
    let (line, pending) =
        s.get_info(request("clip.mp4", Some(InfoFormat::Xml), None, Some("report")));
    assert_eq!(line.args, strings(&["--output=XML", "--full", "clip.mp4"]));
    let step = s.resume(pending, finished(true, b"<xml/>"));
    assert_eq!(
        step,
        ExtractionStep::Write { path: "report.xml".to_string(), contents: b"<xml/>".to_vec() }
    );
    let response = s.conclude("report.xml".to_string(), true);
    assert_eq!(
        response,
        Ok(InfoExtractorResponse {
            output: InfoExtractorResponseOutput { file: Some("report.xml".to_string()) }
        })
    );
}

#[test]
fn every_format_has_its_argument_and_no_file_when_none_is_asked() {
    let s = service();
    for (format, argument, _) in formats() {
        let (line, pending) = s.get_info(request("a.mkv", Some(format), Some(false), None));
        assert_eq!(line.args, strings(&[argument, "a.mkv"]));
        match s.resume(pending, finished(true, b"out")) {
            ExtractionStep::Show { contents } => {
                assert_eq!(contents, b"out".to_vec());
                assert_eq!(s.shown(Ok(())).unwrap().output.file, None);
            }
            other => panic!("unexpected step {:?}", other),
        }
    }
}

#[test]
fn named_stem_gets_the_extension_of_the_format() {
    let s = service();
    for (format, _, extension) in formats() {
        let (_, pending) = s.get_info(request("a.mkv", Some(format), None, Some("out/info")));
        match s.resume(pending, finished(true, b"data")) {
            ExtractionStep::Write { path, contents } => {
                assert_eq!(path, format!("out/info{}", extension));
                assert_eq!(contents, b"data".to_vec());
                let response = s.conclude(path.clone(), true).unwrap();
                assert_eq!(response.output.file, Some(path));
            }
            other => panic!("unexpected step {:?}", other),
        }
    }
}

fn generated_path(s: &dyn InfoExtractorService, format: InfoFormat) -> String {
    let (_, pending) = s.get_info(request("a.mkv", Some(format), None, Some("")));
    match s.resume(pending, finished(true, b"data")) {
        ExtractionStep::Write { path, contents } => {
            assert_eq!(contents, b"data".to_vec());
            path
        }
        other => panic!("unexpected step {:?}", other),
    }
}

#[test]
fn empty_stem_gets_a_fresh_identifier() {
    let s = service();
    for (format, _, extension) in formats() {
        let first = generated_path(s.as_ref(), format);
        let second = generated_path(s.as_ref(), format);
        assert_ne!(first, second);
        for path in [first, second] {
            assert!(!path.is_empty());
            assert!(path.ends_with(extension));
            assert_eq!(path.len(), 36 + extension.len());
            let id: Vec<char> = path.chars().take(36).collect();
            for (i, c) in id.iter().enumerate() {
                if i == 8 || i == 13 || i == 18 || i == 23 {
                    assert_eq!(*c, '-');
                } else {
                    assert!(matches!(*c, '0'..='9' | 'a'..='f'));
                }
            }
            assert_eq!(id[14], '4');
            assert!(matches!(id[19], '8' | '9' | 'a' | 'b'));
        }
    }
}

#[test]
fn omitted_full_is_full() {
    let s = service();
    let (omitted, _) = s.get_info(request("clip.mp4", Some(InfoFormat::Html), None, None));
    let (explicit, _) = s.get_info(request("clip.mp4", Some(InfoFormat::Html), Some(true), None));
    assert_eq!(omitted, explicit);
    assert_eq!(omitted.args, strings(&["--output=HTML", "--full", "clip.mp4"]));
    let (brief, _) = s.get_info(request("clip.mp4", Some(InfoFormat::Html), Some(false), None));
    assert_eq!(brief.args, strings(&["--output=HTML", "clip.mp4"]));
}

#[test]
fn failed_run_is_a_command_error_and_shows_standard_output() {
    let s = service();
    for output_file in [None, Some("report"), Some("")] {
        let (_, pending) = s.get_info(request("clip.mp4", None, None, output_file));
        let launch = Launch::Exited(CommandOutput {
            success: false,
            stdout: b"E: no such file".to_vec(),
            stderr: b"ignored".to_vec(),
        });
        assert_eq!(
            s.resume(pending, launch),
            ExtractionStep::Fail {
                console: Some(b"E: no such file".to_vec()),
                error: AtiumError::CommandError(
                    "Command execution returned ERROR status".to_string()
                ),
            }
        );
    }
}

#[test]
fn tool_that_does_not_start_is_a_command_error() {
    let s = service();
    let (_, pending) = s.get_info(request("clip.mp4", None, None, Some("report")));
    assert_eq!(
        s.resume(pending, Launch::NotStarted),
        ExtractionStep::Fail {
            console: None,
            error: AtiumError::CommandError("Could not execute command".to_string()),
        }
    );
}

#[test]
fn failed_print_hands_its_error_on() {
    let s = service();
    let (_, pending) = s.get_info(request("clip.mp4", None, None, None));
    assert_eq!(
        s.resume(pending, finished(true, b"report")),
        ExtractionStep::Show { contents: b"report".to_vec() }
    );
    assert_eq!(
        s.shown(Err(AtiumError::IOError("broken pipe".to_string()))),
        Err(AtiumError::IOError("broken pipe".to_string()))
    );
    assert_eq!(
        s.shown(Err(AtiumError::CommandError("console closed".to_string()))),
        Err(AtiumError::CommandError("console closed".to_string()))
    );
}

#[test]
fn standard_error_is_never_what_is_shown() {
    let s = service();
    let (_, pending) = s.get_info(request("clip.mp4", None, None, None));
    let launch = Launch::Exited(CommandOutput {
        success: true,
        stdout: b"out".to_vec(),
        stderr: b"err".to_vec(),
    });
    assert_eq!(s.resume(pending, launch), ExtractionStep::Show { contents: b"out".to_vec() });
}

#[test]
fn failed_write_is_an_io_error() {
    let s = service();
    assert_eq!(
        s.conclude("/nowhere/report.json".to_string(), false),
        Err(AtiumError::IOError("could not write to file!".to_string()))
    );
}

#[test]
fn input_path_comes_last_and_is_kept_as_given() {
    let s = service();
    let (line, _) = s.get_info(request("--full", Some(InfoFormat::Json), Some(false), None));
    assert_eq!(line.args, strings(&["--output=JSON", "--full"]));
    let (line, _) = s.get_info(request("", None, None, None));
    assert_eq!(line.args, strings(&["--output=JSON", "--full", ""]));
}

#[test]
fn concrete_service_routes_by_output_file() {
    let manager = CommandManager::new("mediainfo", &finished(true, b"")).unwrap();
    let s = MediaInfoExtractorService::new(manager);
    let output = CommandOutput { success: true, stdout: b"abc".to_vec(), stderr: Vec::new() };
    assert_eq!(
        s.write_to_stdout(output.clone()),
        ExtractionStep::Show { contents: b"abc".to_vec() }
    );
    assert_eq!(
        s.write_result(output.clone(), None, InfoFormat::Html),
        ExtractionStep::Show { contents: b"abc".to_vec() }
    );
    assert_eq!(s.shown(Ok(())), Ok(InfoExtractorResponse::inline()));
    assert_eq!(
        s.write_result(output.clone(), Some("x".to_string()), InfoFormat::Html),
        ExtractionStep::Write { path: "x.html".to_string(), contents: b"abc".to_vec() }
    );
    assert_eq!(
        s.write_info_to_file(output, "dir/y".to_string(), InfoFormat::Json),
        ExtractionStep::Write { path: "dir/y.json".to_string(), contents: b"abc".to_vec() }
    );
}

#[test]
fn command_manager_builds_command_lines() {
    assert_eq!(
        CommandManager::new("mediainfo", &Launch::NotStarted),
        Err(AtiumError::CommandError("Could not execute command".to_string()))
    );
    let manager = CommandManager::new("tool", &finished(false, b"")).unwrap();
    assert_eq!(
        manager.execute_with_args(strings(&["-a", "b"])),
        CommandLine { program: "tool".to_string(), args: strings(&["-a", "b"]) }
    );
    assert_eq!(
        CommandManager::probe("tool", strings(&["--version"])),
        CommandLine { program: "tool".to_string(), args: strings(&["--version"]) }
    );
}

#[test]
fn extensions_and_paths() {
    assert_eq!(InfoFormat::Json.extension(), ".json");
    assert_eq!(InfoFormat::Html.extension(), ".html");
    assert_eq!(InfoFormat::Xml.extension(), ".xml");
    assert_eq!(report_path("report".to_string(), InfoFormat::Xml), "report.xml");
    assert_eq!(report_path(String::new(), InfoFormat::Json), ".json");
}

#[test]
fn request_defaults() {
    let r = request("a", None, None, None);
    assert_eq!(r.resolved_format(), InfoFormat::Json);
    assert!(r.resolved_full());
    let r = request("a", Some(InfoFormat::Xml), Some(false), None);
    assert_eq!(r.resolved_format(), InfoFormat::Xml);
    assert!(!r.resolved_full());
}

#[test]
fn responses_and_error_text() {
    assert_eq!(InfoExtractorResponse::inline().output.file, None);
    assert_eq!(
        InfoExtractorResponse::written("a.json".to_string()).output.file,
        Some("a.json".to_string())
    );
    assert_eq!(AtiumError::CommandError("c".to_string()).message(), "c");
    assert_eq!(AtiumError::IOError("i".to_string()).message(), "i");
}
