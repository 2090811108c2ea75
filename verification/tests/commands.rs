use yt_transcriber::command::{convert_command, download_command, Invocation, Tool};
use yt_transcriber::error::{ErrorKind, PipelineError};

fn strings(items: &[&str]) -> Vec<String> {
    items.iter().map(|item| item.to_string()).collect()
}

#[test]
fn downloader_is_asked_for_best_audio_with_eight_workers() {
    let command = download_command("https://example.com/watch?v=abc", "temp_audio.webm");
    assert_eq!(
        command,
        Invocation {
            program: "yt-dlp".to_string(),
            args: strings(&[
                "-f",
                "bestaudio",
                "-N8",
                "-o",
                "temp_audio.webm",
                "https://example.com/watch?v=abc",
            ]),
        }
    );
}

#[test]
fn downloader_passes_the_source_through_unchanged() {
    let odd = "  not a url; $(rm -rf) \u{1F600} ";
    let command = download_command(odd, "out file.webm");
    assert_eq!(command.args.len(), 6);
    assert_eq!(command.args[4], "out file.webm");
    assert_eq!(command.args[5], odd);
}

#[test]
fn converter_is_asked_for_mono_16khz_opus_without_video() {
    let command = convert_command("temp_audio.webm", "converted_audio.webm");
    assert_eq!(
        command,
        Invocation {
            program: "ffmpeg".to_string(),
            args: strings(&[
                "-i",
                "temp_audio.webm",
                "-c:a",
                "libopus",
                "-b:a",
                "24k",
                "-ar",
                "16000",
                "-ac",
                "1",
                "-map",
                "0:a:",
                "-vn",
                "converted_audio.webm",
            ]),
        }
    );
}

#[test]
fn success_status_is_accepted_whatever_was_written_to_stderr() {
    assert_eq!(Tool::Downloader.judge_exit(true, b""), Ok(()));
    assert_eq!(Tool::Downloader.judge_exit(true, b"WARNING: slow"), Ok(()));
    assert_eq!(Tool::Converter.judge_exit(true, b"frame= 0 fps=0.0"), Ok(()));
}

#[test]
fn failed_download_carries_stderr_verbatim() {
    let error = Tool::Downloader.judge_exit(false, b"ERROR: Video unavailable\n").unwrap_err();
    assert_eq!(
        error,
        PipelineError {
            kind: ErrorKind::Download,
            context: "yt-dlp failed".to_string(),
            detail: Some("ERROR: Video unavailable\n".to_string()),
        }
    );
    assert_eq!(error.describe(), "yt-dlp failed: ERROR: Video unavailable\n");
}

#[test]
fn failed_conversion_carries_stderr_verbatim() {
    let error = Tool::Converter.judge_exit(false, "Invalid data: caf\u{e9}".as_bytes()).unwrap_err();
    assert_eq!(
        error,
        PipelineError {
            kind: ErrorKind::Conversion,
            context: "ffmpeg failed".to_string(),
            detail: Some("Invalid data: caf\u{e9}".to_string()),
        }
    );
    assert_eq!(error.kind(), ErrorKind::Conversion);
}

#[test]
fn failure_with_empty_stderr_keeps_an_empty_detail() {
    let error = Tool::Downloader.judge_exit(false, b"").unwrap_err();
    assert_eq!(error.detail, Some(String::new()));
    assert_eq!(error.describe(), "yt-dlp failed: ");
}

#[test]
fn stderr_that_is_not_utf8_is_decoded_with_replacement_characters() {
    let error = Tool::Converter.judge_exit(false, &[b'a', 0xff, b'b']).unwrap_err();
    assert_eq!(error.detail, Some("a\u{fffd}b".to_string()));
}

#[test]
fn launch_failure_names_the_program_and_the_reason() {
    let download = Tool::Downloader.report_launch_failure("No such file or directory".to_string());
    assert_eq!(
        download,
        PipelineError {
            kind: ErrorKind::Download,
            context: "Failed to execute yt-dlp".to_string(),
            detail: Some("No such file or directory".to_string()),
        }
    );
    let convert = Tool::Converter.report_launch_failure("Permission denied".to_string());
    assert_eq!(convert.kind, ErrorKind::Conversion);
    assert_eq!(convert.describe(), "Failed to execute ffmpeg: Permission denied");
}

#[test]
fn description_of_a_bare_failure_is_its_context() {
    let error = PipelineError::bare(ErrorKind::Schema, "Failed to extract transcript from JSON");
    assert_eq!(error.detail, None);
    assert_eq!(error.describe(), "Failed to extract transcript from JSON");
}

#[test]
fn description_of_an_explained_failure_joins_context_and_detail() {
    let error = PipelineError::explained(
        ErrorKind::Io,
        "Failed to read audio file",
        "permission denied".to_string(),
    );
    assert_eq!(error.kind(), ErrorKind::Io);
    assert_eq!(error.describe(), "Failed to read audio file: permission denied");
}
