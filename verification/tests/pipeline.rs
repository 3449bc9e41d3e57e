use repakstrap::pipeline::{
    download_label, extraction_result, extractor, files_to_hoist, hoist_target, inner_directory,
    progress_line, unpacks_nested, DirEntry, ExtractorRun, PipelineError, Progress,
};
use repakstrap::report::describe_pipeline_error;
use repakstrap::{Platform, SemanticVersion};

#[test]
fn a_download_needs_a_length() {
    assert_eq!(Progress::start(Some(1024)).unwrap(), Progress { total: 1024, received: 0 });
    assert!(matches!(Progress::start(None), Err(PipelineError::NoContentLength)));
}

#[test]
fn progress_counts_down() {
    let mut p = Progress::start(Some(1000)).unwrap();
    assert_eq!(p.remaining(), 1000);
    p.advance(400);
    assert_eq!(p.remaining(), 600);
    p.advance(600);
    assert_eq!(p.remaining(), 0);
    p.advance(1);
    assert_eq!(p.remaining(), 0);
    assert_eq!(p.received, 1001);
}

#[test]
fn progress_stops_at_the_largest_count() {
    let mut p = Progress { total: 10, received: u64::MAX - 1 };
    p.advance(5);
    assert_eq!(p.received, u64::MAX);
    assert_eq!(p.total, 10);
}

#[test]
fn the_label_names_version_and_asset() {
    let label = download_label(&SemanticVersion::new(1, 1, 0), "repak.tar.xz");
    assert_eq!(label, "downloading 1.1.0/repak.tar.xz");
}

#[test]
fn the_progress_line_is_padded_to_the_terminal() {
    let p = Progress { total: 1000, received: 250 };
    let line = progress_line("downloading 1.1.0/a.zip", &p, 50);
    assert_eq!(line.chars().count(), 50);
    assert_eq!(line.trim_end_matches(' '), "\rdownloading 1.1.0/a.zip, 750 bytes left");
    assert_eq!(line, format!("{:<50}", "\rdownloading 1.1.0/a.zip, 750 bytes left"));
}

#[test]
fn an_unknown_or_narrow_terminal_pads_nothing() {
    let p = Progress { total: 1000, received: 1000 };
    assert_eq!(progress_line("x", &p, 0), "\rx, 0 bytes left");
    assert_eq!(progress_line("x", &p, 5), "\rx, 0 bytes left");
    assert_eq!(progress_line("x", &p, 16), "\rx, 0 bytes left");
    assert_eq!(progress_line("x", &p, 17), "\rx, 0 bytes left ");
}

#[test]
fn each_platform_has_its_extractor() {
    let tar = extractor(Platform::Linux, "dist/a.tar.xz", "dist");
    assert_eq!(tar.program, "tar");
    assert_eq!(tar.args, vec!["xf", "dist/a.tar.xz", "-C", "dist"]);
    let zip = extractor(Platform::Windows, "dist\\a.zip", "dist");
    assert_eq!(zip.program, "powershell");
    assert_eq!(
        zip.args,
        vec!["-Command", "Expand-Archive", "dist\\a.zip", "-DestinationPath", "dist", "-Force"]
    );
}

#[test]
fn only_exit_code_zero_is_a_success() {
    let name = || String::from("a.tar.xz");
    assert!(extraction_result(name(), ExtractorRun::Exited { code: Some(0) }).is_ok());
    match extraction_result(name(), ExtractorRun::Exited { code: Some(2) }) {
        Err(PipelineError::ExtractorFailed { archive, code }) => {
            assert_eq!(archive, "a.tar.xz");
            assert_eq!(code, Some(2));
        }
        other => panic!("unexpected {other:?}"),
    }
    assert!(matches!(
        extraction_result(name(), ExtractorRun::Exited { code: None }),
        Err(PipelineError::ExtractorFailed { code: None, .. })
    ));
    match extraction_result(name(), ExtractorRun::NotStarted { message: String::from("no tar") }) {
        Err(PipelineError::ExtractorNotRun { archive, message }) => {
            assert_eq!(archive, "a.tar.xz");
            assert_eq!(message, "no tar");
        }
        other => panic!("unexpected {other:?}"),
    }
}

#[test]
fn the_inner_directory_is_the_name_without_its_extension() {
    assert_eq!(
        inner_directory("repak_cli-x86_64-unknown-linux-gnu.tar.xz", Platform::Linux),
        "repak_cli-x86_64-unknown-linux-gnu"
    );
    assert_eq!(
        inner_directory("repak-1.2.3-x86_64-unknown-linux-gnu.tar.xz", Platform::Linux),
        "repak-1.2.3-x86_64-unknown-linux-gnu"
    );
    assert_eq!(
        inner_directory("repak-x86_64-pc-windows-msvc.zip", Platform::Windows),
        "repak-x86_64-pc-windows-msvc"
    );
}

#[test]
fn a_name_without_the_extension_is_its_own_inner_directory() {
    assert_eq!(inner_directory("archive", Platform::Linux), "archive");
    assert_eq!(inner_directory("archive.zip", Platform::Linux), "archive.zip");
    assert_eq!(inner_directory("archive.tar.xz", Platform::Windows), "archive.tar.xz");
    assert_eq!(inner_directory(".tar.xz", Platform::Linux), "");
    assert_eq!(inner_directory("", Platform::Linux), "");
}

#[test]
fn a_selected_archive_is_its_inner_directory_and_the_extension() {
    for (name, platform) in [
        ("repak-1.2.3-x86_64-unknown-linux-gnu.tar.xz", Platform::Linux),
        ("linux-gnu.tar.xz", Platform::Linux),
        ("repak-0.1.0-x86_64-pc-windows-msvc.zip", Platform::Windows),
    ] {
        assert!(name.ends_with(platform.archive_suffix()));
        let inner = inner_directory(name, platform);
        assert_eq!(format!("{inner}{}", platform.archive_extension()), name);
    }
}

#[test]
fn a_hoisted_file_goes_to_the_output_directory() {
    assert_eq!(hoist_target("/opt/tools/dist", '/', "repak"), "/opt/tools/dist/repak");
    assert_eq!(hoist_target("C:\\dist", '\\', "repak.exe"), "C:\\dist\\repak.exe");
}

#[test]
fn a_directory_of_regular_files_is_emptied() {
    let entries = vec![
        DirEntry { name: String::from("repak"), is_file: true },
        DirEntry { name: String::from("repak-gui"), is_file: true },
        DirEntry { name: String::from("LICENSE"), is_file: true },
    ];
    let hoisted = files_to_hoist(&entries);
    assert_eq!(hoisted.len(), entries.len());
    for (entry, name) in entries.iter().zip(hoisted.iter()) {
        assert_eq!(&entry.name, name);
    }
}

#[test]
fn only_tar_archives_unpack_nested() {
    assert!(unpacks_nested(Platform::Linux));
    assert!(!unpacks_nested(Platform::Windows));
}

#[test]
fn regular_files_are_hoisted_in_their_order() {
    let entries = vec![
        DirEntry { name: String::from("repak"), is_file: true },
        DirEntry { name: String::from("docs"), is_file: false },
        DirEntry { name: String::from("LICENSE"), is_file: true },
    ];
    assert_eq!(files_to_hoist(&entries), vec!["repak", "LICENSE"]);
    assert!(files_to_hoist(&Vec::new()).is_empty());
}

#[test]
fn pipeline_errors_in_words() {
    assert_eq!(
        describe_pipeline_error(&PipelineError::NoContentLength),
        "could not get content_length"
    );
    assert_eq!(
        describe_pipeline_error(&PipelineError::Io { message: String::from("disk full") }),
        "disk full"
    );
    assert_eq!(
        describe_pipeline_error(&PipelineError::ExtractorFailed {
            archive: String::from("a.tar.xz"),
            code: Some(-2),
        }),
        "failed to extract a.tar.xz, exited with code -2"
    );
    assert_eq!(
        describe_pipeline_error(&PipelineError::ExtractorFailed {
            archive: String::from("a.tar.xz"),
            code: None,
        }),
        "failed to extract a.tar.xz, exited without a code"
    );
    assert_eq!(
        describe_pipeline_error(&PipelineError::ExtractorNotRun {
            archive: String::from("a.tar.xz"),
            message: String::from("no such file"),
        }),
        "trying to extract a.tar.xz"
    );
}
