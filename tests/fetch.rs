use resource_download::{download_args, download_outcome, first_line, tags_or_default, Error};

fn message(r: Result<String, Error>) -> String {
    match r {
        Err(Error::DownloadError(m)) => m,
        Ok(p) => panic!("expected an error, got the path {}", p),
    }
}

#[test]
fn failed_run_reports_missing_parameter() {
    let stderr = "usage: downloader [-h] -t TYPE\nerror: Missing required parameter: -t\n";
    let m = message(download_outcome(false, "", stderr));
    assert!(m.contains("Missing required parameter"));
    assert_eq!(m, stderr);
}

#[test]
fn failed_run_reports_no_resources() {
    let stderr = "No resources found of type random\n";
    let m = message(download_outcome(false, "ignored\n", stderr));
    assert!(m.contains("No resources found"));
    assert_eq!(m, stderr);
}

#[test]
fn failed_run_with_empty_error_text() {
    assert_eq!(
        download_outcome(false, "", ""),
        Err(Error::DownloadError(String::new()))
    );
}

#[test]
fn success_takes_first_line() {
    let out = "/tmp/resources/disk/ubuntu.ext4\n/tmp/resources/disk/alpine.ext4\n";
    assert_eq!(
        download_outcome(true, out, ""),
        Ok(String::from("/tmp/resources/disk/ubuntu.ext4"))
    );
}

#[test]
fn success_without_trailing_newline() {
    assert_eq!(
        download_outcome(true, "/tmp/kernel/vmlinux.bin", "warning"),
        Ok(String::from("/tmp/kernel/vmlinux.bin"))
    );
}

#[test]
fn empty_output_is_not_found() {
    assert_eq!(
        download_outcome(true, "", ""),
        Err(Error::DownloadError(String::from("Not found.")))
    );
}

#[test]
fn empty_first_line_is_kept() {
    assert_eq!(download_outcome(true, "\nsecond", ""), Ok(String::new()));
}

#[test]
fn first_line_of_multibyte_text() {
    assert_eq!(first_line("caf\u{e9}/\u{1F600}\nnext"), "caf\u{e9}/\u{1F600}");
    assert_eq!(first_line("no newline"), "no newline");
    assert_eq!(first_line(""), "");
    assert_eq!(first_line("\n"), "");
}

#[test]
fn omitted_tags_become_empty_filter() {
    assert_eq!(tags_or_default(None), "{}");
    assert_eq!(
        download_args("kernel", None),
        vec!["-t", "kernel", "--tags", "{}", "-1"]
    );
}

#[test]
fn given_tags_are_passed_through() {
    let tags = "{\"halt-after-boot\": true}";
    assert_eq!(tags_or_default(Some(tags)), tags);
    assert_eq!(
        download_args("disk", Some(tags)),
        vec!["-t", "disk", "--tags", tags, "-1"]
    );
}

#[test]
fn empty_resource_type_is_passed_on() {
    assert_eq!(download_args("", None), vec!["-t", "", "--tags", "{}", "-1"]);
}
