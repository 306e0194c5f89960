use mumu_search::{build_url, file_name_of, output_path, DownloadError};

#[test]
fn builds_url_from_template() {
    let url = build_url("4.1.21.3664", "0325", "123456");
    assert_eq!(
        url,
        "https://a11.gdl.netease.com/MuMuNG-setup-V4.1.21.3664-0325123456.exe"
    );
}

#[test]
fn builds_url_with_empty_parts() {
    let url = build_url("", "", "");
    assert_eq!(url, "https://a11.gdl.netease.com/MuMuNG-setup-V-.exe");
}

#[test]
fn file_name_is_final_path_segment() {
    let url = "https://a11.gdl.netease.com/MuMuNG-setup-V1.0-0001123456.exe";
    assert_eq!(
        file_name_of(url),
        Ok("MuMuNG-setup-V1.0-0001123456.exe".to_string())
    );
    assert_eq!(file_name_of("a/b/c.exe"), Ok("c.exe".to_string()));
}

#[test]
fn file_name_fails_without_path_segment() {
    assert_eq!(file_name_of("no-slash-here"), Err(DownloadError::InvalidUrlFormat));
    assert_eq!(file_name_of("https://host/dir/"), Err(DownloadError::InvalidUrlFormat));
    assert_eq!(file_name_of(""), Err(DownloadError::InvalidUrlFormat));
}

#[test]
fn output_path_joins_dir_and_name() {
    assert_eq!(output_path("./downloads", "f.exe"), "./downloads/f.exe");
    assert_eq!(output_path("dir", "a.bin"), "dir/a.bin");
}
