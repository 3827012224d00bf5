use fileshare::files::naming::bare_download_url;
use fileshare::files::naming::download_url;
use fileshare::files::naming::fallback_name;
use fileshare::files::naming::plan_binary_upload;
use fileshare::files::naming::storage_path;
use fileshare::files::naming::stored_name;
use fileshare::files::naming::upload_dir_text;
use fileshare::files::naming::upload_path;
use fileshare::files::naming::BinaryUpload;
use fileshare::files::naming::MultipartUpload;

#[test]
fn upload_directory_is_fixed() {
    assert_eq!(upload_dir_text(), "./uploads");
}

#[test]
fn stored_name_is_time_hyphen_name() {
    assert_eq!(stored_name(1700000000, "report.pdf"), "1700000000-report.pdf");
    assert_eq!(stored_name(0, ""), "0-");
    assert_eq!(stored_name(-5, "old"), "-5-old");
    assert_eq!(stored_name(42, "dir/x y.txt"), "42-dir/x y.txt");
}

#[test]
fn fallback_name_is_time_and_unknown_bin() {
    assert_eq!(fallback_name(1700000000), "1700000000.unknown.bin");
    assert_eq!(fallback_name(0), "0.unknown.bin");
}

#[test]
fn upload_path_takes_the_name_as_it_is() {
    assert_eq!(upload_path("a.txt"), "./uploads/a.txt");
    assert_eq!(upload_path(""), "./uploads/");
    assert_eq!(upload_path("../etc/passwd"), "./uploads/../etc/passwd");
}

#[test]
fn storage_path_cleans_the_name() {
    assert_eq!(storage_path("1700000000-report.pdf", false), "./uploads/1700000000-report.pdf");
    assert_eq!(storage_path("17-re/po\\rt?.txt", false), "./uploads/17-report.txt");
    assert_eq!(storage_path("5-../../etc/passwd", false), "./uploads/5-....etcpasswd");
    assert_eq!(storage_path("1-a<b>c:d*e|f\"g", false), "./uploads/1-abcdefg");
    assert_eq!(storage_path("3-tab\there", false), "./uploads/3-tabhere");
    assert_eq!(storage_path("...", false), "./uploads/");
    assert_eq!(storage_path("", false), "./uploads/");
}

#[test]
fn storage_path_follows_the_platform() {
    assert_eq!(storage_path("con", false), "./uploads/con");
    assert_eq!(storage_path("con", true), "./uploads/");
    assert_eq!(storage_path("name. ", false), "./uploads/name. ");
    assert_eq!(storage_path("name. ", true), "./uploads/name");
}

#[test]
fn storage_path_cuts_long_names_to_255_bytes() {
    let long = "a".repeat(300);
    let expected = format!("./uploads/{}", "a".repeat(255));
    assert_eq!(storage_path(&long, false), expected);
    let wide = "\u{e9}".repeat(200);
    let expected = format!("./uploads/{}", "\u{e9}".repeat(127));
    assert_eq!(storage_path(&wide, false), expected);
}

#[test]
fn download_url_has_scheme_host_and_name() {
    assert_eq!(
        download_url("http", "localhost:8080", "1700000000-a.txt"),
        "http://localhost:8080/api/download/1700000000-a.txt"
    );
    assert_eq!(download_url("https", "files.example", ""), "https://files.example/api/download/");
}

#[test]
fn bare_download_url_has_no_scheme() {
    assert_eq!(
        bare_download_url("localhost:8080", "17-a.bin"),
        "localhost:8080/api/download/17-a.bin"
    );
}

#[test]
fn multipart_upload_answers_with_the_last_file() {
    let mut upload = MultipartUpload::new();
    assert_eq!(upload.on_field(None, 100, false), None);
    assert_eq!(
        upload.on_field(Some("first.txt"), 100, false),
        Some("./uploads/100-first.txt".to_string())
    );
    assert_eq!(upload.on_field(None, 101, false), None);
    assert_eq!(
        upload.on_field(Some("se/cond.txt"), 102, false),
        Some("./uploads/102-second.txt".to_string())
    );
    assert_eq!(upload.on_field(None, 103, false), None);
    assert_eq!(upload.finish("http", "host"), "http://host/api/download/102-se/cond.txt");
}

#[test]
fn multipart_upload_without_a_file_answers_with_the_bare_download_path() {
    let mut upload = MultipartUpload::new();
    assert_eq!(upload.on_field(None, 1, false), None);
    assert_eq!(upload.finish("https", "h:1"), "https://h:1/api/download/");
    assert_eq!(MultipartUpload::new().finish("http", "x"), "http://x/api/download/");
}

#[test]
fn binary_upload_with_a_name_in_the_header() {
    assert_eq!(
        plan_binary_upload(Some("pic.png"), 1699999999, 1700000000, "localhost:8080", false),
        BinaryUpload {
            filename: "1700000000-pic.png".to_string(),
            path: "./uploads/1700000000-pic.png".to_string(),
            url: "localhost:8080/api/download/1700000000-pic.png".to_string(),
        }
    );
    assert_eq!(
        plan_binary_upload(Some("a/b.png"), 1, 2, "h", false),
        BinaryUpload {
            filename: "2-a/b.png".to_string(),
            path: "./uploads/2-ab.png".to_string(),
            url: "h/api/download/2-a/b.png".to_string(),
        }
    );
}

#[test]
fn binary_upload_without_a_name_gets_the_fallback() {
    assert_eq!(
        plan_binary_upload(None, 1699999999, 1700000000, "localhost:8080", false),
        BinaryUpload {
            filename: "1700000000-1699999999.unknown.bin".to_string(),
            path: "./uploads/1700000000-1699999999.unknown.bin".to_string(),
            url: "localhost:8080/api/download/1700000000-1699999999.unknown.bin".to_string(),
        }
    );
}
