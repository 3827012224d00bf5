//! How uploaded files are named, where they are stored, and under which
//! address they are offered for download.

use vstd::prelude::*;
use vstd::string::StringExecFns;

use sanitize_filename::sanitize_with_options;
use sanitize_filename::Options;

use crate::text::decimal;
use crate::text::decimal_i64;

verus! {

/// The directory that holds the uploaded files.
pub open spec fn upload_dir() -> Seq<char> {
    "./uploads"@
}

/// The directory that holds the uploaded files.
pub fn upload_dir_text() -> (dir: &'static str)
    ensures
        dir@ == upload_dir(),
{
    "./uploads"
}

/// What is left of a name once everything that may not stand in a file name
/// has been taken out, on Windows (`windows`) or elsewhere.
pub uninterp spec fn sanitized(name: Seq<char>, windows: bool) -> Seq<char>;

/// Cleans a file name through `sanitize_filename::sanitize_with_options`,
/// with the crate's own options but for `windows`, which the crate would
/// take from the platform: what `sanitize_filename::sanitize` does on a
/// platform that is Windows, or is not, as `windows` says. Whatever else it
/// takes out, the outside function first removes every `/` and `\`, so the
/// result names no directory.
#[verifier::external_body]
fn sanitize(name: &str, windows: bool) -> (clean: String)
    ensures
        clean@ == sanitized(name@, windows),
        !clean@.contains('/'),
        !clean@.contains('\\'),
{
    sanitize_with_options(name, Options { windows, ..Options::default() })
}

/// The name under which an upload is kept: the time it came, in seconds
/// since the epoch, a hyphen, and the name the client gave.
pub open spec fn stored_name_text(now: int, filename: Seq<char>) -> Seq<char> {
    decimal(now) + "-"@ + filename
}

/// The name under which an upload that came at `now` is kept.
pub fn stored_name(now: i64, filename: &str) -> (name: String)
    ensures
        name@ == stored_name_text(now as int, filename@),
{
    let mut name = decimal_i64(now);
    name.append("-");
    name.append(filename);
    name
}

/// The name that stands in for a missing one: the time and `.unknown.bin`.
pub open spec fn fallback_name_text(now: int) -> Seq<char> {
    decimal(now) + ".unknown.bin"@
}

/// The name given to a raw upload that came at `now` without a name.
pub fn fallback_name(now: i64) -> (name: String)
    ensures
        name@ == fallback_name_text(now as int),
{
    let mut name = decimal_i64(now);
    name.append(".unknown.bin");
    name
}

/// The path of `name` in the upload directory.
pub open spec fn path_in_upload_dir(name: Seq<char>) -> Seq<char> {
    upload_dir() + "/"@ + name
}

/// The path of `name` in the upload directory, `name` taken as it is. This
/// is where a requested download and the pieces of a chunked upload are
/// looked for.
pub fn upload_path(name: &str) -> (path: String)
    ensures
        path@ == path_in_upload_dir(name@),
{
    let mut path = String::from_str(upload_dir_text());
    path.append("/");
    path.append(name);
    path
}

/// The path at which an upload kept under `stored` is written: the upload
/// directory and the cleaned name. The cleaned name holds no separator, so
/// the file lies in the upload directory itself.
pub fn storage_path(stored: &str, windows: bool) -> (path: String)
    ensures
        path@ == path_in_upload_dir(sanitized(stored@, windows)),
        !sanitized(stored@, windows).contains('/'),
        !sanitized(stored@, windows).contains('\\'),
{
    let clean = sanitize(stored, windows);
    upload_path(clean.as_str())
}

/// The address of a download with its scheme.
pub open spec fn download_url_text(scheme: Seq<char>, host: Seq<char>, name: Seq<char>) -> Seq<
    char,
> {
    scheme + "://"@ + host + "/api/download/"@ + name
}

/// The address under which the file kept as `name` can be fetched from
/// `host`.
pub fn download_url(scheme: &str, host: &str, name: &str) -> (url: String)
    ensures
        url@ == download_url_text(scheme@, host@, name@),
{
    let mut url = String::from_str(scheme);
    url.append("://");
    url.append(host);
    url.append("/api/download/");
    url.append(name);
    url
}

/// The address of a download without a scheme.
pub open spec fn bare_download_url_text(host: Seq<char>, name: Seq<char>) -> Seq<char> {
    host + "/api/download/"@ + name
}

/// The address that a raw upload is answered with: the host and the
/// download path, with no scheme in front.
pub fn bare_download_url(host: &str, name: &str) -> (url: String)
    ensures
        url@ == bare_download_url_text(host@, name@),
{
    let mut url = String::from_str(host);
    url.append("/api/download/");
    url.append(name);
    url
}

/// A multipart upload in progress. It remembers the name of the last file
/// it took.
#[derive(Debug, Clone, PartialEq, Eq)]
pub struct MultipartUpload {
    final_filename: String,
}

impl View for MultipartUpload {
    type V = Seq<char>;

    closed spec fn view(&self) -> Seq<char> {
        self.final_filename@
    }
}

impl MultipartUpload {
    /// An upload that has taken no file yet.
    pub fn new() -> (upload: MultipartUpload)
        ensures
            upload@ == Seq::<char>::empty(),
    {
        MultipartUpload { final_filename: String::new() }
    }

    /// Takes the next field of the form, which came at `now`. A field that
    /// carries a file name is a file: it becomes the upload's last file, and
    /// the path to write its content to is returned. Any other field is
    /// passed over.
    pub fn on_field(&mut self, filename: Option<&str>, now: i64, windows: bool) -> (path: Option<
        String,
    >)
        ensures
            match filename {
                Some(given) => {
                    &&& final(self)@ == stored_name_text(now as int, given@)
                    &&& path matches Some(p)
                    &&& p@ == path_in_upload_dir(sanitized(final(self)@, windows))
                },
                None => final(self)@ == old(self)@ && path is None,
            },
    {
        match filename {
            Some(given) => {
                let name = stored_name(now, given);
                let path = storage_path(name.as_str(), windows);
                self.final_filename = name;
                Some(path)
            },
            None => None,
        }
    }

    /// Ends the upload and gives the address of the last file it took. Where
    /// the form held no file, the address ends with the download path.
    pub fn finish(self, scheme: &str, host: &str) -> (url: String)
        ensures
            url@ == download_url_text(scheme@, host@, self@),
    {
        download_url(scheme, host, self.final_filename.as_str())
    }
}

/// What is done with a raw upload.
#[derive(Debug, Clone, PartialEq, Eq)]
pub struct BinaryUpload {
    /// The name under which the upload is kept.
    pub filename: String,
    /// The path to write the body to.
    pub path: String,
    /// The address to answer with.
    pub url: String,
}

/// The name a raw upload goes by before the time is put in front: the one
/// its header gives, or the fallback name.
pub open spec fn given_or_fallback(header: Option<&str>, fallback_now: int) -> Seq<char> {
    match header {
        Some(given) => given@,
        None => fallback_name_text(fallback_now),
    }
}

/// Plans a raw upload to `host`. `header` is the name that the request's
/// `x-filename` header gives, if it gives one that is text; `fallback_now`
/// is the time that names the upload where it does not, and `now` the time
/// that is put in front of the name.
pub fn plan_binary_upload(
    header: Option<&str>,
    fallback_now: i64,
    now: i64,
    host: &str,
    windows: bool,
) -> (plan: BinaryUpload)
    ensures
        plan.filename@ == stored_name_text(
            now as int,
            given_or_fallback(header, fallback_now as int),
        ),
        plan.path@ == path_in_upload_dir(sanitized(plan.filename@, windows)),
        plan.url@ == bare_download_url_text(host@, plan.filename@),
{
    let filename = match header {
        Some(given) => stored_name(now, given),
        None => {
            let fallback = fallback_name(fallback_now);
            stored_name(now, fallback.as_str())
        },
    };
    let path = storage_path(filename.as_str(), windows);
    let url = bare_download_url(host, filename.as_str());
    BinaryUpload { filename, path, url }
}

} // verus!
