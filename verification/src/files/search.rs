//! Searching the upload directory: the arguments for the search tool, the
//! reading of what it prints, and the page of results that is answered.

use vstd::prelude::*;
use vstd::string::StringExecFns;

use crate::files::naming::upload_dir;
use crate::files::naming::upload_dir_text;
use crate::text::remove_all;
use crate::text::without;

verus! {

/// What a client searches for.
#[derive(Debug, Clone, PartialEq, Eq)]
pub struct SearchQuery {
    /// A part of the file name.
    pub filename: String,
    /// The extensions to keep, if the search is narrowed to some.
    pub extensions: Option<Vec<String>>,
    /// The page asked for, counted from 0.
    pub page: usize,
    /// The number of files on a page.
    pub limit: usize,
}

impl Default for SearchQuery {
    /// The query for every file: an empty name, no extensions, the first
    /// page, a hundred files on a page.
    fn default() -> (query: SearchQuery)
        ensures
            query.filename@ == Seq::<char>::empty(),
            query.extensions is None,
            query.page == 0,
            query.limit == 100,
    {
        SearchQuery { filename: String::new(), extensions: None, page: 0, limit: 100 }
    }
}

/// One file of the upload directory.
#[derive(Debug, PartialEq, Eq, Default)]
pub struct FileInfo {
    pub filename: String,
    /// The size in bytes.
    pub size: u64,
    /// When the file was made, as RFC 3339 text.
    pub created_at: String,
}

/// What contracts see of [`FileInfo`]: its content as mathematical values.
pub struct FileInfoView {
    pub filename: Seq<char>,
    pub size: u64,
    pub created_at: Seq<char>,
}

impl View for FileInfo {
    type V = FileInfoView;

    open spec fn view(&self) -> FileInfoView {
        FileInfoView { filename: self.filename@, size: self.size, created_at: self.created_at@ }
    }
}

impl Clone for FileInfo {
    fn clone(&self) -> (copy: FileInfo)
        ensures
            copy@ == self@,
    {
        FileInfo {
            filename: self.filename.clone(),
            size: self.size,
            created_at: self.created_at.clone(),
        }
    }
}

/// The views of a row of files.
pub open spec fn file_views(files: Seq<FileInfo>) -> Seq<FileInfoView> {
    Seq::new(files.len(), |i: int| files[i]@)
}

/// The views of a row of strings.
pub open spec fn texts(strings: Seq<String>) -> Seq<Seq<char>> {
    Seq::new(strings.len(), |i: int| strings[i]@)
}

/// The arguments that narrow a search to `extensions`: `-e` in front of
/// each of them.
pub open spec fn extension_args(extensions: Seq<Seq<char>>) -> Seq<Seq<char>> {
    Seq::new(
        2 * extensions.len(),
        |i: int|
            if i % 2 == 0 {
                "-e"@
            } else {
                extensions[i / 2]
            },
    )
}

/// The arguments of the search tool for a query: the extensions, if any,
/// then the part of the name, then the directory to search.
pub open spec fn search_args_text(query: SearchQuery) -> Seq<Seq<char>> {
    let narrowed = match query.extensions {
        Some(extensions) => extension_args(texts(extensions@)),
        None => Seq::empty(),
    };
    narrowed + seq![query.filename@, upload_dir()]
}

/// The arguments with which the search tool is run for `query`.
pub fn search_args(query: &SearchQuery) -> (args: Vec<String>)
    ensures
        texts(args@) == search_args_text(*query),
{
    let mut args: Vec<String> = Vec::new();
    match &query.extensions {
        Some(extensions) => {
            let mut i: usize = 0;
            while i < extensions.len()
                invariant
                    i <= extensions.len(),
                    texts(args@) == extension_args(texts(extensions@).take(i as int)),
                decreases extensions.len() - i,
            {
                let ghost before = texts(args@);
                args.push(String::from_str("-e"));
                args.push(extensions[i].clone());
                proof {
                    let earlier = texts(extensions@).take(i as int);
                    let now = texts(extensions@).take(i + 1);
                    assert(texts(args@) =~= before.push("-e"@).push(extensions@[i as int]@));
                    assert(extension_args(now) =~= extension_args(earlier).push("-e"@).push(
                        extensions@[i as int]@,
                    ));
                }
                i += 1;
            }
            proof {
                assert(texts(extensions@).take(extensions.len() as int) =~= texts(extensions@));
            }
        },
        None => {
            assert(texts(args@) =~= Seq::<Seq<char>>::empty());
        },
    }
    let ghost before = texts(args@);
    args.push(query.filename.clone());
    args.push(String::from_str(upload_dir_text()));
    assert(texts(args@) =~= before + seq![query.filename@, upload_dir()]);
    args
}

/// The name under which a found file is shown: its path with the upload
/// directory taken out of it, and then every `/`.
pub open spec fn display_name_text(path: Seq<char>) -> Seq<char> {
    without(without(path, upload_dir()), "/"@)
}

/// The name under which the file found at `path` is shown.
pub fn display_name(path: &str) -> (name: String)
    ensures
        name@ == display_name_text(path@),
{
    let outside = remove_all(path, upload_dir_text());
    remove_all(outside.as_str(), "/")
}

/// The entry for the file found at `path`, with the size and the time of
/// creation that the file system gave for it.
pub fn file_info(path: &str, size: u64, created_at: String) -> (info: FileInfo)
    ensures
        info@ == (FileInfoView {
            filename: display_name_text(path@),
            size,
            created_at: created_at@,
        }),
{
    FileInfo { filename: display_name(path), size, created_at }
}

/// The answer to a search: one page of the files found, and how many were
/// found in all.
#[derive(Debug, Clone, PartialEq, Eq, Default)]
pub struct SearchResult {
    pub files: Vec<FileInfo>,
    pub total: usize,
    pub page: usize,
    pub limit: usize,
}

/// The index of the first file on page `page` of `len` files, `limit` to a
/// page; `len` where the page lies behind the last file.
pub open spec fn page_start(len: nat, page: nat, limit: nat) -> nat {
    if page * limit < len {
        page * limit
    } else {
        len
    }
}

/// The index behind the last file on that page.
pub open spec fn page_end(len: nat, page: nat, limit: nat) -> nat {
    if page * limit + limit < len {
        page * limit + limit
    } else {
        len
    }
}

/// Page `page` of `files`, `limit` files to a page: the files from index
/// `page * limit` on, up to `limit` of them.
pub open spec fn page_of(files: Seq<FileInfoView>, page: nat, limit: nat) -> Seq<FileInfoView> {
    files.subrange(
        page_start(files.len(), page, limit) as int,
        page_end(files.len(), page, limit) as int,
    )
}

/// Copies page `page` out of `files`. A page holds `limit` files at most.
pub fn take_page(files: &Vec<FileInfo>, page: usize, limit: usize) -> (taken: Vec<FileInfo>)
    ensures
        file_views(taken@) == page_of(file_views(files@), page as nat, limit as nat),
        taken@.len() <= limit,
{
    let len = files.len();
    let start = match page.checked_mul(limit) {
        Some(first) => if first < len {
            first
        } else {
            len
        },
        None => len,
    };
    let end = match start.checked_add(limit) {
        Some(behind) => if behind < len {
            behind
        } else {
            len
        },
        None => len,
    };
    assert(start == page_start(len as nat, page as nat, limit as nat));
    assert(end == page_end(len as nat, page as nat, limit as nat)) by {
        if page * limit >= len {
            assert(page * limit + limit >= len);
        }
    }
    let mut taken: Vec<FileInfo> = Vec::new();
    let mut i = start;
    while i < end
        invariant
            start <= i <= end <= files.len(),
            file_views(taken@) == file_views(files@).subrange(start as int, i as int),
        decreases end - i,
    {
        let ghost before = file_views(taken@);
        taken.push(files[i].clone());
        assert(file_views(taken@) =~= before.push(files@[i as int]@));
        assert(file_views(files@).subrange(start as int, i + 1) =~= file_views(files@).subrange(
            start as int,
            i as int,
        ).push(files@[i as int]@));
        i += 1;
    }
    assert(file_views(taken@).len() == taken@.len());
    taken
}

} // verus!
