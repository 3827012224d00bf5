//! The order of search results: by name, later names first.
//!
//! A stored name begins with the time of the upload, so the order by name
//! shows the newest upload first. Names are ordered as strings are: byte by
//! byte, a name in front of every longer name that begins with it.

use vstd::prelude::*;
use vstd::utf8::encode_utf8;

use crate::files::search::file_views;
use crate::files::search::page_of;
use crate::files::search::take_page;
use crate::files::search::FileInfo;
use crate::files::search::FileInfoView;
use crate::files::search::SearchQuery;
use crate::files::search::SearchResult;

verus! {

/// Whether `a` is `b` or stands in front of it in the order of strings.
pub open spec fn lex_le(a: Seq<u8>, b: Seq<u8>) -> bool
    decreases a.len(),
{
    if a.len() == 0 {
        true
    } else if b.len() == 0 {
        false
    } else if a[0] != b[0] {
        a[0] < b[0]
    } else {
        lex_le(a.skip(1), b.skip(1))
    }
}

/// Whether the name of `x` is the name of `y` or stands in front of it.
pub open spec fn name_le(x: FileInfoView, y: FileInfoView) -> bool {
    lex_le(encode_utf8(x.filename), encode_utf8(y.filename))
}

/// `sorted` with `x` put in behind every file whose name is not in front of
/// the name of `x`: behind the later names, and behind the files of the same
/// name that are already there.
pub open spec fn placed(sorted: Seq<FileInfoView>, x: FileInfoView) -> Seq<FileInfoView>
    decreases sorted.len(),
{
    if sorted.len() == 0 {
        seq![x]
    } else if name_le(x, sorted[0]) {
        seq![sorted[0]] + placed(sorted.skip(1), x)
    } else {
        seq![x] + sorted
    }
}

/// `files` in the order of their names, later names first; files of the
/// same name stay in the order in which they came.
pub open spec fn newest_first(files: Seq<FileInfoView>) -> Seq<FileInfoView>
    decreases files.len(),
{
    if files.len() == 0 {
        Seq::empty()
    } else {
        placed(newest_first(files.drop_last()), files.last())
    }
}

/// Whether each file's name is behind, or the same as, the names of the
/// files in front of it.
pub open spec fn descending(files: Seq<FileInfoView>) -> bool {
    forall|i: int, j: int| 0 <= i < j < files.len() ==> name_le(files[j], files[i])
}

/// Whether `a` is `b` or stands in front of it in the order of strings.
fn bytes_le(a: &[u8], b: &[u8]) -> (le: bool)
    ensures
        le == lex_le(a@, b@),
{
    let mut i: usize = 0;
    proof {
        assert(a@.skip(0) =~= a@);
        assert(b@.skip(0) =~= b@);
    }
    while i < a.len() && i < b.len()
        invariant
            i <= a.len(),
            i <= b.len(),
            lex_le(a@, b@) == lex_le(a@.skip(i as int), b@.skip(i as int)),
        decreases a.len() - i,
    {
        if a[i] != b[i] {
            return a[i] < b[i];
        }
        proof {
            assert(a@.skip(i as int).skip(1) =~= a@.skip(i + 1));
            assert(b@.skip(i as int).skip(1) =~= b@.skip(i + 1));
        }
        i += 1;
    }
    i == a.len()
}

/// Of two names one is not behind the other.
pub proof fn lemma_lex_le_total(a: Seq<u8>, b: Seq<u8>)
    ensures
        lex_le(a, b) || lex_le(b, a),
    decreases a.len(),
{
    if a.len() > 0 && b.len() > 0 && a[0] == b[0] {
        lemma_lex_le_total(a.skip(1), b.skip(1));
    }
}

/// The order of names carries over: what is not behind a name that is not
/// behind a third is not behind the third.
pub proof fn lemma_lex_le_transitive(a: Seq<u8>, b: Seq<u8>, c: Seq<u8>)
    requires
        lex_le(a, b),
        lex_le(b, c),
    ensures
        lex_le(a, c),
    decreases a.len(),
{
    if a.len() > 0 && b.len() > 0 && c.len() > 0 && a[0] == b[0] && b[0] == c[0] {
        lemma_lex_le_transitive(a.skip(1), b.skip(1), c.skip(1));
    }
}

/// Where `x` comes to stand: behind the first `at` files if it is not in
/// front of any of them and is in front of the next one.
proof fn lemma_placed_at(sorted: Seq<FileInfoView>, x: FileInfoView, at: int)
    requires
        0 <= at <= sorted.len(),
        forall|j: int| 0 <= j < at ==> name_le(x, sorted[j]),
        at < sorted.len() ==> !name_le(x, sorted[at]),
    ensures
        placed(sorted, x) == sorted.insert(at, x),
    decreases at,
{
    if at == 0 {
        if sorted.len() == 0 {
            assert(sorted.insert(0, x) =~= seq![x]);
        } else {
            assert(sorted.insert(0, x) =~= seq![x] + sorted);
        }
    } else {
        let tail = sorted.skip(1);
        assert forall|j: int| 0 <= j < at - 1 implies name_le(x, tail[j]) by {
            assert(tail[j] == sorted[j + 1]);
        }
        lemma_placed_at(tail, x, at - 1);
        assert(sorted.insert(at, x) =~= seq![sorted[0]] + tail.insert(at - 1, x));
    }
}

/// Putting a file in keeps the order and adds that file and no other.
proof fn lemma_placed_keeps_order(sorted: Seq<FileInfoView>, x: FileInfoView)
    requires
        descending(sorted),
    ensures
        descending(placed(sorted, x)),
        placed(sorted, x).to_multiset() == sorted.to_multiset().insert(x),
        placed(sorted, x).len() == sorted.len() + 1,
    decreases sorted.len(),
{
    broadcast use vstd::seq_lib::to_multiset_build;

    let out = placed(sorted, x);
    if sorted.len() == 0 {
        assert(out =~= Seq::<FileInfoView>::empty().push(x));
        assert(sorted =~= Seq::<FileInfoView>::empty());
    } else if name_le(x, sorted[0]) {
        let tail = sorted.skip(1);
        assert forall|i: int, j: int| 0 <= i < j < tail.len() implies name_le(
            tail[j],
            tail[i],
        ) by {
            assert(tail[i] == sorted[i + 1] && tail[j] == sorted[j + 1]);
        }
        lemma_placed_keeps_order(tail, x);
        let inner = placed(tail, x);
        assert(out =~= seq![sorted[0]] + inner);
        assert forall|i: int, j: int| 0 <= i < j < out.len() implies name_le(out[j], out[i]) by {
            if i == 0 {
                let late = inner[j - 1];
                assert(inner.to_multiset().count(late) > 0) by {
                    inner.to_multiset_ensures();
                    assert(inner.contains(late));
                }
                if late != x {
                    assert(tail.to_multiset().count(late) > 0);
                    tail.to_multiset_ensures();
                    assert(tail.contains(late));
                    let k = choose|k: int| 0 <= k < tail.len() && tail[k] == late;
                    assert(sorted[k + 1] == late);
                }
            } else {
                assert(out[i] == inner[i - 1] && out[j] == inner[j - 1]);
            }
        }
        assert(out.to_multiset() =~= sorted.to_multiset().insert(x)) by {
            lemma_multiset_of_cons(sorted[0], inner);
            lemma_multiset_of_cons(sorted[0], tail);
            assert(sorted =~= seq![sorted[0]] + tail);
        }
    } else {
        assert(out =~= seq![x] + sorted);
        assert forall|i: int, j: int| 0 <= i < j < out.len() implies name_le(out[j], out[i]) by {
            if i == 0 {
                let late = sorted[j - 1];
                lemma_lex_le_total(encode_utf8(x.filename), encode_utf8(sorted[0].filename));
                if j > 1 {
                    assert(name_le(sorted[j - 1], sorted[0]));
                    lemma_lex_le_transitive(
                        encode_utf8(late.filename),
                        encode_utf8(sorted[0].filename),
                        encode_utf8(x.filename),
                    );
                }
            } else {
                assert(out[i] == sorted[i - 1] && out[j] == sorted[j - 1]);
            }
        }
        lemma_multiset_of_cons(x, sorted);
    }
}

/// The files of a row with one more in front.
proof fn lemma_multiset_of_cons(first: FileInfoView, rest: Seq<FileInfoView>)
    ensures
        (seq![first] + rest).to_multiset() == rest.to_multiset().insert(first),
{
    broadcast use vstd::seq_lib::to_multiset_insert;

    assert(seq![first] + rest =~= rest.insert(0, first));
}

/// The sorted row holds the files that were given, each as often as it was
/// given and no other, and their names never rise from one file to the next.
pub proof fn lemma_newest_first_sorts(files: Seq<FileInfoView>)
    ensures
        descending(newest_first(files)),
        newest_first(files).to_multiset() == files.to_multiset(),
        newest_first(files).len() == files.len(),
    decreases files.len(),
{
    broadcast use vstd::seq_lib::to_multiset_build;

    if files.len() == 0 {
        assert(files =~= Seq::<FileInfoView>::empty());
    } else {
        lemma_newest_first_sorts(files.drop_last());
        lemma_placed_keeps_order(newest_first(files.drop_last()), files.last());
        assert(files =~= files.drop_last().push(files.last()));
    }
}

/// Sorts files by name, later names first. Files of the same name stay in
/// the order in which they were given.
pub fn sort_newest_first(files: Vec<FileInfo>) -> (sorted: Vec<FileInfo>)
    ensures
        file_views(sorted@) == newest_first(file_views(files@)),
        descending(file_views(sorted@)),
        file_views(sorted@).to_multiset() == file_views(files@).to_multiset(),
        sorted@.len() == files@.len(),
{
    let ghost all = files@;
    let mut sorted: Vec<FileInfo> = Vec::new();
    proof {
        assert(file_views(all.take(0)) =~= Seq::<FileInfoView>::empty());
        assert(file_views(sorted@) =~= Seq::<FileInfoView>::empty());
    }
    for file in it: files.into_iter()
        invariant
            it.seq() == all,
            file_views(sorted@) == newest_first(file_views(all.take(it.index() as int))),
    {
        let ghost done = it.index() as int;
        let ghost before = file_views(sorted@);
        let mut at: usize = 0;
        while at < sorted.len() && bytes_le(
            file.filename.as_str().as_bytes(),
            sorted[at].filename.as_str().as_bytes(),
        )
            invariant
                at <= sorted.len(),
                before == file_views(sorted@),
                forall|j: int| 0 <= j < at ==> name_le(file@, before[j]),
            decreases sorted.len() - at,
        {
            at += 1;
        }
        proof {
            lemma_placed_at(before, file@, at as int);
            let now = file_views(all.take(done + 1));
            assert(now.drop_last() =~= file_views(all.take(done)));
            assert(now.last() == file@);
        }
        sorted.insert(at, file);
        assert(file_views(sorted@) =~= before.insert(at as int, file@));
    }
    proof {
        assert(all.take(all.len() as int) =~= all);
        lemma_newest_first_sorts(file_views(all));
        assert(file_views(sorted@).len() == sorted@.len());
    }
    sorted
}

/// Answers a search. `found` are the files that the search tool listed, in
/// the order in which it listed them. The answer holds the page that the
/// query asks for, taken from the files in the order of their names, later
/// names first, and says how many files were found in all.
pub fn search_files(found: Vec<FileInfo>, query: &SearchQuery) -> (result: SearchResult)
    ensures
        file_views(result.files@) == page_of(
            newest_first(file_views(found@)),
            query.page as nat,
            query.limit as nat,
        ),
        result.files@.len() <= query.limit,
        result.total == found@.len(),
        result.page == query.page,
        result.limit == query.limit,
{
    let sorted = sort_newest_first(found);
    let files = take_page(&sorted, query.page, query.limit);
    SearchResult { files, total: sorted.len(), page: query.page, limit: query.limit }
}

} // verus!
