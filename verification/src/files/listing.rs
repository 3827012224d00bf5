//! Reading what the search tool prints: one path on each line.

use vstd::prelude::*;
use vstd::utf8::decode_utf8;
use vstd::utf8::valid_utf8;

use crate::text::chars_of;
use crate::text::push_char;

verus! {

/// The text that bytes are read as when they need not be well-formed: what
/// `String::from_utf8_lossy` gives, with a replacement character wherever the
/// bytes are no UTF-8.
pub uninterp spec fn lossy_text(bytes: Seq<u8>) -> Seq<char>;

/// Reads bytes as text through `String::from_utf8_lossy`. Well-formed UTF-8
/// is decoded as it stands.
#[verifier::external_body]
fn lossy(bytes: &[u8]) -> (text: String)
    ensures
        text@ == lossy_text(bytes@),
        valid_utf8(bytes@) ==> text@ == decode_utf8(bytes@),
{
    String::from_utf8_lossy(bytes).into_owned()
}

/// The length of the first line of `text`: the number of characters in
/// front of the first line feed, or all of them where there is none.
pub open spec fn line_len(text: Seq<char>) -> nat
    decreases text.len(),
{
    if text.len() == 0 || text[0] == '\n' {
        0
    } else {
        1 + line_len(text.skip(1))
    }
}

/// The lines of `text` that are not empty, in order. Lines are what stands
/// between line feeds; the feeds themselves belong to no line.
pub open spec fn lines(text: Seq<char>) -> Seq<Seq<char>>
    decreases text.len(),
{
    if text.len() == 0 {
        Seq::empty()
    } else {
        let n = line_len(text) as int;
        let rest = if n < text.len() {
            lines(text.skip(n + 1))
        } else {
            Seq::empty()
        };
        if n == 0 {
            rest
        } else {
            seq![text.take(n)] + rest
        }
    }
}

/// The first line ends at `n` where no line feed stands in front of `n` and
/// one stands there, or the text ends there.
proof fn lemma_line_len(text: Seq<char>, n: int)
    requires
        0 <= n <= text.len(),
        forall|i: int| 0 <= i < n ==> text[i] != '\n',
        n < text.len() ==> text[n] == '\n',
    ensures
        line_len(text) == n,
    decreases n,
{
    if n > 0 {
        let tail = text.skip(1);
        assert forall|i: int| 0 <= i < n - 1 implies tail[i] != '\n' by {
            assert(tail[i] == text[i + 1]);
        }
        lemma_line_len(tail, n - 1);
    }
}

/// The lines of `text` that are not empty.
pub fn lines_of(text: &str) -> (found: Vec<String>)
    ensures
        found@.len() == lines(text@).len(),
        forall|i: int| 0 <= i < found@.len() ==> (#[trigger] found@[i])@ == lines(text@)[i],
{
    let chars = chars_of(text);
    let mut found: Vec<String> = Vec::new();
    let ghost mut taken: Seq<Seq<char>> = Seq::empty();
    let mut line = String::new();
    let mut start: usize = 0;
    let mut at: usize = 0;
    proof {
        assert(chars@.skip(0) =~= chars@);
    }
    while at < chars.len()
        invariant
            start <= at <= chars.len(),
            chars@ == text@,
            line@ == chars@.subrange(start as int, at as int),
            forall|i: int| start <= i < at ==> chars@[i] != '\n',
            taken + lines(chars@.skip(start as int)) == lines(chars@),
            found@.len() == taken.len(),
            forall|i: int| 0 <= i < found@.len() ==> (#[trigger] found@[i])@ == taken[i],
        decreases chars.len() - at,
    {
        let c = chars[at];
        if c == '\n' {
            proof {
                let open = chars@.skip(start as int);
                assert forall|i: int| 0 <= i < at - start implies open[i] != '\n' by {
                    assert(open[i] == chars@[start + i]);
                }
                lemma_line_len(open, at - start);
                assert(open.skip(at - start + 1) =~= chars@.skip(at + 1));
                assert(open.take(at - start) =~= line@);
            }
            if at > start {
                proof {
                    let rest = lines(chars@.skip(at + 1));
                    assert(taken.push(line@) + rest =~= taken + (seq![line@] + rest));
                    taken = taken.push(line@);
                }
                found.push(line);
                line = String::new();
            }
            start = at + 1;
            at = at + 1;
            assert(line@ =~= chars@.subrange(start as int, at as int));
        } else {
            push_char(&mut line, c);
            at = at + 1;
            assert(line@ =~= chars@.subrange(start as int, at as int));
        }
    }
    proof {
        let open = chars@.skip(start as int);
        if open.len() > 0 {
            assert forall|i: int| 0 <= i < open.len() implies open[i] != '\n' by {
                assert(open[i] == chars@[start + i]);
            }
            lemma_line_len(open, open.len() as int);
            assert(open.take(open.len() as int) =~= line@);
            assert(taken.push(line@) =~= taken + seq![line@]);
            assert(seq![line@] + Seq::<Seq<char>>::empty() =~= seq![line@]);
        } else {
            assert(taken + Seq::<Seq<char>>::empty() =~= taken);
        }
    }
    if at > start {
        proof {
            taken = taken.push(line@);
        }
        found.push(line);
    }
    found
}

/// No line is empty and none holds a line feed.
pub proof fn lemma_lines_are_whole(text: Seq<char>)
    ensures
        forall|i: int|
            0 <= i < lines(text).len() ==> (#[trigger] lines(text)[i]).len() > 0 && !lines(
                text,
            )[i].contains('\n'),
    decreases text.len(),
{
    if text.len() > 0 {
        let n = line_len(text) as int;
        lemma_line_len_bounds(text);
        let rest = if n < text.len() {
            lines(text.skip(n + 1))
        } else {
            Seq::empty()
        };
        if n < text.len() {
            lemma_lines_are_whole(text.skip(n + 1));
        }
        if n > 0 {
            let first = text.take(n);
            assert(!first.contains('\n')) by {
                if first.contains('\n') {
                    let k = choose|k: int| 0 <= k < first.len() && first[k] == '\n';
                    assert(text[k] == '\n');
                }
            }
            assert forall|i: int| 0 <= i < lines(text).len() implies (#[trigger] lines(
                text,
            )[i]).len() > 0 && !lines(text)[i].contains('\n') by {
                if i > 0 {
                    assert(lines(text)[i] == rest[i - 1]);
                }
            }
        }
    }
}

/// The first line ends within the text, and no line feed stands in it.
proof fn lemma_line_len_bounds(text: Seq<char>)
    ensures
        line_len(text) <= text.len(),
        forall|i: int| 0 <= i < line_len(text) ==> text[i] != '\n',
    decreases text.len(),
{
    if text.len() > 0 && text[0] != '\n' {
        let tail = text.skip(1);
        lemma_line_len_bounds(tail);
        assert forall|i: int| 0 <= i < line_len(text) implies text[i] != '\n' by {
            if i > 0 {
                assert(tail[i - 1] == text[i]);
            }
        }
    }
}

/// The paths that the search tool printed: the lines of its output that are
/// not empty, the output read as text even where it is no UTF-8.
pub fn listed_paths(output: &[u8]) -> (paths: Vec<String>)
    ensures
        paths@.len() == lines(lossy_text(output@)).len(),
        forall|i: int|
            0 <= i < paths@.len() ==> (#[trigger] paths@[i])@ == lines(lossy_text(output@))[i],
        valid_utf8(output@) ==> lossy_text(output@) == decode_utf8(output@),
{
    let text = lossy(output);
    lines_of(text.as_str())
}

} // verus!
