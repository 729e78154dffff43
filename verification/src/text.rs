//! Text lines from local input: what counts as white space, and what is left
//! of a line once its trailing white space is gone.

use vstd::prelude::*;
use vstd::string::StrSliceExecFns;

verus! {

/// Whether `c` has the Unicode property `White_Space`.
pub open spec fn is_white_space(c: char) -> bool {
    let u = c as u32;
    ||| 0x09 <= u <= 0x0D
    ||| u == 0x20
    ||| u == 0x85
    ||| u == 0xA0
    ||| u == 0x1680
    ||| 0x2000 <= u <= 0x200A
    ||| u == 0x2028
    ||| u == 0x2029
    ||| u == 0x202F
    ||| u == 0x205F
    ||| u == 0x3000
}

/// `s` without its trailing white space: the shortest prefix of `s` that is
/// followed by white space only.
pub open spec fn trim_end(s: Seq<char>) -> Seq<char>
    decreases s.len(),
{
    if s.len() > 0 && is_white_space(s.last()) {
        trim_end(s.drop_last())
    } else {
        s
    }
}

/// Whether `c` has the Unicode property `White_Space`.
pub fn is_white_space_char(c: char) -> (r: bool)
    ensures
        r == is_white_space(c),
{
    let u: u32 = c as u32;
    (0x09 <= u && u <= 0x0D) || u == 0x20 || u == 0x85 || u == 0xA0 || u == 0x1680 || (0x2000 <= u
        && u <= 0x200A) || u == 0x2028 || u == 0x2029 || u == 0x202F || u == 0x205F || u == 0x3000
}

/// The line without its trailing white space, line terminator included.
pub fn trim_line(line: &str) -> (kept: &str)
    ensures
        kept@ == trim_end(line@),
{
    let total = line.unicode_len();
    let mut keep: usize = 0;
    let mut seen: usize = 0;
    for c in it: line.chars()
        invariant
            it.seq() == line@,
            line@.len() == total,
            seen == it.index(),
            keep <= seen,
            line@.take(keep as int) == trim_end(line@.take(seen as int)),
    {
        proof {
            let before = line@.take(seen as int);
            let after = line@.take(seen + 1);
            assert(after.drop_last() == before);
            assert(after.last() == c);
        }
        seen = seen + 1;
        if !is_white_space_char(c) {
            keep = seen;
        }
    }
    proof {
        assert(line@.take(seen as int) == line@);
    }
    line.substring_char(0, keep)
}

/// Whether `s` is empty or ends in something other than white space.
pub open spec fn ends_in_text(s: Seq<char>) -> bool {
    s.len() == 0 || !is_white_space(s.last())
}

/// Whether `s` is white space throughout.
pub open spec fn all_white_space(s: Seq<char>) -> bool {
    forall|i: int| 0 <= i < s.len() ==> is_white_space(#[trigger] s[i])
}

/// Trimming cuts a line in two: what is kept is the beginning of the line
/// and does not end in white space, and what is dropped is white space
/// throughout.
pub proof fn lemma_trim_end_splits(s: Seq<char>)
    ensures
        trim_end(s).len() <= s.len(),
        s == trim_end(s) + s.skip(trim_end(s).len() as int),
        ends_in_text(trim_end(s)),
        all_white_space(s.skip(trim_end(s).len() as int)),
    decreases s.len(),
{
    if s.len() > 0 && is_white_space(s.last()) {
        let shorter = s.drop_last();
        lemma_trim_end_splits(shorter);
        let kept = trim_end(s);
        let dropped = s.skip(kept.len() as int);
        assert(dropped.drop_last() =~= shorter.skip(kept.len() as int));
        assert forall|i: int| 0 <= i < dropped.len() implies is_white_space(
            #[trigger] dropped[i],
        ) by {
            if i < dropped.len() - 1 {
                assert(dropped[i] == dropped.drop_last()[i]);
            }
        }
        let rest = shorter.skip(kept.len() as int);
        assert forall|i: int| 0 <= i < kept.len() implies s[i] == kept[i] by {
            assert(shorter[i] == (kept + rest)[i]);
        }
        assert(s =~= kept + dropped);
    } else {
        assert(s.skip(s.len() as int) =~= Seq::<char>::empty());
        assert(s =~= s + Seq::<char>::empty());
    }
}

/// Trimming takes away the trailing white space and nothing else: of text
/// that does not end in white space, followed by white space only, the text
/// is what is left.
pub proof fn lemma_trim_end_strips(text: Seq<char>, tail: Seq<char>)
    requires
        ends_in_text(text),
        all_white_space(tail),
    ensures
        trim_end(text + tail) == text,
    decreases tail.len(),
{
    if tail.len() == 0 {
        assert(text + tail =~= text);
    } else {
        let line = text + tail;
        assert(line.last() == tail.last());
        assert(line.drop_last() =~= text + tail.drop_last());
        lemma_trim_end_strips(text, tail.drop_last());
    }
}

} // verus!
