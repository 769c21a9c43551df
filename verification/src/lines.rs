//! Splitting a file's content into the lines a buffer holds.
//!
//! The split follows the usual line-reading convention: lines end at `\n`
//! or `\r\n`, the line terminator is not part of the line, a final line
//! without a terminator still counts, and a terminator at the very end
//! adds no empty line after it.
use vstd::prelude::*;
use vstd::string::StrSliceExecFns;

verus! {

/// Index of the first `\n` at or after `i`, or the text's length.
pub open spec fn find_nl(s: Seq<char>, i: nat) -> nat
    decreases s.len() - i,
{
    if i >= s.len() {
        s.len()
    } else if s[i as int] == '\n' {
        i
    } else {
        find_nl(s, i + 1)
    }
}

/// A line with a trailing carriage return dropped: the remains of a
/// `\r\n` terminator once the `\n` is cut.
pub open spec fn strip_cr(line: Seq<char>) -> Seq<char> {
    if line.len() > 0 && line.last() == '\r' {
        line.drop_last()
    } else {
        line
    }
}

/// The lines of `s[i..]`: up to each `\n` with any `\r` before it
/// dropped, and whatever follows the last `\n` as a final line if it is
/// not empty.
pub open spec fn lines_from(s: Seq<char>, i: nat) -> Seq<Seq<char>>
    decreases s.len() - i,
{
    if i >= s.len() {
        Seq::empty()
    } else {
        let j: nat = find_nl(s, i);
        if j >= s.len() {
            seq![s.subrange(i as int, s.len() as int)]
        } else if j < i {
            // never reached: a search that starts at i cannot land before i
            Seq::empty()
        } else {
            seq![strip_cr(s.subrange(i as int, j as int))] + lines_from(s, j + 1)
        }
    }
}

/// The lines of a whole text.
pub open spec fn spec_split_lines(s: Seq<char>) -> Seq<Seq<char>> {
    lines_from(s, 0)
}

/// Index of the first `\n` at or after `i`, or the text's length; equal
/// to [`find_nl`].
fn find_nl_exec(text: &str, i: usize) -> (r: usize)
    requires
        i <= text@.len(),
    ensures
        r == find_nl(text@, i as nat),
        i <= r <= text@.len(),
{
    let n: usize = text.unicode_len();
    let mut j: usize = i;
    while j < n && text.get_char(j) != '\n'
        invariant
            i <= j <= n,
            n == text@.len(),
            find_nl(text@, i as nat) == find_nl(text@, j as nat),
        decreases n - j,
    {
        j = j + 1;
    }
    assert(find_nl(text@, j as nat) == j);
    j
}

/// Split a text into its lines, exactly as [`spec_split_lines`] says.
pub fn split_lines(text: &str) -> (r: Vec<String>)
    ensures
        r@.len() == spec_split_lines(text@).len(),
        forall|k: int| 0 <= k < r@.len() ==> (#[trigger] r@[k])@ == spec_split_lines(text@)[k],
{
    let n: usize = text.unicode_len();
    let mut r: Vec<String> = Vec::new();
    let mut i: usize = 0;
    while i < n
        invariant
            i <= n,
            n == text@.len(),
            Seq::new(r@.len(), |k: int| r@[k]@) + lines_from(text@, i as nat) == lines_from(
                text@,
                0,
            ),
        decreases n - i,
    {
        let ghost r0 = Seq::new(r@.len(), |k: int| r@[k]@);
        let j: usize = find_nl_exec(text, i);
        if j >= n {
            let line: &str = text.substring_char(i, n);
            r.push(line.to_owned());
            proof {
                assert(lines_from(text@, i as nat) =~= seq![
                    text@.subrange(i as int, n as int),
                ]);
                assert(Seq::new(r@.len(), |k: int| r@[k]@) =~= r0 + seq![
                    text@.subrange(i as int, n as int),
                ]);
            }
            i = n;
        } else {
            let end: usize = if j > i && text.get_char(j - 1) == '\r' {
                j - 1
            } else {
                j
            };
            let line: &str = text.substring_char(i, end);
            r.push(line.to_owned());
            proof {
                let full: Seq<char> = text@.subrange(i as int, j as int);
                if j > i && text@[j as int - 1] == '\r' {
                    assert(full.drop_last() =~= text@.subrange(i as int, j as int - 1));
                    assert(strip_cr(full) == text@.subrange(i as int, end as int));
                } else {
                    assert(strip_cr(full) == text@.subrange(i as int, end as int));
                }
                assert(lines_from(text@, i as nat) =~= seq![strip_cr(full)] + lines_from(
                    text@,
                    (j + 1) as nat,
                ));
                assert(Seq::new(r@.len(), |k: int| r@[k]@) =~= r0 + seq![strip_cr(full)]);
                assert((r0 + seq![strip_cr(full)]) + lines_from(text@, (j + 1) as nat)
                    =~= r0 + (seq![strip_cr(full)] + lines_from(text@, (j + 1) as nat)));
            }
            i = j + 1;
        }
    }
    proof {
        assert(lines_from(text@, i as nat) =~= Seq::<Seq<char>>::empty());
        assert(Seq::new(r@.len(), |k: int| r@[k]@) + lines_from(text@, i as nat) =~= Seq::new(
            r@.len(),
            |k: int| r@[k]@,
        ));
    }
    r
}

} // verus!
