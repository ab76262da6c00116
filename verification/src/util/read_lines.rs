//! Splitting what was read from a file into lines.

use vstd::prelude::*;

verus! {

/// The byte that ends a line.
pub const NEWLINE: u8 = 10;

/// `line` ends with the newline byte.
pub open spec fn is_terminated(line: Seq<u8>) -> bool {
    line.len() > 0 && line.last() == NEWLINE
}

/// The lines of `data`: each runs up to and including the next newline
/// byte, and what follows the last newline, if anything, is the last line.
pub open spec fn lines_of(data: Seq<u8>) -> Seq<Seq<u8>>
    decreases data.len(),
{
    if data.len() == 0 {
        Seq::empty()
    } else {
        let before = lines_of(data.drop_last());
        if before.len() == 0 || is_terminated(before.last()) {
            before.push(seq![data.last()])
        } else {
            before.update(before.len() - 1, before.last().push(data.last()))
        }
    }
}

/// All the given sequences, one after the other.
pub open spec fn concat(parts: Seq<Seq<u8>>) -> Seq<u8>
    decreases parts.len(),
{
    if parts.len() == 0 {
        Seq::empty()
    } else {
        concat(parts.drop_last()) + parts.last()
    }
}

/// The plain values of a vector of lines.
pub open spec fn lines_view(lines: Seq<Vec<u8>>) -> Seq<Seq<u8>> {
    lines.map_values(|line: Vec<u8>| line@)
}

/// Every line but the last ends with a newline, no line is empty, and no
/// line holds a newline before its last byte.
pub open spec fn well_split(lines: Seq<Seq<u8>>) -> bool {
    &&& forall|i: int| 0 <= i < lines.len() ==> (#[trigger] lines[i]).len() > 0
    &&& forall|i: int| 0 <= i < lines.len() - 1 ==> is_terminated(#[trigger] lines[i])
    &&& forall|i: int, j: int|
        0 <= i < lines.len() && 0 <= j < lines[i].len() - 1 ==> (#[trigger] lines[i][j]) != NEWLINE
}

/// Splitting loses nothing and keeps the order: the lines of `data`, one
/// after the other, are `data`. Each line is terminated by the newline it
/// was split at, which it retains; only the last line may lack one.
pub proof fn lemma_lines_of(data: Seq<u8>)
    ensures
        concat(lines_of(data)) == data,
        well_split(lines_of(data)),
        data.len() > 0 ==> lines_of(data).len() > 0,
        data.len() > 0 ==> is_terminated(lines_of(data).last()) == (data.last() == NEWLINE),
    decreases data.len(),
{
    if data.len() > 0 {
        let front = data.drop_last();
        let before = lines_of(front);
        let all = lines_of(data);
        lemma_lines_of(front);
        if before.len() == 0 || is_terminated(before.last()) {
            assert(all.drop_last() =~= before);
        } else {
            assert(all.drop_last() =~= before.drop_last());
            assert(front.push(data.last()) =~= data);
        }
    }
}

/// Splits `data`, all that was read from a file, into its lines. Each line
/// keeps the newline that ends it.
pub fn read_lines(data: &Vec<u8>) -> (lines: Vec<Vec<u8>>)
    ensures
        lines_view(lines@) == lines_of(data@),
{
    let mut lines: Vec<Vec<u8>> = Vec::new();
    let mut current: Vec<u8> = Vec::new();
    let mut i: usize = 0;
    while i < data.len()
        invariant
            0 <= i <= data@.len(),
            forall|k: int| 0 <= k < lines@.len() ==> is_terminated(#[trigger] lines@[k]@),
            !is_terminated(current@),
            lines_of(data@.take(i as int)) == if current@.len() == 0 {
                lines_view(lines@)
            } else {
                lines_view(lines@).push(current@)
            },
        decreases data@.len() - i,
    {
        let byte = data[i];
        assert(data@.take(i + 1).drop_last() =~= data@.take(i as int));
        let ghost fresh = current@.len() == 0;
        current.push(byte);
        assert(fresh ==> current@ =~= seq![byte]);
        if byte == NEWLINE {
            lines.push(current);
            current = Vec::new();
        }
        i = i + 1;
    }
    assert(data@.take(i as int) =~= data@);
    if current.len() > 0 {
        lines.push(current);
    }
    lines
}

} // verus!
