use vstd::prelude::*;

verus! {

/// Side of one level block, in pixels.
pub const BLOCK_SIZE: i32 = 16;

/// Row, column and block positions after reading `s`: a newline starts the
/// next row, an `x` is a block at (column * 16, row * 16), and any other
/// character is an empty cell.
pub open spec fn scan_level(s: Seq<char>) -> (int, int, Seq<(int, int)>)
    decreases s.len(),
{
    if s.len() == 0 {
        (0, 0, Seq::empty())
    } else {
        let (row, col, blocks) = scan_level(s.drop_last());
        let c = s.last();
        if c == '\n' {
            (row + 1, 0, blocks)
        } else if c == 'x' {
            (row, col + 1, blocks.push((col * BLOCK_SIZE, row * BLOCK_SIZE)))
        } else {
            (row, col + 1, blocks)
        }
    }
}

/// Pixel positions of the blocks of a level text, in reading order.
pub open spec fn level_blocks(s: Seq<char>) -> Seq<(int, int)> {
    scan_level(s).2
}

pub(crate) proof fn lemma_scan_bounds(s: Seq<char>)
    ensures
        0 <= scan_level(s).0 <= s.len(),
        0 <= scan_level(s).1 <= s.len(),
        scan_level(s).2.len() <= s.len(),
    decreases s.len(),
{
    if s.len() > 0 {
        lemma_scan_bounds(s.drop_last());
    }
}

/// A level text has no more blocks than characters.
pub proof fn lemma_block_count(s: Seq<char>)
    ensures
        level_blocks(s).len() <= s.len(),
{
    lemma_scan_bounds(s);
}

/// Returns the pixel positions of the blocks in a level text, in reading
/// order.
pub fn block_positions(level: &str) -> (r: Vec<(i32, i32)>)
    requires
        level@.len() * BLOCK_SIZE <= i32::MAX,
    ensures
        r@.map_values(|p: (i32, i32)| (p.0 as int, p.1 as int)) == level_blocks(level@),
{
    let n = level.unicode_len();
    let mut out: Vec<(i32, i32)> = Vec::new();
    let mut row: i32 = 0;
    let mut col: i32 = 0;
    let mut i: usize = 0;
    while i < n
        invariant
            i <= n,
            n == level@.len(),
            n * BLOCK_SIZE <= i32::MAX,
            scan_level(level@.subrange(0, i as int)) == (
                row as int,
                col as int,
                out@.map_values(|p: (i32, i32)| (p.0 as int, p.1 as int)),
            ),
        decreases n - i,
    {
        proof {
            lemma_scan_bounds(level@.subrange(0, i as int));
            assert(level@.subrange(0, i + 1).drop_last() =~= level@.subrange(0, i as int));
        }
        let c = level.get_char(i);
        if c == '\n' {
            row = row + 1;
            col = 0;
        } else if c == 'x' {
            out.push((col * BLOCK_SIZE, row * BLOCK_SIZE));
            col = col + 1;
        } else {
            col = col + 1;
        }
        i = i + 1;
        proof {
            let v = out@.map_values(|p: (i32, i32)| (p.0 as int, p.1 as int));
            let (r2, c2, b2) = scan_level(level@.subrange(0, i as int));
            assert(v =~= b2);
        }
    }
    proof {
        assert(level@.subrange(0, n as int) =~= level@);
    }
    out
}

} // verus!
