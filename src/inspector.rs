//! Text columns of the packet inspector's hex dump.
//!
//! A dump row shows up to 16 bytes: an offset label, the bytes in hex (an
//! extra space after every eighth column) and the bytes as printable
//! ASCII between bars. Rows are returned as characters; drawing them is
//! left to the caller.
use vstd::prelude::*;

verus! {

/// Bytes per dump row.
pub const BYTES_PER_ROW: usize = 16;

/// The sixteen lower-case hex digits.
pub open spec fn hex_digits() -> Seq<char> {
    seq!['0', '1', '2', '3', '4', '5', '6', '7', '8', '9', 'a', 'b', 'c', 'd', 'e', 'f']
}

/// Whether `ch` is a graphic ASCII character, `!` through `~`.
pub open spec fn is_graphic(ch: u8) -> bool {
    0x21 <= ch <= 0x7e
}

/// The character that stands for byte `ch` in the ASCII column.
pub open spec fn printable(ch: u8) -> char {
    if is_graphic(ch) {
        ch as char
    } else {
        '.'
    }
}

/// Converts a byte to the character shown for it: itself when it is a
/// graphic ASCII character, `.` otherwise.
pub fn to_print(ch: u8) -> (r: char)
    ensures
        r == printable(ch),
{
    if 0x21 <= ch && ch <= 0x7e {
        ch as char
    } else {
        '.'
    }
}

/// Hex digit of the nibble `n`.
pub fn hex_digit(n: u8) -> (r: char)
    requires
        n < 16,
    ensures
        r == hex_digits()[n as int],
{
    let digits: [char; 16] = [
        '0',
        '1',
        '2',
        '3',
        '4',
        '5',
        '6',
        '7',
        '8',
        '9',
        'a',
        'b',
        'c',
        'd',
        'e',
        'f',
    ];
    assert(digits@ =~= hex_digits());
    digits[n as usize]
}

/// Column `i` of a hex row over `chunk`: the byte's two digits and a space,
/// or three spaces past the end of the chunk, then one more space after
/// every eighth column.
pub open spec fn hex_cell(chunk: Seq<u8>, i: int) -> Seq<char> {
    let cell = if i < chunk.len() {
        seq![hex_digits()[(chunk[i] >> 4u8) as int], hex_digits()[(chunk[i] & 0x0fu8) as int], ' ']
    } else {
        seq![' ', ' ', ' ']
    };
    if (i + 1) % 8 == 0 {
        cell.push(' ')
    } else {
        cell
    }
}

/// The first `n` columns of a hex row over `chunk`.
pub open spec fn hex_cells(chunk: Seq<u8>, n: nat) -> Seq<char>
    decreases n,
{
    if n == 0 {
        Seq::empty()
    } else {
        hex_cells(chunk, (n - 1) as nat) + hex_cell(chunk, n - 1)
    }
}

/// Packet inspector: turns frame bytes into hex dump rows.
pub struct InspectorTab;

impl InspectorTab {
    /// Offset label of a row: `<`, the offset as eight hex digits, `>` and
    /// two spaces.
    pub fn offset_label(offset: u32) -> (r: Vec<char>)
        ensures
            r@.len() == 12,
            r@[0] == '<',
            forall|k: int|
                0 <= k < 8 ==> #[trigger] r@[k + 1] == hex_digits()[((offset >> (28 - 4 * k) as u32)
                    & 0x0fu32) as int],
            r@[9] == '>',
            r@[10] == ' ',
            r@[11] == ' ',
    {
        let mut r: Vec<char> = Vec::new();
        r.push('<');
        let mut k: u32 = 0;
        while k < 8
            invariant
                k <= 8,
                r@.len() == k + 1,
                r@[0] == '<',
                forall|j: int|
                    0 <= j < k ==> #[trigger] r@[j + 1] == hex_digits()[((offset >> (28 - 4 * j) as u32)
                        & 0x0fu32) as int],
            decreases 8 - k,
        {
            let shift: u32 = 28 - 4 * k;
            let nibble = ((offset >> shift) & 0x0fu32) as u8;
            assert(((offset >> shift) & 0x0fu32) < 16) by (bit_vector);
            r.push(hex_digit(nibble));
            k = k + 1;
        }
        r.push('>');
        r.push(' ');
        r.push(' ');
        r
    }

    /// Hex column of a row: 16 cells over `chunk`.
    pub fn hex_column(chunk: &[u8]) -> (r: Vec<char>)
        requires
            chunk@.len() <= BYTES_PER_ROW,
        ensures
            r@ == hex_cells(chunk@, BYTES_PER_ROW as nat),
    {
        let mut r: Vec<char> = Vec::new();
        let mut i: usize = 0;
        while i < BYTES_PER_ROW
            invariant
                i <= BYTES_PER_ROW,
                chunk@.len() <= BYTES_PER_ROW,
                r@ == hex_cells(chunk@, i as nat),
            decreases BYTES_PER_ROW - i,
        {
            let ghost before = r@;
            if i < chunk.len() {
                let b = chunk[i];
                assert(b >> 4u8 < 16 && b & 0x0fu8 < 16) by (bit_vector);
                r.push(hex_digit(b >> 4u8));
                r.push(hex_digit(b & 0x0fu8));
                r.push(' ');
            } else {
                r.push(' ');
                r.push(' ');
                r.push(' ');
            }
            if (i + 1) % 8 == 0 {
                r.push(' ');
            }
            assert(r@ =~= before + hex_cell(chunk@, i as int));
            i = i + 1;
        }
        r
    }

    /// ASCII column of a row: each byte as `to_print` shows it, between bars.
    pub fn ascii_column(chunk: &[u8]) -> (r: Vec<char>)
        ensures
            r@ == seq!['|'] + chunk@.map_values(|b: u8| printable(b)) + seq!['|'],
    {
        let mut r: Vec<char> = Vec::new();
        r.push('|');
        let mut i: usize = 0;
        while i < chunk.len()
            invariant
                i <= chunk@.len(),
                r@ == seq!['|'] + chunk@.subrange(0, i as int).map_values(|b: u8| printable(b)),
            decreases chunk@.len() - i,
        {
            let ghost before = r@;
            r.push(to_print(chunk[i]));
            assert(chunk@.subrange(0, i as int + 1).map_values(|b: u8| printable(b))
                =~= chunk@.subrange(0, i as int).map_values(|b: u8| printable(b)).push(
                printable(chunk@[i as int]),
            ));
            i = i + 1;
        }
        r.push('|');
        assert(chunk@.subrange(0, chunk@.len() as int) =~= chunk@);
        r
    }
}

} // verus!
