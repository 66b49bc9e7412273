//! Spreadsheet cell-reference utilities: parsing `A1`-style references
//! and ranges, and rendering column numbers as letters.

use vstd::prelude::*;

use crate::text;

verus! {

/// Error type for spreadsheet operations.
#[derive(Debug, Clone)]
pub enum XlsxError {
    /// The workbook could not be parsed.
    ParseError(String),
}

impl XlsxError {
    /// The user-visible description of this error.
    pub open spec fn message_spec(&self) -> Seq<char> {
        match self {
            XlsxError::ParseError(m) => "Parse error: "@ + m@,
        }
    }

    /// Render the user-visible description of this error.
    pub fn message(&self) -> (m: String)
        ensures
            m@ == self.message_spec(),
    {
        match self {
            XlsxError::ParseError(e) => {
                let mut m = String::from_str("Parse error: ");
                m.append(e.as_str());
                m
            },
        }
    }
}

/// An ASCII letter.
pub open spec fn is_ascii_alpha(c: char) -> bool {
    65 <= c as int <= 90 || 97 <= c as int <= 122
}

/// An ASCII decimal digit.
pub open spec fn is_ascii_num(c: char) -> bool {
    48 <= c as int <= 57
}

/// The 1-based alphabet position of an ASCII letter.
pub open spec fn alpha_val(c: char) -> int {
    if 65 <= c as int <= 90 {
        c as int - 64
    } else {
        c as int - 96
    }
}

/// The value of an ASCII digit.
pub open spec fn digit_val(c: char) -> int {
    c as int - 48
}

/// The 1-based column number a cell reference's letters spell in
/// bijective base 26; characters other than ASCII letters are ignored.
pub open spec fn cell_col(s: Seq<char>) -> int
    decreases s.len(),
{
    if s.len() == 0 {
        0
    } else if is_ascii_alpha(s.last()) {
        cell_col(s.drop_last()) * 26 + alpha_val(s.last())
    } else {
        cell_col(s.drop_last())
    }
}

/// The 1-based row number a cell reference's digits spell in decimal;
/// characters other than ASCII digits are ignored.
pub open spec fn cell_row(s: Seq<char>) -> int
    decreases s.len(),
{
    if s.len() == 0 {
        0
    } else if is_ascii_num(s.last()) {
        cell_row(s.drop_last()) * 10 + digit_val(s.last())
    } else {
        cell_row(s.drop_last())
    }
}

/// Whether the reference holds at least one digit (a parsable row part).
pub open spec fn has_digit(s: Seq<char>) -> bool {
    exists|i: int| 0 <= i < s.len() && is_ascii_num(#[trigger] s[i])
}

/// What parsing a cell reference yields: the 0-based column and row, or
/// nothing when there is no row digit or a value does not fit the result
/// type. A column or row of zero stays at zero rather than wrapping.
pub open spec fn cell_ref_parsed(s: Seq<char>) -> Option<(u32, u32)> {
    if has_digit(s) && cell_row(s) <= u32::MAX && cell_col(s) <= u32::MAX {
        Some(
            (
                if cell_col(s) >= 1 {
                    (cell_col(s) - 1) as u32
                } else {
                    0u32
                },
                if cell_row(s) >= 1 {
                    (cell_row(s) - 1) as u32
                } else {
                    0u32
                },
            ),
        )
    } else {
        None
    }
}

/// Parse a cell reference like `A1` to a 0-based (column, row) pair.
/// Characters that are neither letters nor digits are ignored, as is
/// letter case; a reference whose column or row does not fit the result
/// type yields `None` rather than wrapping.
pub fn parse_cell_ref(cell_ref: &str) -> (r: Option<(u32, u32)>)
    ensures
        r == cell_ref_parsed(cell_ref@),
{
    let len = cell_ref.unicode_len();
    let mut col: u64 = 0;
    let mut row: u64 = 0;
    let mut col_over: bool = false;
    let mut row_over: bool = false;
    let mut seen_digit: bool = false;
    let mut i: usize = 0;
    let umax: u64 = u32::MAX as u64;
    while i < len
        invariant
            len == cell_ref@.len(),
            i <= len,
            umax == u32::MAX,
            !col_over ==> col == cell_col(cell_ref@.take(i as int)) && col <= umax,
            col_over ==> cell_col(cell_ref@.take(i as int)) > umax,
            !row_over ==> row == cell_row(cell_ref@.take(i as int)) && row <= umax,
            row_over ==> cell_row(cell_ref@.take(i as int)) > umax,
            seen_digit == has_digit(cell_ref@.take(i as int)),
        decreases len - i,
    {
        let ghost pre = cell_ref@.take(i as int);
        let ghost post = cell_ref@.take(i as int + 1);
        proof {
            assert(post.drop_last() =~= pre);
            assert(post.last() == cell_ref@[i as int]);
        }
        let c = cell_ref.get_char(i);
        let v: u32 = c as u32;
        if (65 <= v && v <= 90) || (97 <= v && v <= 122) {
            let av: u64 = if v <= 90 {
                (v - 64) as u64
            } else {
                (v - 96) as u64
            };
            if col_over {
                proof {
                    assert(cell_col(pre) * 26 + alpha_val(c) > umax) by (nonlinear_arith)
                        requires
                            cell_col(pre) > umax as int,
                            alpha_val(c) >= 1,
                            umax as int >= 0,
                    ;
                }
            } else {
                let next = col * 26 + av;
                if next > umax {
                    col_over = true;
                } else {
                    col = next;
                }
            }
        } else if 48 <= v && v <= 57 {
            seen_digit = true;
            let dv: u64 = (v - 48) as u64;
            if row_over {
                proof {
                    assert(cell_row(pre) * 10 + digit_val(c) > umax) by (nonlinear_arith)
                        requires
                            cell_row(pre) > umax as int,
                            digit_val(c) >= 0,
                            umax as int >= 0,
                    ;
                }
            } else {
                let next = row * 10 + dv;
                if next > umax {
                    row_over = true;
                } else {
                    row = next;
                }
            }
        }
        proof {
            assert(has_digit(post) == (has_digit(pre) || is_ascii_num(cell_ref@[i as int])));
        }
        i = i + 1;
    }
    proof {
        assert(cell_ref@.take(len as int) =~= cell_ref@);
    }
    if !seen_digit || col_over || row_over {
        return None;
    }
    let col32: u32 = col as u32;
    let row32: u32 = row as u32;
    Some((col32.saturating_sub(1), row32.saturating_sub(1)))
}

/// How many times `c` occurs in `s`.
pub open spec fn count_char(s: Seq<char>, c: char) -> int
    decreases s.len(),
{
    if s.len() == 0 {
        0
    } else {
        count_char(s.drop_last(), c) + if s.last() == c {
            1int
        } else {
            0int
        }
    }
}

/// What parsing a cell range like `A1:B2` yields: 0-based
/// (start row, start column, end row, end column), or nothing unless the
/// text holds exactly one `:` with a parsable reference on each side.
pub open spec fn cell_range_parsed(s: Seq<char>) -> Option<(u32, u32, u32, u32)> {
    if count_char(s, ':') != 1 {
        None
    } else {
        let k = text::last_index_of(s, ':');
        let a = cell_ref_parsed(s.subrange(0, k));
        let b = cell_ref_parsed(s.subrange(k + 1, s.len() as int));
        if a is Some && b is Some {
            Some(((a->0).1, (a->0).0, (b->0).1, (b->0).0))
        } else {
            None
        }
    }
}

/// Parse a cell range like `A1:B2` to 0-based
/// (start row, start column, end row, end column).
pub fn parse_cell_range(range: &str) -> (r: Option<(u32, u32, u32, u32)>)
    ensures
        r == cell_range_parsed(range@),
{
    let len = range.unicode_len();
    let mut colons: usize = 0;
    let mut i: usize = 0;
    while i < len
        invariant
            len == range@.len(),
            i <= len,
            colons == count_char(range@.take(i as int), ':'),
            colons <= i,
        decreases len - i,
    {
        proof {
            assert(range@.take(i as int + 1).drop_last() =~= range@.take(i as int));
            assert(range@.take(i as int + 1).last() == range@[i as int]);
        }
        if range.get_char(i) == ':' {
            colons = colons + 1;
        }
        i = i + 1;
    }
    proof {
        assert(range@.take(len as int) =~= range@);
    }
    if colons != 1 {
        return None;
    }
    let k = match text::rfind_char(range, ':') {
        Some(k) => k,
        None => {
            proof {
                text::lemma_last_index_of(range@, ':');
                lemma_count_char_member(range@, ':');
            }
            return None;
        },
    };
    let first = range.substring_char(0, k);
    let second = range.substring_char(k + 1, len);
    let a = parse_cell_ref(first);
    let b = parse_cell_ref(second);
    match (a, b) {
        (Some((start_col, start_row)), Some((end_col, end_row))) => {
            Some((start_row, start_col, end_row, end_col))
        },
        _ => None,
    }
}

/// A string that holds `c` nowhere has a zero count.
proof fn lemma_count_char_member(s: Seq<char>, c: char)
    requires
        forall|j: int| 0 <= j < s.len() ==> s[j] != c,
    ensures
        count_char(s, c) == 0,
    decreases s.len(),
{
    if s.len() > 0 {
        lemma_count_char_member(s.drop_last(), c);
    }
}

/// The letters naming a 1-based column number in bijective base 26.
pub open spec fn col_letters(n: nat) -> Seq<char>
    decreases n,
{
    if n == 0 {
        Seq::empty()
    } else {
        col_letters(((n - 1) / 26) as nat) + seq![letter_char(((n - 1) % 26) as nat)]
    }
}

/// The `d`-th letter of the alphabet, 0-based.
pub open spec fn letter_char(d: nat) -> char {
    "ABCDEFGHIJKLMNOPQRSTUVWXYZ"@[d as int]
}

/// The single-letter string for an alphabet position.
fn letter_str(d: u32) -> (r: &'static str)
    requires
        d < 26,
    ensures
        r@ == seq![letter_char(d as nat)],
{
    let alpha = "ABCDEFGHIJKLMNOPQRSTUVWXYZ";
    proof {
        reveal_strlit("ABCDEFGHIJKLMNOPQRSTUVWXYZ");
    }
    let r = alpha.substring_char(d as usize, d as usize + 1);
    proof {
        assert(r@ =~= seq![letter_char(d as nat)]);
    }
    r
}

/// Spell a positive column number in letters.
fn col_letters_pos(n: u32) -> (s: String)
    requires
        n >= 1,
    ensures
        s@ == col_letters(n as nat),
    decreases n,
{
    let m: u32 = (n - 1) % 26;
    let rest: u32 = (n - 1) / 26;
    if rest == 0 {
        let s = String::from_str(letter_str(m));
        proof {
            assert(col_letters(0) =~= Seq::<char>::empty());
            assert((n as nat - 1) / 26 == 0);
            assert(s@ =~= col_letters(n as nat));
        }
        s
    } else {
        let mut s = col_letters_pos(rest);
        s.append(letter_str(m));
        proof {
            assert(rest as nat == ((n as nat - 1) / 26) as nat);
            assert(m as nat == ((n as nat - 1) % 26) as nat);
            assert(col_letters(n as nat) == col_letters(((n as nat - 1) / 26) as nat) + seq![
                letter_char(((n as nat - 1) % 26) as nat),
            ]);
            assert(s@ =~= col_letters(n as nat));
        }
        s
    }
}

/// Convert a 0-based column index to its spreadsheet letters: column 0
/// is `A`, 25 is `Z`, 26 is `AA`.
pub fn column_to_letter(col: u32) -> (s: String)
    requires
        col < u32::MAX,
    ensures
        s@ == col_letters((col + 1) as nat),
{
    col_letters_pos(col + 1)
}

} // verus!
