//! Text: matrices as comma-separated rows, and numbers in decimal.

use crate::matrix::{has_shape, Matrix};
use std::fmt::Write;
use vstd::prelude::*;
use vstd::string::StringExecFns;

verus! {

/// The character of the decimal digit `d`.
pub open spec fn digit_char(d: int) -> char {
    if d == 0 {
        '0'
    } else if d == 1 {
        '1'
    } else if d == 2 {
        '2'
    } else if d == 3 {
        '3'
    } else if d == 4 {
        '4'
    } else if d == 5 {
        '5'
    } else if d == 6 {
        '6'
    } else if d == 7 {
        '7'
    } else if d == 8 {
        '8'
    } else {
        '9'
    }
}

/// The decimal digits of `n`, without leading zeros.
pub open spec fn decimal(n: nat) -> Seq<char>
    decreases n,
{
    if n < 10 {
        seq![digit_char(n as int)]
    } else {
        decimal(n / 10).push(digit_char((n % 10) as int))
    }
}

/// `n` in decimal, with a minus sign where it is negative.
pub open spec fn signed_decimal(n: int) -> Seq<char> {
    if n < 0 {
        seq!['-'] + decimal((-n) as nat)
    } else {
        decimal(n as nat)
    }
}

/// The text of one decimal digit.
fn digit_text(d: u128) -> (text: &'static str)
    requires
        d < 10,
    ensures
        text@ == seq![digit_char(d as int)],
{
    proof {
        reveal_strlit("0");
        reveal_strlit("1");
        reveal_strlit("2");
        reveal_strlit("3");
        reveal_strlit("4");
        reveal_strlit("5");
        reveal_strlit("6");
        reveal_strlit("7");
        reveal_strlit("8");
        reveal_strlit("9");
    }
    let text = if d == 0 {
        "0"
    } else if d == 1 {
        "1"
    } else if d == 2 {
        "2"
    } else if d == 3 {
        "3"
    } else if d == 4 {
        "4"
    } else if d == 5 {
        "5"
    } else if d == 6 {
        "6"
    } else if d == 7 {
        "7"
    } else if d == 8 {
        "8"
    } else {
        "9"
    };
    assert(text@ =~= seq![digit_char(d as int)]);
    text
}

/// `n` in decimal.
fn unsigned_text(n: u128) -> (text: String)
    ensures
        text@ == decimal(n as nat),
    decreases n,
{
    if n < 10 {
        String::from_str(digit_text(n))
    } else {
        let text = unsigned_text(n / 10).concat(digit_text(n % 10));
        assert(text@ =~= decimal(n as nat));
        text
    }
}

/// `n` in decimal, with a minus sign where it is negative.
pub fn decimal_text(n: i128) -> (text: String)
    ensures
        text@ == signed_decimal(n as int),
{
    if n < 0 {
        proof {
            reveal_strlit("-");
        }
        let magnitude: u128 = if n == i128::MIN {
            0x8000_0000_0000_0000_0000_0000_0000_0000u128
        } else {
            (-n) as u128
        };
        let text = String::from_str("-").concat(unsigned_text(magnitude).as_str());
        assert(text@ =~= signed_decimal(n as int));
        text
    } else {
        unsigned_text(n as u128)
    }
}

/// The first `n` texts of `cells`, with a comma between neighbours.
pub open spec fn joined_cells(cells: Seq<Seq<char>>, n: nat) -> Seq<char>
    decreases n,
{
    if n == 0 {
        Seq::empty()
    } else if n == 1 {
        cells[0]
    } else {
        joined_cells(cells, (n - 1) as nat) + seq![','] + cells[n - 1]
    }
}

/// The first `n` rows of `cells`, each with its texts joined by commas, with
/// a line break between neighbours.
pub open spec fn joined_rows(cells: Seq<Seq<Seq<char>>>, n: nat) -> Seq<char>
    decreases n,
{
    if n == 0 {
        Seq::empty()
    } else if n == 1 {
        joined_cells(cells[0], cells[0].len())
    } else {
        joined_rows(cells, (n - 1) as nat) + seq!['\n'] + joined_cells(
            cells[n - 1],
            cells[n - 1].len(),
        )
    }
}

/// The texts that a vector of rows of strings holds.
pub open spec fn texts(cells: Seq<Vec<String>>) -> Seq<Seq<Seq<char>>> {
    Seq::new(cells.len(), |i: int| Seq::new(cells[i]@.len(), |j: int| cells[i]@[j]@))
}

/// The texts of one row with a comma between neighbours.
fn join_row(row: &Vec<String>) -> (text: String)
    ensures
        text@ == joined_cells(Seq::new(row@.len(), |j: int| row@[j]@), row@.len()),
{
    let ghost cells = Seq::new(row@.len(), |j: int| row@[j]@);
    let mut text = String::new();
    for col in 0..row.len()
        invariant
            cells == Seq::new(row@.len(), |j: int| row@[j]@),
            text@ == joined_cells(cells, col as nat),
    {
        if col > 0 {
            text.append(",");
        }
        text.append(row[col].as_str());
        proof {
            reveal_strlit(",");
        }
        assert(","@ =~= seq![',']);
        assert(cells[col as int] == row@[col as int]@);
        assert(text@ =~= joined_cells(cells, (col + 1) as nat));
    }
    text
}

/// The text of a grid of cell texts: the cells of a row are separated by
/// commas, the rows by line breaks. Nothing follows the last cell of a row
/// or the last row.
pub fn join_cells(cells: &Vec<Vec<String>>) -> (text: String)
    ensures
        text@ == joined_rows(texts(cells@), cells@.len()),
{
    let mut text = String::new();
    for row in 0..cells.len()
        invariant
            text@ == joined_rows(texts(cells@), row as nat),
    {
        if row > 0 {
            text.append("\n");
        }
        let line = join_row(&cells[row]);
        assert(texts(cells@)[row as int] =~= Seq::new(
            cells@[row as int]@.len(),
            |j: int| cells@[row as int]@[j]@,
        ));
        text.append(line.as_str());
        proof {
            reveal_strlit("\n");
        }
        assert("\n"@ =~= seq!['\n']);
        assert(text@ =~= joined_rows(texts(cells@), (row + 1) as nat));
    }
    text
}

/// `write!` of `{}` into a fresh string: the text that the element's
/// `Display` gives, or `None` where it reports an error. What the text is
/// depends on the element type, so nothing is said of it.
#[verifier::external_body]
fn display<T: core::fmt::Display>(value: &T) -> (shown: Option<String>) {
    let mut text = String::new();
    match write!(text, "{}", value) {
        Ok(()) => Some(text),
        Err(_) => None,
    }
}

/// `write!` of `{:.*}` into a fresh string: the text that the element's
/// `Display` gives when asked for `precision` digits after the decimal
/// point, or `None` where it reports an error. A formatter holds its
/// precision in 16 bits and takes no larger one. What the text is depends on
/// the element type, so nothing is said of it.
#[verifier::external_body]
fn display_fixed<T: core::fmt::Display>(value: &T, precision: usize) -> (shown: Option<String>)
    requires
        precision <= u16::MAX,
{
    let mut text = String::new();
    match write!(text, "{:.*}", precision, value) {
        Ok(()) => Some(text),
        Err(_) => None,
    }
}

/// A precision that a formatter takes: none, or one of at most 16 bits.
pub open spec fn precision_fits(precision: Option<usize>) -> bool {
    precision matches Some(digits) ==> digits <= u16::MAX
}

impl<T: core::fmt::Display> Matrix<T> {
    /// The text of each cell: with `precision` digits after the decimal point
    /// where a precision is given, else as the element shows itself. It is
    /// `None` where an element fails to show itself, which a matrix without
    /// cells cannot.
    pub fn cell_texts(&self, precision: Option<usize>) -> (cells: Option<Vec<Vec<String>>>)
        requires
            precision_fits(precision),
        ensures
            cells matches Some(lines) ==> has_shape(
                texts(lines@),
                self.spec_height(),
                self.spec_width(),
            ),
            cells is None ==> self.spec_height() > 0 && self.spec_width() > 0,
    {
        let height = self.height();
        let width = self.width();
        let mut cells: Vec<Vec<String>> = Vec::new();
        for row in 0..height
            invariant
                precision_fits(precision),
                height == self.spec_height(),
                width == self.spec_width(),
                has_shape(self@, height as nat, width as nat),
                cells@.len() == row,
                forall|i: int| 0 <= i < row ==> (#[trigger] cells@[i])@.len() == width,
        {
            let mut line: Vec<String> = Vec::new();
            for col in 0..width
                invariant
                    precision_fits(precision),
                    height == self.spec_height(),
                    width == self.spec_width(),
                    has_shape(self@, height as nat, width as nat),
                    row < height,
                    line@.len() == col,
            {
                let value = &self.rows(row)[col];
                let shown = match precision {
                    Some(digits) => display_fixed(value, digits),
                    None => display(value),
                };
                match shown {
                    Some(text) => line.push(text),
                    None => {
                        return None;
                    },
                }
            }
            cells.push(line);
        }
        Some(cells)
    }

    /// The matrix as text: the cells of a row separated by commas, the rows
    /// by line breaks, each cell as `cell_texts` gives it. It is `None` where
    /// an element fails to show itself, which a matrix without cells cannot.
    pub fn to_text(&self, precision: Option<usize>) -> (text: Option<String>)
        requires
            precision_fits(precision),
        ensures
            text matches Some(whole) ==> exists|cells: Seq<Seq<Seq<char>>>|
                has_shape(cells, self.spec_height(), self.spec_width()) && whole@
                    == #[trigger] joined_rows(cells, cells.len()),
            text is None ==> self.spec_height() > 0 && self.spec_width() > 0,
    {
        match self.cell_texts(precision) {
            Some(cells) => Some(join_cells(&cells)),
            None => None,
        }
    }
}

} // verus!
