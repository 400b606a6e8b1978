//! A word that the search found, and its line in the table of found words.

use vstd::prelude::*;
use crate::text::{pad_right, padded};

verus! {

/// The width of the column of the time at which a word was found.
pub const TIME_WIDTH: usize = 10;
/// The width of the column of the word.
pub const WORD_WIDTH: usize = 25;
/// The width of each of the two columns of the random numbers.
pub const NUMBER_WIDTH: usize = 10;
/// The width of the column of the range of the random numbers.
pub const RANGE_WIDTH: usize = 20;

/// A word that the search found, with the time it was found at, the two random numbers that
/// matched, and the range they were drawn from.
#[derive(Clone, Debug, PartialEq, Eq)]
pub struct Word {
    pub time_found: String,
    pub word: String,
    pub chance_num_one: String,
    pub chance_num_two: String,
    pub chance_range: String,
}

/// A line of the table: each cell padded to the width of its column.
pub open spec fn table_row(
    time: Seq<char>,
    word: Seq<char>,
    one: Seq<char>,
    two: Seq<char>,
    range: Seq<char>,
) -> Seq<char> {
    pad_right(time, TIME_WIDTH as nat) + pad_right(word, WORD_WIDTH as nat) + pad_right(
        one,
        NUMBER_WIDTH as nat,
    ) + pad_right(two, NUMBER_WIDTH as nat) + pad_right(range, RANGE_WIDTH as nat)
}

/// The header line of the table.
pub open spec fn header_text() -> Seq<char> {
    table_row("Time"@, "Word"@, "Random 1"@, "Random 2"@, "Chance range"@)
}

/// The line of the table that shows `w`.
pub open spec fn word_line(w: Word) -> Seq<char> {
    table_row(w.time_found@, w.word@, w.chance_num_one@, w.chance_num_two@, w.chance_range@)
}

fn table_line(time: &str, word: &str, one: &str, two: &str, range: &str) -> (res: String)
    ensures
        res@ == table_row(time@, word@, one@, two@, range@),
{
    let mut line = padded(time, TIME_WIDTH);
    line.append(padded(word, WORD_WIDTH).as_str());
    line.append(padded(one, NUMBER_WIDTH).as_str());
    line.append(padded(two, NUMBER_WIDTH).as_str());
    line.append(padded(range, RANGE_WIDTH).as_str());
    line
}

impl Word {
    /// The header line of the table of found words.
    pub fn create_header() -> (res: String)
        ensures
            res@ == header_text(),
    {
        table_line("Time", "Word", "Random 1", "Random 2", "Chance range")
    }

    /// The line of the table of found words that shows this word.
    pub fn to_string(&self) -> (res: String)
        ensures
            res@ == word_line(*self),
    {
        table_line(
            self.time_found.as_str(),
            self.word.as_str(),
            self.chance_num_one.as_str(),
            self.chance_num_two.as_str(),
            self.chance_range.as_str(),
        )
    }
}

/// Each cell of `w` fits the width of its column.
pub open spec fn fits_columns(w: Word) -> bool {
    &&& w.time_found@.len() <= TIME_WIDTH
    &&& w.word@.len() <= WORD_WIDTH
    &&& w.chance_num_one@.len() <= NUMBER_WIDTH
    &&& w.chance_num_two@.len() <= NUMBER_WIDTH
    &&& w.chance_range@.len() <= RANGE_WIDTH
}

/// A line of the table whose cells fit their columns has every cell where the header has the
/// title of its column: the columns start at characters 0, 10, 35, 45 and 55, and the line is
/// as long as the header, 75 characters.
pub proof fn lemma_word_line_under_header(w: Word)
    requires
        fits_columns(w),
    ensures
        word_line(w).len() == 75,
        header_text().len() == 75,
        word_line(w).subrange(0, 10) == pad_right(w.time_found@, TIME_WIDTH as nat),
        word_line(w).subrange(10, 35) == pad_right(w.word@, WORD_WIDTH as nat),
        word_line(w).subrange(35, 45) == pad_right(w.chance_num_one@, NUMBER_WIDTH as nat),
        word_line(w).subrange(45, 55) == pad_right(w.chance_num_two@, NUMBER_WIDTH as nat),
        word_line(w).subrange(55, 75) == pad_right(w.chance_range@, RANGE_WIDTH as nat),
        header_text().subrange(0, 10) == pad_right("Time"@, TIME_WIDTH as nat),
        header_text().subrange(10, 35) == pad_right("Word"@, WORD_WIDTH as nat),
        header_text().subrange(35, 45) == pad_right("Random 1"@, NUMBER_WIDTH as nat),
        header_text().subrange(45, 55) == pad_right("Random 2"@, NUMBER_WIDTH as nat),
        header_text().subrange(55, 75) == pad_right("Chance range"@, RANGE_WIDTH as nat),
{
    reveal_strlit("Time");
    reveal_strlit("Word");
    reveal_strlit("Random 1");
    reveal_strlit("Random 2");
    reveal_strlit("Chance range");
    let a = pad_right(w.time_found@, 10);
    let b = pad_right(w.word@, 25);
    let c = pad_right(w.chance_num_one@, 10);
    let d = pad_right(w.chance_num_two@, 10);
    let e = pad_right(w.chance_range@, 20);
    assert(word_line(w) == a + b + c + d + e);
    assert((a + b + c + d + e).subrange(0, 10) =~= a);
    assert((a + b + c + d + e).subrange(10, 35) =~= b);
    assert((a + b + c + d + e).subrange(35, 45) =~= c);
    assert((a + b + c + d + e).subrange(45, 55) =~= d);
    assert((a + b + c + d + e).subrange(55, 75) =~= e);
    let ha = pad_right("Time"@, 10);
    let hb = pad_right("Word"@, 25);
    let hc = pad_right("Random 1"@, 10);
    let hd = pad_right("Random 2"@, 10);
    let he = pad_right("Chance range"@, 20);
    assert(header_text() == ha + hb + hc + hd + he);
    assert((ha + hb + hc + hd + he).subrange(0, 10) =~= ha);
    assert((ha + hb + hc + hd + he).subrange(10, 35) =~= hb);
    assert((ha + hb + hc + hd + he).subrange(35, 45) =~= hc);
    assert((ha + hb + hc + hd + he).subrange(45, 55) =~= hd);
    assert((ha + hb + hc + hd + he).subrange(55, 75) =~= he);
}

} // verus!
