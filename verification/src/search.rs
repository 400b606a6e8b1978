//! One round of the search: pick a word at random, draw two random numbers, and keep the word
//! when they agree.

use vstd::prelude::*;
use rand::Rng;
use crate::found_word::Word;
use crate::text::{decimal, decimal_string};

verus! {

/// The number written by the two decimal digits at `i` and `i + 1` of `s`.
pub open spec fn two_digits(s: Seq<char>, i: int) -> int {
    (s[i] as int - 48) * 10 + (s[i + 1] as int - 48)
}

/// A time of day as `HH:MM:SS`: two digits each, separated by colons, with the hour from 00
/// to 23, the minute from 00 to 59 and the second from 00 to 60 (60 for a leap second).
pub open spec fn is_clock_text(s: Seq<char>) -> bool {
    &&& s.len() == 8
    &&& s[2] == ':' && s[5] == ':'
    &&& forall|i: int|
        0 <= i < 8 && i != 2 && i != 5 ==> '0' <= #[trigger] s[i] && s[i] <= '9'
    &&& two_digits(s, 0) <= 23
    &&& two_digits(s, 3) <= 59
    &&& two_digits(s, 6) <= 60
}

/// `rand::thread_rng().gen_range(low, high)`: a number drawn at random from `low` up to, not
/// including, `high`. rand panics when `low >= high`, so that is left out. Which number comes
/// out is chance, so nothing more is said of it.
#[verifier::external_body]
fn gen_range(low: u64, high: u64) -> (r: u64)
    requires
        low < high,
    ensures
        low <= r < high,
{
    rand::thread_rng().gen_range(low, high)
}

/// `chrono::Local::now().format("%H:%M:%S").to_string()`: the local time of day. chrono's
/// `%H`, `%M` and `%S` each give a number zero-padded to two digits, the hour 00 to 23, the
/// minute 00 to 59 and the second 00 to 60; which time it is depends on the clock, so nothing
/// more is said of it.
#[verifier::external_body]
fn local_time_text() -> (s: String)
    ensures
        is_clock_text(s@),
{
    chrono::Local::now().format("%H:%M:%S").to_string()
}

/// The index of a word picked at random from a list of `word_count` words.
pub fn random_word_index(word_count: usize) -> (r: usize)
    requires
        word_count > 0,
    ensures
        r < word_count,
{
    let r = gen_range(0, word_count as u64);
    r as usize
}

/// A number drawn at random from `0` up to, not including, `chance_range`.
pub fn random_chance(chance_range: u16) -> (r: u16)
    requires
        chance_range > 0,
    ensures
        r < chance_range,
{
    let r = gen_range(0, chance_range as u64);
    r as u16
}

/// The record of a found word: the time as given, the word, and the two numbers and the range
/// in decimal.
pub fn found_word(time_found: String, word: &String, first_chance: u16, second_chance: u16, chance_range: u16) -> (res: Word)
    ensures
        res.time_found@ == time_found@,
        res.word@ == word@,
        res.chance_num_one@ == decimal(first_chance as nat),
        res.chance_num_two@ == decimal(second_chance as nat),
        res.chance_range@ == decimal(chance_range as nat),
{
    Word {
        time_found,
        word: word.clone(),
        chance_num_one: decimal_string(first_chance as u64),
        chance_num_two: decimal_string(second_chance as u64),
        chance_range: decimal_string(chance_range as u64),
    }
}

/// The end of a search round: when the two random numbers agree, the word at `word_on_line`
/// is found, stamped with the local time of day; otherwise nothing is found.
pub fn word_by_chance(
    word_vector: &Vec<String>,
    word_on_line: usize,
    first_chance: u16,
    second_chance: u16,
    chance_range: u16,
) -> (res: Option<Word>)
    requires
        word_on_line < word_vector.len(),
    ensures
        res is Some <==> first_chance == second_chance,
        res matches Some(w) ==> {
            &&& is_clock_text(w.time_found@)
            &&& w.word@ == word_vector@[word_on_line as int]@
            &&& w.chance_num_one@ == decimal(first_chance as nat)
            &&& w.chance_num_two@ == decimal(second_chance as nat)
            &&& w.chance_range@ == decimal(chance_range as nat)
        },
{
    if first_chance == second_chance {
        let time_found = local_time_text();
        Some(found_word(time_found, &word_vector[word_on_line], first_chance, second_chance, chance_range))
    } else {
        None
    }
}

} // verus!
