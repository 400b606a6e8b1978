//! The settings that the user changes while the search runs, and the text that shows them.

use vstd::prelude::*;
use crate::text::{decimal, decimal_string, is_digits, lemma_decimal_round_trip, shows_value, string_views};

verus! {

/// The wait between two search steps that a fresh set of options starts with, in milliseconds.
pub const DEFAULT_SLEEP_DURATION: u64 = 250;

/// The upper bound (exclusive) of the random numbers that a fresh set of options starts with.
pub const DEFAULT_CHANGE_RANGE: u16 = 100;

/// The search settings. The three waits are in milliseconds.
#[derive(Clone, Copy, Debug, PartialEq, Eq, Structural)]
pub struct Options {
    /// The random numbers are drawn from `0` up to, but not including, this bound.
    pub chance_range: u16,
    /// The wait before a word is picked.
    pub word_sleep: u64,
    /// The wait before the first random number is drawn.
    pub random_one_sleep: u64,
    /// The wait before the second random number is drawn.
    pub random_two_sleep: u64,
}

/// The options that the search starts with.
pub open spec fn default_options() -> Options {
    Options {
        chance_range: DEFAULT_CHANGE_RANGE,
        word_sleep: DEFAULT_SLEEP_DURATION,
        random_one_sleep: DEFAULT_SLEEP_DURATION,
        random_two_sleep: DEFAULT_SLEEP_DURATION,
    }
}

impl Default for Options {
    fn default() -> (res: Self)
        ensures
            res == default_options(),
    {
        Options {
            chance_range: DEFAULT_CHANGE_RANGE,
            word_sleep: DEFAULT_SLEEP_DURATION,
            random_one_sleep: DEFAULT_SLEEP_DURATION,
            random_two_sleep: DEFAULT_SLEEP_DURATION,
        }
    }
}

/// The line that shows the range of the random numbers. Every info line ends in spaces, so
/// that it overwrites a longer line printed at the same place before.
pub open spec fn range_info(o: Options) -> Seq<char> {
    "Random numbers between: 0 and "@ + decimal(o.chance_range as nat) + "   "@
}

/// The line that shows the wait before a word is picked.
pub open spec fn word_info(o: Options) -> Seq<char> {
    "Word search wait time: "@ + decimal(o.word_sleep as nat) + " ms   "@
}

/// The line that shows the wait before the first random number.
pub open spec fn random_one_info(o: Options) -> Seq<char> {
    "Random number 1 search wait time: "@ + decimal(o.random_one_sleep as nat) + " ms   "@
}

/// The line that shows the wait before the second random number.
pub open spec fn random_two_info(o: Options) -> Seq<char> {
    "Random number 2 search wait time: "@ + decimal(o.random_two_sleep as nat) + " ms    "@
}

/// All info lines, in the order in which they are shown.
pub open spec fn all_info(o: Options) -> Seq<Seq<char>> {
    seq![range_info(o), word_info(o), random_one_info(o), random_two_info(o)]
}

impl Options {
    fn info_random_number_range(&self) -> (res: String)
        ensures
            res@ == range_info(*self),
    {
        let mut s = String::from_str("Random numbers between: 0 and ");
        s.append(decimal_string(self.chance_range as u64).as_str());
        s.append("   ");
        s
    }

    fn info_word(&self) -> (res: String)
        ensures
            res@ == word_info(*self),
    {
        let mut s = String::from_str("Word search wait time: ");
        s.append(decimal_string(self.word_sleep).as_str());
        s.append(" ms   ");
        s
    }

    fn info_random_number_one(&self) -> (res: String)
        ensures
            res@ == random_one_info(*self),
    {
        let mut s = String::from_str("Random number 1 search wait time: ");
        s.append(decimal_string(self.random_one_sleep).as_str());
        s.append(" ms   ");
        s
    }

    fn info_random_number_two(&self) -> (res: String)
        ensures
            res@ == random_two_info(*self),
    {
        let mut s = String::from_str("Random number 2 search wait time: ");
        s.append(decimal_string(self.random_two_sleep).as_str());
        s.append(" ms    ");
        s
    }

    /// The info lines of these options, in the order in which they are shown.
    pub fn get_all_info(&self) -> (res: Vec<String>)
        ensures
            string_views(res@) == all_info(*self),
    {
        let mut info: Vec<String> = Vec::new();
        info.push(self.info_random_number_range());
        info.push(self.info_word());
        info.push(self.info_random_number_one());
        info.push(self.info_random_number_two());
        assert(string_views(info@) =~= all_info(*self));
        info
    }
}


/// Each info line names its setting and shows the current value of that setting: between the
/// fixed text before and after it stand only decimal digits, and they read back to the value
/// held in the options, for every value.
pub proof fn lemma_info_lines_show_values(o: Options)
    ensures
        all_info(o).len() == 4,
        shows_value(all_info(o)[0], "Random numbers between: 0 and "@, "   "@, o.chance_range as int),
        shows_value(all_info(o)[1], "Word search wait time: "@, " ms   "@, o.word_sleep as int),
        shows_value(
            all_info(o)[2],
            "Random number 1 search wait time: "@,
            " ms   "@,
            o.random_one_sleep as int,
        ),
        shows_value(
            all_info(o)[3],
            "Random number 2 search wait time: "@,
            " ms    "@,
            o.random_two_sleep as int,
        ),
{
    lemma_decimal_round_trip(o.chance_range as nat);
    lemma_decimal_round_trip(o.word_sleep as nat);
    lemma_decimal_round_trip(o.random_one_sleep as nat);
    lemma_decimal_round_trip(o.random_two_sleep as nat);
    assert(is_digits(decimal(o.chance_range as nat)));
    assert(is_digits(decimal(o.word_sleep as nat)));
    assert(is_digits(decimal(o.random_one_sleep as nat)));
    assert(is_digits(decimal(o.random_two_sleep as nat)));
}

} // verus!
