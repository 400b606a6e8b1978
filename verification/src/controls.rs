//! What a key press does to the options.

use vstd::prelude::*;
use crate::options::{default_options, Options};

verus! {

/// Makes a match more likely: lowers the range of the random numbers.
pub const INCREASE_CHANCE: char = 'a';
/// Makes a match less likely: raises the range of the random numbers.
pub const DECREASE_CHANCE: char = 's';
/// Lengthens the wait before a word is picked.
pub const INCREASE_WORD_SLEEP: char = 'w';
/// Shortens the wait before a word is picked.
pub const DECREASE_WORD_SLEEP: char = 'e';
/// Lengthens the wait before the first random number.
pub const INCREASE_RANDOM_ONE_SLEEP: char = '1';
/// Shortens the wait before the first random number.
pub const DECREASE_RANDOM_ONE_SLEEP: char = '2';
/// Lengthens the wait before the second random number.
pub const INCREASE_RANDOM_TWO_SLEEP: char = '3';
/// Shortens the wait before the second random number.
pub const DECREASE_RANDOM_TWO_SLEEP: char = '4';
/// Puts all options back to their defaults.
pub const RESET_OPTIONS: char = 'r';
/// Ends the program.
pub const QUIT: char = 'q';

/// What `process_input_event` answers when the program is to end.
pub const EXIT_PROGRAM: bool = true;
/// What `process_input_event` answers when the program goes on.
pub const DONT_EXIT_PROGRAM: bool = false;

/// The smallest range of the random numbers that a key press lowers it to.
pub const LOWEST_RANGE: u16 = 10;
/// How much one key press changes the range of the random numbers.
pub const RANGE_STEPS: u16 = 10;
/// The shortest wait, in milliseconds, that a key press shortens a wait to.
pub const LOWEST_SLEEP: u64 = 50;
/// How much one key press changes a wait, in milliseconds.
pub const SLEEP_STEPS: u64 = 50;

/// The range after one step: `increase_chance` lowers it by a step unless it is at the lowest
/// range already; otherwise it goes up by a step.
pub open spec fn next_chance(chance: u16, increase_chance: bool) -> u16 {
    if increase_chance {
        if chance != LOWEST_RANGE {
            (chance - RANGE_STEPS) as u16
        } else {
            chance
        }
    } else {
        (chance + RANGE_STEPS) as u16
    }
}

/// The step on the range stays within `u16`.
pub open spec fn chance_step_fits(chance: u16, increase_chance: bool) -> bool {
    if increase_chance {
        chance >= LOWEST_RANGE
    } else {
        chance + RANGE_STEPS <= u16::MAX
    }
}

/// A wait after one step: `increase_sleep` lengthens it by a step; otherwise it is shortened
/// by a step unless it is at the shortest wait already.
pub open spec fn next_sleep(sleep_millis: u64, increase_sleep: bool) -> u64 {
    if increase_sleep {
        (sleep_millis + SLEEP_STEPS) as u64
    } else if sleep_millis != LOWEST_SLEEP {
        (sleep_millis - SLEEP_STEPS) as u64
    } else {
        sleep_millis
    }
}

/// The step on a wait stays within `u64`.
pub open spec fn sleep_step_fits(sleep_millis: u64, increase_sleep: bool) -> bool {
    if increase_sleep {
        sleep_millis + SLEEP_STEPS <= u64::MAX
    } else {
        sleep_millis >= LOWEST_SLEEP
    }
}

/// Changes the range of the random numbers by one step.
pub fn increase_decrease_chance(chance: &mut u16, increase_chance: bool)
    requires
        chance_step_fits(*old(chance), increase_chance),
    ensures
        *final(chance) == next_chance(*old(chance), increase_chance),
{
    if increase_chance {
        if *chance != LOWEST_RANGE {
            *chance -= RANGE_STEPS;
        }
    } else {
        *chance += RANGE_STEPS;
    }
}

/// Changes a wait, in milliseconds, by one step.
pub fn increase_decrease_sleep(sleep_time: &mut u64, increase_sleep: bool)
    requires
        sleep_step_fits(*old(sleep_time), increase_sleep),
    ensures
        *final(sleep_time) == next_sleep(*old(sleep_time), increase_sleep),
{
    let mut sleep_time_millis: u64 = *sleep_time;
    if increase_sleep {
        sleep_time_millis += SLEEP_STEPS;
        *sleep_time = sleep_time_millis;
    } else {
        if sleep_time_millis != LOWEST_SLEEP {
            sleep_time_millis -= SLEEP_STEPS;
            *sleep_time = sleep_time_millis;
        }
    }
}

/// The options after the key `key` was pressed; keys without a meaning change nothing.
pub open spec fn options_after_key(o: Options, key: char) -> Options {
    if key == INCREASE_CHANCE {
        Options { chance_range: next_chance(o.chance_range, true), ..o }
    } else if key == DECREASE_CHANCE {
        Options { chance_range: next_chance(o.chance_range, false), ..o }
    } else if key == INCREASE_WORD_SLEEP {
        Options { word_sleep: next_sleep(o.word_sleep, true), ..o }
    } else if key == DECREASE_WORD_SLEEP {
        Options { word_sleep: next_sleep(o.word_sleep, false), ..o }
    } else if key == INCREASE_RANDOM_ONE_SLEEP {
        Options { random_one_sleep: next_sleep(o.random_one_sleep, true), ..o }
    } else if key == DECREASE_RANDOM_ONE_SLEEP {
        Options { random_one_sleep: next_sleep(o.random_one_sleep, false), ..o }
    } else if key == INCREASE_RANDOM_TWO_SLEEP {
        Options { random_two_sleep: next_sleep(o.random_two_sleep, true), ..o }
    } else if key == DECREASE_RANDOM_TWO_SLEEP {
        Options { random_two_sleep: next_sleep(o.random_two_sleep, false), ..o }
    } else if key == RESET_OPTIONS {
        default_options()
    } else {
        o
    }
}

/// The change that the key `key` makes to `o` stays within the integer types.
pub open spec fn key_fits(o: Options, key: char) -> bool {
    if key == INCREASE_CHANCE {
        chance_step_fits(o.chance_range, true)
    } else if key == DECREASE_CHANCE {
        chance_step_fits(o.chance_range, false)
    } else if key == INCREASE_WORD_SLEEP {
        sleep_step_fits(o.word_sleep, true)
    } else if key == DECREASE_WORD_SLEEP {
        sleep_step_fits(o.word_sleep, false)
    } else if key == INCREASE_RANDOM_ONE_SLEEP {
        sleep_step_fits(o.random_one_sleep, true)
    } else if key == DECREASE_RANDOM_ONE_SLEEP {
        sleep_step_fits(o.random_one_sleep, false)
    } else if key == INCREASE_RANDOM_TWO_SLEEP {
        sleep_step_fits(o.random_two_sleep, true)
    } else if key == DECREASE_RANDOM_TWO_SLEEP {
        sleep_step_fits(o.random_two_sleep, false)
    } else {
        true
    }
}

/// Whether the key `key` can be applied to `options` without leaving the integer types.
pub fn key_in_range(options: &Options, key: char) -> (res: bool)
    ensures
        res == key_fits(*options, key),
{
    if key == INCREASE_CHANCE {
        options.chance_range >= LOWEST_RANGE
    } else if key == DECREASE_CHANCE {
        options.chance_range <= u16::MAX - RANGE_STEPS
    } else if key == INCREASE_WORD_SLEEP {
        options.word_sleep <= u64::MAX - SLEEP_STEPS
    } else if key == DECREASE_WORD_SLEEP {
        options.word_sleep >= LOWEST_SLEEP
    } else if key == INCREASE_RANDOM_ONE_SLEEP {
        options.random_one_sleep <= u64::MAX - SLEEP_STEPS
    } else if key == DECREASE_RANDOM_ONE_SLEEP {
        options.random_one_sleep >= LOWEST_SLEEP
    } else if key == INCREASE_RANDOM_TWO_SLEEP {
        options.random_two_sleep <= u64::MAX - SLEEP_STEPS
    } else if key == DECREASE_RANDOM_TWO_SLEEP {
        options.random_two_sleep >= LOWEST_SLEEP
    } else {
        true
    }
}

/// Applies a key press to the options. The answer is `EXIT_PROGRAM` for the quit key, and
/// `DONT_EXIT_PROGRAM` for every other key.
pub fn process_input_event(options: &mut Options, key_code: char) -> (res: bool)
    requires
        key_fits(*old(options), key_code),
    ensures
        res == (key_code == QUIT),
        *final(options) == options_after_key(*old(options), key_code),
{
    if key_code == QUIT {
        return EXIT_PROGRAM;
    } else if key_code == INCREASE_CHANCE {
        increase_decrease_chance(&mut options.chance_range, true);
    } else if key_code == DECREASE_CHANCE {
        increase_decrease_chance(&mut options.chance_range, false);
    } else if key_code == INCREASE_WORD_SLEEP {
        increase_decrease_sleep(&mut options.word_sleep, true);
    } else if key_code == DECREASE_WORD_SLEEP {
        increase_decrease_sleep(&mut options.word_sleep, false);
    } else if key_code == INCREASE_RANDOM_ONE_SLEEP {
        increase_decrease_sleep(&mut options.random_one_sleep, true);
    } else if key_code == DECREASE_RANDOM_ONE_SLEEP {
        increase_decrease_sleep(&mut options.random_one_sleep, false);
    } else if key_code == INCREASE_RANDOM_TWO_SLEEP {
        increase_decrease_sleep(&mut options.random_two_sleep, true);
    } else if key_code == DECREASE_RANDOM_TWO_SLEEP {
        increase_decrease_sleep(&mut options.random_two_sleep, false);
    } else if key_code == RESET_OPTIONS {
        *options = Options::default();
    }
    DONT_EXIT_PROGRAM
}


/// Options that the key presses can reach from the defaults: the range is a multiple of the
/// range step and at least the lowest range, and each wait is a multiple of the wait step and at
/// least the shortest wait.
pub open spec fn well_formed(o: Options) -> bool {
    &&& o.chance_range >= LOWEST_RANGE && o.chance_range % RANGE_STEPS == 0
    &&& o.word_sleep >= LOWEST_SLEEP && o.word_sleep % SLEEP_STEPS == 0
    &&& o.random_one_sleep >= LOWEST_SLEEP && o.random_one_sleep % SLEEP_STEPS == 0
    &&& o.random_two_sleep >= LOWEST_SLEEP && o.random_two_sleep % SLEEP_STEPS == 0
}

/// The default options are well formed.
pub proof fn lemma_default_well_formed()
    ensures
        well_formed(default_options()),
{
}

/// Every key press keeps the options well formed.
pub proof fn lemma_key_keeps_well_formed(o: Options, key: char)
    requires
        well_formed(o),
        key_fits(o, key),
    ensures
        well_formed(options_after_key(o, key)),
{
}

/// On well-formed options, the keys that lower the range or shorten a wait can always be
/// applied: they stop at the lowest range and the shortest wait.
pub proof fn lemma_lowering_keys_fit(o: Options, key: char)
    requires
        well_formed(o),
        key == INCREASE_CHANCE || key == DECREASE_WORD_SLEEP || key == DECREASE_RANDOM_ONE_SLEEP
            || key == DECREASE_RANDOM_TWO_SLEEP,
    ensures
        key_fits(o, key),
{
}

/// A step on the range is undone by the opposite step: raising and then lowering gives the
/// range back (unless it was 0), and lowering and then raising does too when the range was above
/// the lowest range.
pub proof fn lemma_chance_steps_undo(chance: u16)
    ensures
        chance_step_fits(chance, false) && chance != 0 ==> next_chance(
            next_chance(chance, false),
            true,
        ) == chance,
        chance > LOWEST_RANGE ==> chance_step_fits(chance, true) && next_chance(
            next_chance(chance, true),
            false,
        ) == chance,
{
}

/// A step on a wait is undone by the opposite step: lengthening and then shortening gives the
/// wait back (unless it was 0), and shortening and then lengthening does too when the wait was
/// above the shortest wait.
pub proof fn lemma_sleep_steps_undo(sleep_millis: u64)
    ensures
        sleep_step_fits(sleep_millis, true) && sleep_millis != 0 ==> next_sleep(
            next_sleep(sleep_millis, true),
            false,
        ) == sleep_millis,
        sleep_millis > LOWEST_SLEEP ==> sleep_step_fits(sleep_millis, false) && next_sleep(
            next_sleep(sleep_millis, false),
            true,
        ) == sleep_millis,
{
}

/// The reset key gives the default options whatever they were, and the quit key leaves them
/// as they are.
pub proof fn lemma_reset_and_quit(o: Options)
    ensures
        options_after_key(o, RESET_OPTIONS) == default_options(),
        options_after_key(o, QUIT) == o,
{
}

} // verus!
