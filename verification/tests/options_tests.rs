use word_finder::controls::{
    increase_decrease_chance, increase_decrease_sleep, key_in_range, process_input_event,
    DONT_EXIT_PROGRAM, EXIT_PROGRAM,
};
use word_finder::options::Options;

fn default_options() -> Options {
    Options::default()
}

#[test]
fn default_values() {
    let o = default_options();
    assert_eq!(o.chance_range, 100);
    assert_eq!(o.word_sleep, 250);
    assert_eq!(o.random_one_sleep, 250);
    assert_eq!(o.random_two_sleep, 250);
}

#[test]
fn all_info_lines() {
    let o = default_options();
    assert_eq!(
        o.get_all_info(),
        vec![
            "Random numbers between: 0 and 100   ",
            "Word search wait time: 250 ms   ",
            "Random number 1 search wait time: 250 ms   ",
            "Random number 2 search wait time: 250 ms    ",
        ]
    );
}

#[test]
fn all_info_after_changes() {
    let o = Options { chance_range: 7, word_sleep: 0, random_one_sleep: 12345, random_two_sleep: 50 };
    assert_eq!(
        o.get_all_info(),
        vec![
            "Random numbers between: 0 and 7   ",
            "Word search wait time: 0 ms   ",
            "Random number 1 search wait time: 12345 ms   ",
            "Random number 2 search wait time: 50 ms    ",
        ]
    );
}

#[test]
fn chance_steps() {
    let mut c: u16 = 100;
    increase_decrease_chance(&mut c, true);
    assert_eq!(c, 90);
    increase_decrease_chance(&mut c, false);
    assert_eq!(c, 100);
    let mut low: u16 = 10;
    increase_decrease_chance(&mut low, true);
    assert_eq!(low, 10);
    let mut odd: u16 = 15;
    increase_decrease_chance(&mut odd, true);
    assert_eq!(odd, 5);
}

#[test]
fn sleep_steps() {
    let mut s: u64 = 250;
    increase_decrease_sleep(&mut s, true);
    assert_eq!(s, 300);
    increase_decrease_sleep(&mut s, false);
    assert_eq!(s, 250);
    let mut low: u64 = 50;
    increase_decrease_sleep(&mut low, false);
    assert_eq!(low, 50);
}

#[test]
fn chance_steps_undo() {
    for c in [10u16, 20, 100, 65520] {
        let mut x = c;
        increase_decrease_chance(&mut x, false);
        increase_decrease_chance(&mut x, true);
        assert_eq!(x, c);
    }
    for c in [20u16, 100, 65530] {
        let mut x = c;
        increase_decrease_chance(&mut x, true);
        increase_decrease_chance(&mut x, false);
        assert_eq!(x, c);
    }
    // at the lowest range, lowering does nothing, so raising afterwards does not undo it
    let mut x: u16 = 10;
    increase_decrease_chance(&mut x, true);
    increase_decrease_chance(&mut x, false);
    assert_eq!(x, 20);
}

#[test]
fn sleep_steps_undo() {
    for s in [50u64, 250, 1000] {
        let mut x = s;
        increase_decrease_sleep(&mut x, true);
        increase_decrease_sleep(&mut x, false);
        assert_eq!(x, s);
    }
    let mut x: u64 = 100;
    increase_decrease_sleep(&mut x, false);
    increase_decrease_sleep(&mut x, true);
    assert_eq!(x, 100);
}

#[test]
fn keys_change_options() {
    let mut o = default_options();
    assert_eq!(process_input_event(&mut o, 'a'), DONT_EXIT_PROGRAM);
    assert_eq!(o.chance_range, 90);
    assert_eq!(process_input_event(&mut o, 's'), DONT_EXIT_PROGRAM);
    assert_eq!(process_input_event(&mut o, 's'), DONT_EXIT_PROGRAM);
    assert_eq!(o.chance_range, 110);
    process_input_event(&mut o, 'w');
    assert_eq!(o.word_sleep, 300);
    process_input_event(&mut o, 'e');
    process_input_event(&mut o, 'e');
    assert_eq!(o.word_sleep, 200);
    process_input_event(&mut o, '1');
    assert_eq!(o.random_one_sleep, 300);
    process_input_event(&mut o, '2');
    process_input_event(&mut o, '2');
    assert_eq!(o.random_one_sleep, 200);
    process_input_event(&mut o, '3');
    assert_eq!(o.random_two_sleep, 300);
    process_input_event(&mut o, '4');
    process_input_event(&mut o, '4');
    assert_eq!(o.random_two_sleep, 200);
    assert_eq!(
        o,
        Options { chance_range: 110, word_sleep: 200, random_one_sleep: 200, random_two_sleep: 200 }
    );
}

#[test]
fn reset_key_restores_defaults() {
    let mut o = Options { chance_range: 30, word_sleep: 50, random_one_sleep: 900, random_two_sleep: 50 };
    assert_eq!(process_input_event(&mut o, 'r'), DONT_EXIT_PROGRAM);
    assert_eq!(o, default_options());
}

#[test]
fn quit_key_exits_and_changes_nothing() {
    let mut o = Options { chance_range: 30, word_sleep: 50, random_one_sleep: 900, random_two_sleep: 50 };
    let before = o;
    assert_eq!(process_input_event(&mut o, 'q'), EXIT_PROGRAM);
    assert_eq!(o, before);
}

#[test]
fn other_keys_change_nothing() {
    let mut o = default_options();
    for k in ['x', 'Q', ' ', '5', 'é'] {
        assert_eq!(process_input_event(&mut o, k), DONT_EXIT_PROGRAM);
        assert_eq!(o, default_options());
    }
}

#[test]
fn lowest_values_stay() {
    let mut o = Options { chance_range: 10, word_sleep: 50, random_one_sleep: 50, random_two_sleep: 50 };
    for k in ['a', 'e', '2', '4'] {
        process_input_event(&mut o, k);
    }
    assert_eq!(o, Options { chance_range: 10, word_sleep: 50, random_one_sleep: 50, random_two_sleep: 50 });
}

#[test]
fn key_range_checks() {
    let o = default_options();
    for k in ['a', 's', 'w', 'e', '1', '2', '3', '4', 'r', 'q', 'z'] {
        assert!(key_in_range(&o, k));
    }
    let top = Options { chance_range: 65530, word_sleep: u64::MAX, random_one_sleep: u64::MAX - 49, random_two_sleep: 40 };
    assert!(!key_in_range(&top, 's'));
    assert!(!key_in_range(&top, 'w'));
    assert!(!key_in_range(&top, '1'));
    assert!(!key_in_range(&top, '4'));
    assert!(key_in_range(&top, 'a'));
    assert!(key_in_range(&top, '3'));
    let small = Options { chance_range: 5, word_sleep: 20, random_one_sleep: 20, random_two_sleep: 20 };
    assert!(!key_in_range(&small, 'a'));
    assert!(!key_in_range(&small, 'e'));
    assert!(!key_in_range(&small, '2'));
}

#[test]
fn keys_keep_options_well_formed() {
    // from the defaults, any sequence of keys keeps the range a multiple of 10 and at least 10,
    // and every wait a multiple of 50 and at least 50
    let keys = ['a', 'a', 'a', 'a', 'a', 'a', 'a', 'a', 'a', 'a', 'a', 's', 'e', 'e', 'e', 'e', 'e', 'e', 'w', '2', '2', '2', '2', '2', '1', '4', '3', 'r', 'a'];
    let mut o = default_options();
    for k in keys {
        assert!(key_in_range(&o, k));
        process_input_event(&mut o, k);
        assert!(o.chance_range >= 10 && o.chance_range % 10 == 0);
        for s in [o.word_sleep, o.random_one_sleep, o.random_two_sleep] {
            assert!(s >= 50 && s % 50 == 0);
        }
    }
}
