use word_finder::search::{found_word, random_chance, random_word_index, word_by_chance};

fn is_clock(s: &str) -> bool {
    let c: Vec<char> = s.chars().collect();
    c.len() == 8
        && c[2] == ':'
        && c[5] == ':'
        && [0, 1, 3, 4, 6, 7].iter().all(|&i| c[i].is_ascii_digit())
        && s[0..2].parse::<u32>().unwrap() <= 23
        && s[3..5].parse::<u32>().unwrap() <= 59
        && s[6..8].parse::<u32>().unwrap() <= 60
}

#[test]
fn random_index_in_range() {
    for _ in 0..1000 {
        assert!(random_word_index(7) < 7);
    }
    assert_eq!(random_word_index(1), 0);
}

#[test]
fn random_index_varies() {
    let picks: std::collections::HashSet<usize> = (0..500).map(|_| random_word_index(5)).collect();
    assert!(picks.len() > 1);
}

#[test]
fn random_chance_in_range() {
    for _ in 0..1000 {
        assert!(random_chance(10) < 10);
    }
    assert_eq!(random_chance(1), 0);
}

#[test]
fn found_word_fields() {
    let w = found_word("10:11:12".to_string(), &"banana".to_string(), 42, 42, 100);
    assert_eq!(w.time_found, "10:11:12");
    assert_eq!(w.word, "banana");
    assert_eq!(w.chance_num_one, "42");
    assert_eq!(w.chance_num_two, "42");
    assert_eq!(w.chance_range, "100");
}

#[test]
fn no_word_when_numbers_differ() {
    let words = vec!["a".to_string(), "b".to_string()];
    assert!(word_by_chance(&words, 1, 3, 4, 10).is_none());
}

#[test]
fn word_when_numbers_agree() {
    let words = vec!["a".to_string(), "b".to_string()];
    let w = word_by_chance(&words, 1, 7, 7, 90).unwrap();
    assert_eq!(w.word, "b");
    assert_eq!(w.chance_num_one, "7");
    assert_eq!(w.chance_num_two, "7");
    assert_eq!(w.chance_range, "90");
    assert!(is_clock(&w.time_found), "time {:?}", w.time_found);
}
