use word_finder::found_word::Word;
use word_finder::options::Options;
use word_finder::screen::{
    creat_all_windows, create_found_words_window, create_info_list, create_options_array,
    create_options_window, found_words_window, info_window, options_window, print_found_words,
};
use word_finder::window::{CursorPosition, Draw, Window};

fn glyph(column: u16, row: u16, character: char) -> Draw {
    Draw::Glyph { column, row, character }
}

fn text(column: u16, row: u16, text: &str) -> Draw {
    Draw::Text { column, row, text: text.to_string() }
}

fn word(n: usize) -> Word {
    Word {
        time_found: "12:00:00".to_string(),
        word: format!("word{}", n),
        chance_num_one: "3".to_string(),
        chance_num_two: "3".to_string(),
        chance_range: "100".to_string(),
    }
}

#[test]
fn header_text() {
    assert_eq!(
        Word::create_header(),
        "Time      Word                     Random 1  Random 2  Chance range        "
    );
    assert_eq!(Word::create_header(), format!("{:10}{:25}{:10}{:10}{:20}", "Time", "Word", "Random 1", "Random 2", "Chance range"));
}

#[test]
fn word_line() {
    let w = Word {
        time_found: "09:41:07".to_string(),
        word: "apple".to_string(),
        chance_num_one: "42".to_string(),
        chance_num_two: "42".to_string(),
        chance_range: "100".to_string(),
    };
    let line = w.to_string();
    assert_eq!(line, format!("{:10}{:25}{:10}{:10}{:20}", "09:41:07", "apple", "42", "42", "100"));
    assert_eq!(line.chars().count(), 75);
    assert_eq!(line.chars().count(), Word::create_header().chars().count());
    assert_eq!(&line[10..15], "apple");
    assert_eq!(&Word::create_header()[10..14], "Word");
}

#[test]
fn word_line_with_long_word() {
    let w = Word {
        time_found: "09:41:07".to_string(),
        word: "pneumonoultramicroscopicsilicovolcanoconiosis".to_string(),
        chance_num_one: "1".to_string(),
        chance_num_two: "1".to_string(),
        chance_range: "10".to_string(),
    };
    assert_eq!(
        w.to_string(),
        format!("{:10}{:25}{:10}{:10}{:20}", "09:41:07", "pneumonoultramicroscopicsilicovolcanoconiosis", "1", "1", "10")
    );
}

#[test]
fn small_window_frame() {
    let w = Window { begin_row: 0, begin_column: 0, end_row: 2, end_column: 3 };
    assert_eq!(
        w.create_window(),
        vec![
            glyph(0, 0, '╔'),
            glyph(0, 2, '╚'),
            glyph(3, 0, '╗'),
            glyph(3, 2, '╝'),
            glyph(0, 1, '║'),
            glyph(3, 1, '║'),
            glyph(1, 0, '═'),
            glyph(2, 0, '═'),
            glyph(1, 2, '═'),
            glyph(2, 2, '═'),
        ]
    );
}

#[test]
fn frame_covers_border_once() {
    let w = Window { begin_row: 3, begin_column: 5, end_row: 9, end_column: 20 };
    let cells = w.create_window();
    let mut seen = std::collections::HashSet::new();
    for c in &cells {
        match c {
            Draw::Glyph { column, row, character } => {
                let on_side = *column == 5 || *column == 20;
                let on_top = *row == 3 || *row == 9;
                assert!(on_side || on_top);
                assert!((3..=9).contains(row) && (5..=20).contains(column));
                let expected = match (*column, *row) {
                    (5, 3) => '╔',
                    (5, 9) => '╚',
                    (20, 3) => '╗',
                    (20, 9) => '╝',
                    _ if on_side => '║',
                    _ => '═',
                };
                assert_eq!(*character, expected);
                assert!(seen.insert((*column, *row)));
            }
            Draw::Text { .. } => panic!("a frame holds no text"),
        }
    }
    // the whole perimeter: 2 * 16 + 2 * 7 - 4
    assert_eq!(seen.len(), 42);
}

#[test]
fn flat_window_draws_only_corners() {
    let w = Window { begin_row: 4, begin_column: 4, end_row: 4, end_column: 4 };
    assert_eq!(w.create_window().len(), 4);
}

#[test]
fn writing_position() {
    let w = Window { begin_row: 31, begin_column: 0, end_row: 50, end_column: 75 };
    assert_eq!(w.get_writing_positon(), CursorPosition { column: 2, row: 33 });
}

#[test]
fn window_places() {
    assert_eq!(options_window(), Window { begin_row: 0, begin_column: 0, end_row: 30, end_column: 75 });
    assert_eq!(found_words_window(), Window { begin_row: 0, begin_column: 76, end_row: 50, end_column: 185 });
    assert_eq!(info_window(), Window { begin_row: 31, begin_column: 0, end_row: 50, end_column: 75 });
}

#[test]
fn options_array() {
    assert_eq!(
        create_options_array(),
        vec![
            "a: increase chance to find word",
            "s: decrease chance to find word",
            "w: increase time to search for word",
            "e: decrease time to search for word",
            "1: increase time to search for random num 1",
            "2: decrease time to search for random num 1",
            "3: increase time to search for random num 2",
            "4: decrease time to search for random num 2",
            "r: reset options to default",
            "q: quit the program",
        ]
    );
}

#[test]
fn options_window_texts() {
    let draws = create_options_window(370103);
    let frame = options_window().create_window();
    assert_eq!(frame.len(), 210);
    assert_eq!(&draws[..210], &frame[..]);
    let texts: Vec<Draw> = draws[210..].to_vec();
    let options = create_options_array();
    let mut expected = vec![
        text(2, 2, "Loaded 370103 English words"),
        text(2, 4, "Use the characters below to change speed and chance to find words"),
        text(2, 5, "Do not hold the keys down for too long! (CrossTerm spams key events)"),
    ];
    let rows = [7u16, 8, 10, 11, 13, 14, 16, 17, 19, 20];
    for (i, o) in options.iter().enumerate() {
        expected.push(text(2, rows[i], o));
    }
    assert_eq!(texts, expected);
}

#[test]
fn found_words_window_header() {
    let draws = create_found_words_window();
    assert_eq!(draws.len(), 318 + 1);
    assert_eq!(draws[318], Draw::Text { column: 78, row: 2, text: Word::create_header() });
}

#[test]
fn info_list() {
    let o = Options::default();
    let info = o.get_all_info();
    assert_eq!(
        create_info_list(&o),
        vec![
            Draw::Text { column: 2, row: 35, text: info[0].clone() },
            Draw::Text { column: 2, row: 37, text: info[1].clone() },
            Draw::Text { column: 2, row: 39, text: info[2].clone() },
            Draw::Text { column: 2, row: 41, text: info[3].clone() },
        ]
    );
}

#[test]
fn found_words_few() {
    let words = vec![word(0), word(1), word(2)];
    assert_eq!(
        print_found_words(&words),
        vec![
            Draw::Text { column: 78, row: 4, text: word(2).to_string() },
            Draw::Text { column: 78, row: 5, text: word(1).to_string() },
            Draw::Text { column: 78, row: 6, text: word(0).to_string() },
        ]
    );
}

#[test]
fn found_words_none() {
    assert_eq!(print_found_words(&Vec::new()), Vec::<Draw>::new());
}

#[test]
fn found_words_at_most_45_newest_first() {
    let words: Vec<Word> = (0..50).map(word).collect();
    let draws = print_found_words(&words);
    assert_eq!(draws.len(), 45);
    assert_eq!(draws[0], Draw::Text { column: 78, row: 4, text: word(49).to_string() });
    assert_eq!(draws[44], Draw::Text { column: 78, row: 48, text: word(5).to_string() });
}

#[test]
fn whole_screen() {
    let o = Options::default();
    let words: Vec<Word> = (0..3).map(word).collect();
    let draws = creat_all_windows(12, &o, &words);
    let mut expected = create_options_window(12);
    expected.extend(create_found_words_window());
    expected.extend(info_window().create_window());
    expected.extend(create_info_list(&o));
    expected.extend(print_found_words(&words));
    assert_eq!(draws, expected);
    assert_eq!(draws.len(), 223 + 319 + 188 + 4 + 3);
}

#[test]
fn screen_texts_inside_windows() {
    let o = Options::default();
    let words: Vec<Word> = (0..60).map(word).collect();
    for d in creat_all_windows(5, &o, &words) {
        if let Draw::Text { column, row, .. } = d {
            let inside = |w: Window| w.begin_row < row && row < w.end_row && w.begin_column < column && column < w.end_column;
            assert!(inside(options_window()) || inside(found_words_window()) || inside(info_window()));
        }
    }
}
