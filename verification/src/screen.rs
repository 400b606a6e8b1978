//! The layout of the screen: the options window with the key list, the window of found words,
//! and the info window with the current options.

use vstd::prelude::*;
use crate::controls::{
    DECREASE_CHANCE, DECREASE_RANDOM_ONE_SLEEP, DECREASE_RANDOM_TWO_SLEEP, DECREASE_WORD_SLEEP,
    INCREASE_CHANCE, INCREASE_RANDOM_ONE_SLEEP, INCREASE_RANDOM_TWO_SLEEP, INCREASE_WORD_SLEEP,
    QUIT, RESET_OPTIONS,
};
use crate::found_word::{header_text, word_line, Word};
use crate::options::{all_info, lemma_info_lines_show_values, Options};
use crate::text::{char_then, decimal, decimal_string, shows_value, string_views};
use crate::window::{
    draws_view, frame_char, glyph, lemma_window_cells_distinct, lemma_window_cells_on_frame,
    lemma_window_frame_covered, on_frame, window_cells, writing_position, Draw, DrawView, Window,
};

verus! {

/// The most found words that the window of found words shows.
pub const WORDS_TO_TAKE: u16 = 45;

/// The window with the list of keys.
pub open spec fn spec_options_window() -> Window {
    Window { begin_row: 0, begin_column: 0, end_row: 30, end_column: 75 }
}

/// The window with the found words, right of the options window.
pub open spec fn spec_found_words_window() -> Window {
    Window { begin_row: 0, begin_column: 76, end_row: 50, end_column: 185 }
}

/// The window with the current options, below the options window.
pub open spec fn spec_info_window() -> Window {
    Window { begin_row: 31, begin_column: 0, end_row: 50, end_column: 75 }
}

/// The window with the list of keys.
pub fn options_window() -> (w: Window)
    ensures
        w == spec_options_window(),
{
    Window { begin_row: 0, begin_column: 0, end_row: 30, end_column: 75 }
}

/// The window with the found words.
pub fn found_words_window() -> (w: Window)
    ensures
        w == spec_found_words_window(),
{
    let options = options_window();
    Window {
        begin_row: 0,
        begin_column: options.end_column + 1,
        end_row: options.end_row + 20,
        end_column: options.end_column + 110,
    }
}

/// The window with the current options.
pub fn info_window() -> (w: Window)
    ensures
        w == spec_info_window(),
{
    let options = options_window();
    Window {
        begin_row: options.end_row + 1,
        begin_column: options.begin_column,
        end_row: options.end_row + 20,
        end_column: options.end_column,
    }
}

/// A text at a position.
pub open spec fn text_at(column: u16, row: u16, text: Seq<char>) -> DrawView {
    DrawView::Text { column, row, text }
}

/// The list of keys and what they do, in the order in which it is shown.
pub open spec fn options_lines() -> Seq<Seq<char>> {
    seq![
        seq![INCREASE_CHANCE] + ": increase chance to find word"@,
        seq![DECREASE_CHANCE] + ": decrease chance to find word"@,
        seq![INCREASE_WORD_SLEEP] + ": increase time to search for word"@,
        seq![DECREASE_WORD_SLEEP] + ": decrease time to search for word"@,
        seq![INCREASE_RANDOM_ONE_SLEEP] + ": increase time to search for random num 1"@,
        seq![DECREASE_RANDOM_ONE_SLEEP] + ": decrease time to search for random num 1"@,
        seq![INCREASE_RANDOM_TWO_SLEEP] + ": increase time to search for random num 2"@,
        seq![DECREASE_RANDOM_TWO_SLEEP] + ": decrease time to search for random num 2"@,
        seq![RESET_OPTIONS] + ": reset options to default"@,
        seq![QUIT] + ": quit the program"@,
    ]
}

/// The list of keys and what they do.
pub fn create_options_array() -> (res: Vec<String>)
    ensures
        string_views(res@) == options_lines(),
{
    let mut option_list: Vec<String> = Vec::new();
    option_list.push(char_then(INCREASE_CHANCE, ": increase chance to find word"));
    option_list.push(char_then(DECREASE_CHANCE, ": decrease chance to find word"));
    option_list.push(char_then(INCREASE_WORD_SLEEP, ": increase time to search for word"));
    option_list.push(char_then(DECREASE_WORD_SLEEP, ": decrease time to search for word"));
    option_list.push(
        char_then(INCREASE_RANDOM_ONE_SLEEP, ": increase time to search for random num 1"),
    );
    option_list.push(
        char_then(DECREASE_RANDOM_ONE_SLEEP, ": decrease time to search for random num 1"),
    );
    option_list.push(
        char_then(INCREASE_RANDOM_TWO_SLEEP, ": increase time to search for random num 2"),
    );
    option_list.push(
        char_then(DECREASE_RANDOM_TWO_SLEEP, ": decrease time to search for random num 2"),
    );
    option_list.push(char_then(RESET_OPTIONS, ": reset options to default"));
    option_list.push(char_then(QUIT, ": quit the program"));
    assert(string_views(option_list@) =~= options_lines());
    option_list
}

/// The row of the `i`-th key line: the lines come in pairs, with an empty row between pairs.
pub open spec fn option_row(i: int) -> int {
    7 + (i / 2) * 3 + i % 2
}

/// The line that tells how many words were loaded.
pub open spec fn loaded_text(word_vector_size: nat) -> Seq<char> {
    "Loaded "@ + decimal(word_vector_size) + " English words"@
}

/// The options window: its frame, how many words were loaded, a hint on the keys, and the key
/// lines.
pub open spec fn options_window_draws(word_vector_size: nat) -> Seq<DrawView> {
    let w = spec_options_window();
    let p = writing_position(w);
    window_cells(w) + seq![
        text_at(p.column, p.row, loaded_text(word_vector_size)),
        text_at(
            p.column,
            (p.row + 2) as u16,
            "Use the characters below to change speed and chance to find words"@,
        ),
        text_at(
            p.column,
            (p.row + 3) as u16,
            "Do not hold the keys down for too long! (CrossTerm spams key events)"@,
        ),
    ] + Seq::new(
        options_lines().len(),
        |i: int| text_at(p.column, option_row(i) as u16, options_lines()[i]),
    )
}

/// The drawing commands of the options window.
pub fn create_options_window(word_vector_size: usize) -> (res: Vec<Draw>)
    ensures
        draws_view(res@) == options_window_draws(word_vector_size as nat),
{
    let window = options_window();
    let writing_position = window.get_writing_positon();
    let mut draws = window.create_window();
    let ghost frame = draws@;

    let mut loaded = String::from_str("Loaded ");
    loaded.append(decimal_string(word_vector_size as u64).as_str());
    loaded.append(" English words");
    draws.push(Draw::Text { column: writing_position.column, row: writing_position.row, text: loaded });
    let mut pos_option: u16 = writing_position.row + 2;
    draws.push(
        Draw::Text {
            column: writing_position.column,
            row: pos_option,
            text: String::from_str("Use the characters below to change speed and chance to find words"),
        },
    );
    pos_option += 1;
    draws.push(
        Draw::Text {
            column: writing_position.column,
            row: pos_option,
            text: String::from_str("Do not hold the keys down for too long! (CrossTerm spams key events)"),
        },
    );
    pos_option += 2;
    let ghost head = draws@;
    assert(draws_view(head) =~= draws_view(frame) + seq![
        text_at(2, 2, loaded_text(word_vector_size as nat)),
        text_at(2, 4, "Use the characters below to change speed and chance to find words"@),
        text_at(2, 5, "Do not hold the keys down for too long! (CrossTerm spams key events)"@),
    ]);

    let mut use_empty_row = false;
    let option_list = create_options_array();
    assert(option_list@.len() == string_views(option_list@).len());
    let mut i: usize = 0;
    while i < option_list.len()
        invariant
            string_views(option_list@) == options_lines(),
            option_list@.len() == 10,
            writing_position.column == 2,
            0 <= i <= option_list.len(),
            pos_option == option_row(i as int),
            use_empty_row == (i % 2 == 1),
            draws@.len() == head.len() + i,
            draws_view(draws@) == draws_view(head) + Seq::new(
                i as nat,
                |j: int| text_at(2, option_row(j) as u16, options_lines()[j]),
            ),
        decreases option_list.len() - i,
    {
        assert(string_views(option_list@)[i as int] == option_list@[i as int]@);
        let ghost before = draws@;
        draws.push(Draw::Text { column: writing_position.column, row: pos_option, text: option_list[i].clone() });
        assert(draws_view(draws@) =~= draws_view(before).push(
            text_at(2, option_row(i as int) as u16, options_lines()[i as int]),
        ));
        if use_empty_row {
            pos_option += 2;
            use_empty_row = false;
        } else {
            pos_option += 1;
            use_empty_row = true;
        }
        i = i + 1;
        assert(draws_view(draws@) =~= draws_view(head) + Seq::new(
            i as nat,
            |j: int| text_at(2, option_row(j) as u16, options_lines()[j]),
        ));
    }
    draws
}


/// The window of found words: its frame and the header of the table.
pub open spec fn found_words_window_draws() -> Seq<DrawView> {
    let w = spec_found_words_window();
    let p = writing_position(w);
    window_cells(w).push(text_at(p.column, p.row, header_text()))
}

/// The drawing commands of the window of found words, without the words.
pub fn create_found_words_window() -> (res: Vec<Draw>)
    ensures
        draws_view(res@) == found_words_window_draws(),
{
    let window = found_words_window();
    let writing_position = window.get_writing_positon();
    let mut draws = window.create_window();
    let ghost frame = draws@;
    draws.push(
        Draw::Text {
            column: writing_position.column,
            row: writing_position.row,
            text: Word::create_header(),
        },
    );
    assert(draws_view(draws@) =~= draws_view(frame).push(
        text_at(writing_position.column, writing_position.row, header_text()),
    ));
    draws
}

/// The info lines of `options` in the info window, one every second row, starting two rows
/// below where text in the window starts.
pub open spec fn info_list_draws(options: Options) -> Seq<DrawView> {
    let p = writing_position(spec_info_window());
    Seq::new(
        all_info(options).len(),
        |i: int| text_at(p.column, (p.row + 2 + 2 * i) as u16, all_info(options)[i]),
    )
}

/// The drawing commands of the info lines of `options`.
pub fn create_info_list(options: &Options) -> (res: Vec<Draw>)
    ensures
        draws_view(res@) == info_list_draws(*options),
{
    let writing_position = info_window().get_writing_positon();
    let mut pos_option: u16 = writing_position.row + 2;
    let info = options.get_all_info();
    assert(info@.len() == string_views(info@).len());
    let mut draws: Vec<Draw> = Vec::new();
    let mut i: usize = 0;
    while i < info.len()
        invariant
            string_views(info@) == all_info(*options),
            info@.len() == 4,
            writing_position == crate::window::writing_position(spec_info_window()),
            0 <= i <= info.len(),
            pos_option == writing_position.row + 2 + 2 * i,
            draws_view(draws@) == Seq::new(
                i as nat,
                |j: int| text_at(writing_position.column, (writing_position.row + 2 + 2 * j) as u16, all_info(*options)[j]),
            ),
        decreases info.len() - i,
    {
        assert(string_views(info@)[i as int] == info@[i as int]@);
        let ghost before = draws@;
        draws.push(Draw::Text { column: writing_position.column, row: pos_option, text: info[i].clone() });
        assert(draws_view(draws@) =~= draws_view(before).push(
            text_at(writing_position.column, pos_option, all_info(*options)[i as int]),
        ));
        pos_option += 2;
        i = i + 1;
        assert(draws_view(draws@) =~= Seq::new(
            i as nat,
            |j: int| text_at(writing_position.column, (writing_position.row + 2 + 2 * j) as u16, all_info(*options)[j]),
        ));
    }
    draws
}

/// How many of `n` found words are shown.
pub open spec fn shown_count(n: nat) -> nat {
    if n < WORDS_TO_TAKE { n } else { WORDS_TO_TAKE as nat }
}

/// The latest found words, newest first, one per row, starting two rows below the header of
/// the window of found words; at most `WORDS_TO_TAKE` of them.
pub open spec fn found_words_draws(found_words: Seq<Word>) -> Seq<DrawView> {
    let p = writing_position(spec_found_words_window());
    Seq::new(
        shown_count(found_words.len()),
        |i: int|
            text_at(
                p.column,
                (p.row + 2 + i) as u16,
                word_line(found_words[found_words.len() - 1 - i]),
            ),
    )
}

/// The drawing commands of the latest found words.
pub fn print_found_words(found_words: &Vec<Word>) -> (res: Vec<Draw>)
    ensures
        draws_view(res@) == found_words_draws(found_words@),
{
    let writing_position = found_words_window().get_writing_positon();
    let n = found_words.len();
    let take: usize = if n < WORDS_TO_TAKE as usize { n } else { WORDS_TO_TAKE as usize };
    let mut pos_word: u16 = writing_position.row + 2;
    let mut draws: Vec<Draw> = Vec::new();
    let mut i: usize = 0;
    while i < take
        invariant
            n == found_words@.len(),
            take == shown_count(n as nat),
            writing_position == crate::window::writing_position(spec_found_words_window()),
            0 <= i <= take,
            pos_word == writing_position.row + 2 + i,
            draws_view(draws@) == Seq::new(
                i as nat,
                |j: int|
                    text_at(
                        writing_position.column,
                        (writing_position.row + 2 + j) as u16,
                        word_line(found_words@[n - 1 - j]),
                    ),
            ),
        decreases take - i,
    {
        let ghost before = draws@;
        let found_word = &found_words[n - 1 - i];
        draws.push(Draw::Text { column: writing_position.column, row: pos_word, text: found_word.to_string() });
        assert(draws_view(draws@) =~= draws_view(before).push(
            text_at(writing_position.column, pos_word, word_line(found_words@[n - 1 - i])),
        ));
        pos_word += 1;
        i = i + 1;
        assert(draws_view(draws@) =~= Seq::new(
            i as nat,
            |j: int|
                text_at(
                    writing_position.column,
                    (writing_position.row + 2 + j) as u16,
                    word_line(found_words@[n - 1 - j]),
                ),
        ));
    }
    draws
}

/// The whole screen, in the order in which it is drawn: the options window, the window of
/// found words, the frame of the info window, the info lines and the found words.
pub open spec fn screen_draws(word_vector_size: nat, options: Options, found_words: Seq<Word>) -> Seq<
    DrawView,
> {
    options_window_draws(word_vector_size) + found_words_window_draws() + window_cells(
        spec_info_window(),
    ) + info_list_draws(options) + found_words_draws(found_words)
}

/// The drawing commands of the whole screen.
pub fn creat_all_windows(word_vector_size: usize, options: &Options, found_words: &Vec<Word>) -> (res: Vec<Draw>)
    ensures
        draws_view(res@) == screen_draws(word_vector_size as nat, *options, found_words@),
{
    let mut draws = create_options_window(word_vector_size);
    let mut found_window = create_found_words_window();
    let mut info_frame = info_window().create_window();
    let mut info_list = create_info_list(options);
    let mut words = print_found_words(found_words);
    let ghost a = draws@;
    let ghost b = found_window@;
    let ghost c = info_frame@;
    let ghost d = info_list@;
    let ghost e = words@;
    draws.append(&mut found_window);
    draws.append(&mut info_frame);
    draws.append(&mut info_list);
    draws.append(&mut words);
    assert(draws@ =~= a + b + c + d + e);
    assert(draws_view(draws@) =~= draws_view(a) + draws_view(b) + draws_view(c) + draws_view(d)
        + draws_view(e));
    draws
}


/// A text that starts inside the frame of `w`, on a row between its top and bottom.
pub open spec fn text_inside(w: Window, d: DrawView) -> bool {
    d matches DrawView::Text { column, row, .. } && w.begin_row < row < w.end_row
        && w.begin_column < column < w.end_column
}

/// Every text of the screen starts inside the frame of its window, so no text is put on a
/// frame: the hint and key lines of the options window, the header and the found words, and
/// the info lines.
pub proof fn lemma_texts_inside_windows(word_vector_size: nat, options: Options, found_words: Seq<Word>)
    ensures
        forall|i: int|
            window_cells(spec_options_window()).len() <= i < options_window_draws(
                word_vector_size,
            ).len() ==> text_inside(
                spec_options_window(),
                #[trigger] options_window_draws(word_vector_size)[i],
            ),
        text_inside(
            spec_found_words_window(),
            found_words_window_draws()[found_words_window_draws().len() - 1],
        ),
        forall|i: int|
            0 <= i < found_words_draws(found_words).len() ==> text_inside(
                spec_found_words_window(),
                #[trigger] found_words_draws(found_words)[i],
            ),
        forall|i: int|
            0 <= i < info_list_draws(options).len() ==> text_inside(
                spec_info_window(),
                #[trigger] info_list_draws(options)[i],
            ),
{
    let w = spec_options_window();
    let frame = window_cells(w);
    let k = frame.len();
    assert forall|i: int|
        k <= i < options_window_draws(word_vector_size).len() implies text_inside(
        w,
        #[trigger] options_window_draws(word_vector_size)[i],
    ) by {
        if i >= k + 3 {
            assert(option_row(i - k - 3) <= 20);
        }
    }
}


/// The first `k` commands of `s` draw exactly the frame of `w`: each is a character on the
/// frame with the frame's character there, every position of the frame is drawn, and none twice.
pub open spec fn draws_exact_frame(s: Seq<DrawView>, k: int, w: Window) -> bool {
    &&& 0 <= k <= s.len()
    &&& forall|i: int|
        0 <= i < k ==> (#[trigger] s[i] matches DrawView::Glyph { column, row, character }
            && on_frame(w, column as int, row as int) && character == frame_char(
            w,
            column as int,
            row as int,
        ))
    &&& forall|column: int, row: int|
        #![trigger on_frame(w, column, row)]
        on_frame(w, column, row) ==> exists|i: int|
            0 <= i < k && #[trigger] s[i] == glyph(column as u16, row as u16, frame_char(w, column, row))
    &&& forall|i: int, j: int|
        0 <= i < k && 0 <= j < k && i != j ==> (#[trigger] s[i] matches DrawView::Glyph {
            column: c1,
            row: r1,
            ..
        } && #[trigger] s[j] matches DrawView::Glyph { column: c2, row: r2, .. } && (c1 != c2
            || r1 != r2))
}

proof fn lemma_frame_prefix(w: Window, rest: Seq<DrawView>)
    requires
        w.begin_column < w.end_column && w.begin_row < w.end_row,
    ensures
        draws_exact_frame(window_cells(w) + rest, window_cells(w).len() as int, w),
{
    lemma_window_cells_on_frame(w);
    lemma_window_frame_covered(w);
    lemma_window_cells_distinct(w);
    let s = window_cells(w) + rest;
    let k = window_cells(w).len() as int;
    assert forall|i: int| 0 <= i < k implies s[i] == window_cells(w)[i] by {}
    assert forall|column: int, row: int|
        #![trigger on_frame(w, column, row)]
        on_frame(w, column, row) implies exists|i: int|
            0 <= i < k && #[trigger] s[i] == glyph(column as u16, row as u16, frame_char(w, column, row)) by {
        let i = choose|i: int|
            0 <= i < k && #[trigger] window_cells(w)[i] == glyph(
                column as u16,
                row as u16,
                frame_char(w, column, row),
            );
        assert(s[i] == window_cells(w)[i]);
    }
}

/// The window of found words draws exactly the frame that spans rows 0 to 50 and columns 76
/// to 185, right of the options window (columns 0 to 75), and then the table header at column
/// 78, row 2.
pub proof fn lemma_found_words_window_frame()
    ensures
        found_words_window_draws().len() >= 1,
        draws_exact_frame(
            found_words_window_draws(),
            found_words_window_draws().len() - 1,
            Window { begin_row: 0, begin_column: 76, end_row: 50, end_column: 185 },
        ),
        found_words_window_draws()[found_words_window_draws().len() - 1] == text_at(
            78,
            2,
            header_text(),
        ),
{
    let w = Window { begin_row: 0, begin_column: 76, end_row: 50, end_column: 185 };
    lemma_frame_prefix(w, seq![text_at(78, 2, header_text())]);
    assert(found_words_window_draws() =~= window_cells(w) + seq![text_at(78, 2, header_text())]);
}

/// The options window draws exactly the frame that spans rows 0 to 30 and columns 0 to 75
/// before its texts, and the info window exactly the frame that spans rows 31 to 50 and columns
/// 0 to 75.
pub proof fn lemma_options_and_info_frames(word_vector_size: nat)
    ensures
        draws_exact_frame(
            options_window_draws(word_vector_size),
            options_window_draws(word_vector_size).len() - 13,
            Window { begin_row: 0, begin_column: 0, end_row: 30, end_column: 75 },
        ),
        draws_exact_frame(
            window_cells(spec_info_window()),
            window_cells(spec_info_window()).len() as int,
            Window { begin_row: 31, begin_column: 0, end_row: 50, end_column: 75 },
        ),
{
    let w = Window { begin_row: 0, begin_column: 0, end_row: 30, end_column: 75 };
    let d = options_window_draws(word_vector_size);
    let rest = d.subrange(window_cells(w).len() as int, d.len() as int);
    assert(d =~= window_cells(w) + rest);
    lemma_frame_prefix(w, rest);
    let v = Window { begin_row: 31, begin_column: 0, end_row: 50, end_column: 75 };
    lemma_frame_prefix(v, seq![]);
    assert(window_cells(v) + seq![] =~= window_cells(v));
}

/// The smaller of two numbers.
pub open spec fn min_nat(a: nat, b: nat) -> nat {
    if a < b { a } else { b }
}

/// Of `n` found words, the 45 newest are shown, or all if there are fewer: line `i`, at column
/// 78 and row `4 + i`, shows the `(i + 1)`-th newest word.
pub proof fn lemma_found_words_shown(found_words: Seq<Word>)
    ensures
        found_words_draws(found_words).len() == min_nat(found_words.len(), 45),
        forall|i: int|
            0 <= i < found_words_draws(found_words).len() ==> #[trigger] found_words_draws(
                found_words,
            )[i] == text_at(78, (4 + i) as u16, word_line(found_words[found_words.len() - 1 - i])),
{
}

/// A newly found word goes to the top line, and every word shown before moves one row down,
/// with the same text; one more line is shown unless 45 were shown already.
pub proof fn lemma_new_word_on_top(found_words: Seq<Word>, w: Word)
    ensures
        found_words_draws(found_words.push(w)).len() == min_nat(found_words.len() + 1, 45),
        found_words_draws(found_words.push(w))[0] == text_at(78, 4, word_line(w)),
        forall|i: int|
            1 <= i < found_words_draws(found_words.push(w)).len() ==> (#[trigger] found_words_draws(
                found_words.push(w),
            )[i] matches DrawView::Text { column: c1, row: r1, text: t1 }
                && found_words_draws(found_words)[i - 1] matches DrawView::Text {
                column: c2,
                row: r2,
                text: t2,
            } && c1 == c2 && r1 == r2 + 1 && t1 == t2),
{
    let f = found_words.push(w);
    assert forall|i: int| 1 <= i < found_words_draws(f).len() implies (#[trigger] found_words_draws(
        f,
    )[i] matches DrawView::Text { column: c1, row: r1, text: t1 } && found_words_draws(
        found_words,
    )[i - 1] matches DrawView::Text { column: c2, row: r2, text: t2 } && c1 == c2 && r1 == r2 + 1
        && t1 == t2) by {
        assert(f[f.len() - 1 - i] == found_words[found_words.len() - 1 - (i - 1)]);
    }
}

/// The info window shows the options it is given: at column 2, rows 35, 37, 39 and 41, the
/// range line reads back the range of those options and each wait line the matching wait.
pub proof fn lemma_info_list_shows_options(o: Options)
    ensures
        info_list_draws(o).len() == 4,
        info_list_draws(o)[0] matches DrawView::Text { column, row, text } && column == 2 && row
            == 35 && shows_value(text, "Random numbers between: 0 and "@, "   "@, o.chance_range as int),
        info_list_draws(o)[1] matches DrawView::Text { column, row, text } && column == 2 && row
            == 37 && shows_value(text, "Word search wait time: "@, " ms   "@, o.word_sleep as int),
        info_list_draws(o)[2] matches DrawView::Text { column, row, text } && column == 2 && row
            == 39 && shows_value(
            text,
            "Random number 1 search wait time: "@,
            " ms   "@,
            o.random_one_sleep as int,
        ),
        info_list_draws(o)[3] matches DrawView::Text { column, row, text } && column == 2 && row
            == 41 && shows_value(
            text,
            "Random number 2 search wait time: "@,
            " ms    "@,
            o.random_two_sleep as int,
        ),
{
    lemma_info_lines_show_values(o);
}

} // verus!
