use issue_tracker::page_helpers::get_column_string;

#[test]
fn test_get_column_string() {
    let text1 = "";
    let text2 = "test";
    let text3 = "testme";
    let text4 = "testmetest";

    let width = 0;

    assert_eq!(get_column_string(text4, width), "".to_owned());

    let width = 1;

    assert_eq!(get_column_string(text4, width), ".".to_owned());

    let width = 2;

    assert_eq!(get_column_string(text4, width), "..".to_owned());

    let width = 3;

    assert_eq!(get_column_string(text4, width), "...".to_owned());

    let width = 4;

    assert_eq!(get_column_string(text4, width), "t...".to_owned());

    let width = 6;

    assert_eq!(get_column_string(text1, width), "      ".to_owned());
    assert_eq!(get_column_string(text2, width), "test  ".to_owned());
    assert_eq!(get_column_string(text3, width), "testme".to_owned());
    assert_eq!(get_column_string(text4, width), "tes...".to_owned());
}

#[test]
fn narrow_columns_hold_dots_whatever_the_text() {
    for text in ["", "a", "abc", "abcdefgh"] {
        assert_eq!(get_column_string(text, 0), "");
        assert_eq!(get_column_string(text, 1), ".");
        assert_eq!(get_column_string(text, 2), "..");
        assert_eq!(get_column_string(text, 3), "...");
    }
}

#[test]
fn short_text_is_padded_to_the_width() {
    assert_eq!(get_column_string("ab", 4), "ab  ");
    assert_eq!(get_column_string("", 4), "    ");
    assert_eq!(get_column_string("epic", 10), "epic      ");
    assert_eq!(get_column_string("epic", 10).len(), 10);
}

#[test]
fn fitting_text_is_shown_as_it_is() {
    assert_eq!(get_column_string("abcd", 4), "abcd");
    assert_eq!(get_column_string("exactly ten", 11), "exactly ten");
}

#[test]
fn long_text_is_cut_and_marked() {
    assert_eq!(get_column_string("abcde", 4), "a...");
    assert_eq!(get_column_string("Hello, World!", 6), "Hel...");
    assert_eq!(get_column_string("Hello, World!", 12), "Hello, Wo...");
}

#[test]
fn width_is_measured_in_bytes() {
    // Two characters of two bytes each: four bytes, so the text fills a
    // column of four and is padded in a column of five.
    assert_eq!(get_column_string("éé", 4), "éé");
    assert_eq!(get_column_string("éé", 5), "éé ");
    // Five bytes in a column of four: longer in bytes, but no more than one
    // cluster is asked for, and the text has three.
    assert_eq!(get_column_string("éaé", 4), "é...");
    // Six bytes, three characters: cut to at most three clusters leaves it whole.
    assert_eq!(get_column_string("ééé", 5), "éé...");
    assert_eq!(get_column_string("ééé", 6), "ééé");
}
