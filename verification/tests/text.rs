use gtk_samples::text::{paragraphs_of, split_on};

#[test]
fn split_on_cuts_at_each_colon() {
    assert_eq!(split_on("a:b:c", ':'), vec!["a", "b", "c"]);
}

#[test]
fn split_on_an_empty_text_gives_one_empty_part() {
    assert_eq!(split_on("", ':'), vec![""]);
}

#[test]
fn split_on_without_separator_gives_the_text() {
    assert_eq!(split_on("no colon here", ':'), vec!["no colon here"]);
}

#[test]
fn split_on_keeps_empty_parts() {
    assert_eq!(split_on("a::b", ':'), vec!["a", "", "b"]);
    assert_eq!(split_on(":a", ':'), vec!["", "a"]);
    assert_eq!(split_on("a:", ':'), vec!["a", ""]);
    assert_eq!(split_on(":", ':'), vec!["", ""]);
    assert_eq!(split_on(":::", ':'), vec!["", "", "", ""]);
}

#[test]
fn split_on_keeps_order_and_repeats() {
    assert_eq!(split_on("b:a:b:a:a", ':'), vec!["b", "a", "b", "a", "a"]);
}

#[test]
fn split_on_keeps_blanks() {
    assert_eq!(split_on(" a : b ", ':'), vec![" a ", " b "]);
}

#[test]
fn split_on_counts_characters_not_bytes() {
    assert_eq!(split_on("привет:мир:€", ':'), vec!["привет", "мир", "€"]);
    assert_eq!(split_on("один→два→→три", '→'), vec!["один", "два", "", "три"]);
}

#[test]
fn split_on_agrees_with_the_standard_split() {
    let samples = ["", ":", "a", "a:b", "::a::", "tag one:tag two: tag three", "ü:ö:", "\n:\r"];
    for sample in samples {
        let expected: Vec<&str> = sample.split(':').collect();
        assert_eq!(split_on(sample, ':'), expected);
    }
}

#[test]
fn joined_parts_come_back() {
    let parts = vec!["x", "", "y y", "x", ""];
    let joined = parts.join(":");
    assert_eq!(split_on(&joined, ':'), parts);
}

#[test]
fn paragraphs_of_drops_empty_lines() {
    assert_eq!(paragraphs_of("L1\n\nL2"), vec!["L1", "L2"]);
}

#[test]
fn paragraphs_of_an_empty_text_is_empty() {
    assert_eq!(paragraphs_of(""), Vec::<&str>::new());
    assert_eq!(paragraphs_of("\n"), Vec::<&str>::new());
    assert_eq!(paragraphs_of("\n\n\n"), Vec::<&str>::new());
}

#[test]
fn paragraphs_of_keeps_lines_of_blanks() {
    assert_eq!(paragraphs_of("a\n \n\t\nb"), vec!["a", " ", "\t", "b"]);
}

#[test]
fn paragraphs_of_needs_no_final_line_feed() {
    assert_eq!(paragraphs_of("a\nb"), vec!["a", "b"]);
    assert_eq!(paragraphs_of("a\nb\n"), vec!["a", "b"]);
}

#[test]
fn paragraphs_of_takes_the_carriage_return_before_a_line_feed() {
    assert_eq!(paragraphs_of("a\r\nb\r\n"), vec!["a", "b"]);
    assert_eq!(paragraphs_of("\r\n\r\n"), Vec::<&str>::new());
    assert_eq!(paragraphs_of("a\r\r\n"), vec!["a\r"]);
}

#[test]
fn paragraphs_of_keeps_a_carriage_return_that_ends_no_line() {
    assert_eq!(paragraphs_of("a\rb"), vec!["a\rb"]);
    assert_eq!(paragraphs_of("a\r"), vec!["a\r"]);
    assert_eq!(paragraphs_of("a\n\r"), vec!["a", "\r"]);
    assert_eq!(paragraphs_of("\r"), vec!["\r"]);
}

#[test]
fn paragraphs_of_keeps_order_and_repeats() {
    assert_eq!(paragraphs_of("b\na\n\nb\nb\n\n\na"), vec!["b", "a", "b", "b", "a"]);
}

#[test]
fn paragraphs_of_counts_characters_not_bytes() {
    assert_eq!(paragraphs_of("Привет\r\n\nмир €\n"), vec!["Привет", "мир €"]);
}

#[test]
fn paragraphs_of_agrees_with_the_standard_lines() {
    let samples = [
        "",
        "\n",
        "\r",
        "\r\n",
        "a",
        "a\n",
        "a\r",
        "a\r\n",
        "a\n\r",
        "a\r\n\r",
        "one\n\ntwo\r\n\r\nthree",
        " \n  \n",
        "é\r\nü\n\r\r\n",
    ];
    for sample in samples {
        let expected: Vec<&str> = sample.lines().filter(|line| !line.is_empty()).collect();
        assert_eq!(paragraphs_of(sample), expected);
    }
}

#[test]
fn joined_lines_come_back_without_the_empty_ones() {
    let written = vec!["first", "", "second", "first", "", ""];
    let joined = written.join("\n");
    assert_eq!(paragraphs_of(&joined), vec!["first", "second", "first"]);
}
