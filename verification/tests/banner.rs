use git_author_rewrite::banner::{
    assemble_banner, banner_lines, banner_rows, border_text, frame_rows, inner_width,
    measure_lines, repeat_char, widest,
};

fn strings(words: &[&str]) -> Vec<String> {
    words.iter().map(|word| word.to_string()).collect()
}

#[test]
fn banner_auto_mode_lines_and_width_are_correct() {
    let lines = banner_lines("John Doe", "john@doe.org", false);
    let s = lines.join("\n");

    assert!(s.contains("Rewrite commit authors via interactive rebase"));
    assert!(s.contains("Auto mode: all `pick` lines will be changed to `edit`."));
    assert!(s.contains("New author will be set to: John Doe <john@doe.org>"));

    let max_line = lines.iter().map(|l| l.len()).max().unwrap_or(0);

    assert!(max_line >= "Rewrite commit authors via interactive rebase".len());
}

#[test]
fn banner_manual_mode_lines_and_width_are_correct() {
    let lines = banner_lines("Jane", "jane@example.com", true);
    let s = lines.join("\n");

    assert!(s.contains("Manual mode: you'll edit the todo list yourself."));
    assert!(s.contains("Tip: mark commits you want to change as `edit`."));
    assert!(s.contains("New author will be set to: Jane <jane@example.com>"));

    let max_line = lines.iter().map(|l| l.len()).max().unwrap_or(0);

    assert!(max_line >= "Rewrite commit authors via interactive rebase".len());
}

#[test]
fn banner_has_nine_lines_in_order() {
    let lines = banner_lines("Jane", "jane@example.com", true);
    assert_eq!(lines.len(), 9);
    assert_eq!(lines[0], "Rewrite commit authors via interactive rebase");
    assert_eq!(lines[1], "");
    assert!(lines[2].contains("Manual mode: you'll edit the todo list yourself."));
    assert!(lines[3].contains("Tip: mark commits you want to change as `edit`."));
    assert_eq!(lines[4], "");
    assert_eq!(lines[5], "New author will be set to: Jane <jane@example.com>");
    assert_eq!(lines[6], "This tool will automatically:");
    assert_eq!(lines[7], "  1) Amend each stop with the new author");
    assert_eq!(lines[8], "  2) Run `git rebase --continue` until finished");
}

#[test]
fn assemble_puts_the_mode_lines_in_third_and_fourth_place() {
    let lines = assemble_banner("first".to_string(), "second".to_string(), "N", "e@x");
    assert_eq!(
        lines,
        strings(&[
            "Rewrite commit authors via interactive rebase",
            "",
            "first",
            "second",
            "",
            "New author will be set to: N <e@x>",
            "This tool will automatically:",
            "  1) Amend each stop with the new author",
            "  2) Run `git rebase --continue` until finished",
        ])
    );
}

#[test]
fn widest_and_inner_width() {
    assert_eq!(widest(&vec![]), 0);
    assert_eq!(widest(&vec![3, 9, 4]), 9);
    assert_eq!(inner_width(&vec![]), Some(2));
    assert_eq!(inner_width(&vec![3, 9, 4]), Some(11));
    assert_eq!(inner_width(&vec![usize::MAX - 2]), Some(usize::MAX));
    assert_eq!(inner_width(&vec![1, usize::MAX - 1]), None);
    assert_eq!(inner_width(&vec![usize::MAX]), None);
}

#[test]
fn repeat_and_border() {
    assert_eq!(repeat_char(' ', 0), "");
    assert_eq!(repeat_char('x', 3), "xxx");
    assert_eq!(border_text('\u{2554}', 4, '\u{2557}'), "\u{2554}\u{2550}\u{2550}\u{2550}\u{2550}\u{2557}");
    assert_eq!(border_text('a', 0, 'b'), "ab");
}

#[test]
fn measure_counts_columns_and_skips_escapes() {
    let lines = strings(&["abc", "", "\u{1b}[36mhello\u{1b}[0m", "\u{4e16}\u{754c}"]);
    assert_eq!(measure_lines(&lines), vec![3, 0, 5, 4]);
}

#[test]
fn frame_pads_every_line_to_the_same_width() {
    let lines = strings(&["ab", "", "abcd"]);
    let widths = vec![2, 0, 4];
    let rows = frame_rows(&lines, &widths, 6, "TOP".to_string(), "| ", "|", "BOTTOM".to_string());
    assert_eq!(rows, strings(&["", "TOP", "| ab   |", "|      |", "| abcd |", "BOTTOM", ""]));
}

#[test]
fn banner_rows_frame_the_banner() {
    console::set_colors_enabled(false);
    let rows = banner_rows("Jane", "jane@example.com", true).unwrap();
    assert_eq!(rows.len(), 13);
    assert_eq!(rows[0], "");
    assert_eq!(rows[12], "");
    let bar = "\u{2550}".repeat(52);
    assert_eq!(rows[1], format!("\u{2554}{}\u{2557}", bar));
    assert_eq!(rows[11], format!("\u{255a}{}\u{255d}", bar));
    assert_eq!(rows[2], "\u{2551} Rewrite commit authors via interactive rebase      \u{2551}");
    assert_eq!(rows[3], format!("\u{2551} {}\u{2551}", " ".repeat(51)));
    assert_eq!(rows[7], "\u{2551} New author will be set to: Jane <jane@example.com> \u{2551}");
    for row in &rows[1..12] {
        assert_eq!(row.chars().count(), 54);
    }
}
