use git_author_rewrite::banner::{banner_lines, banner_rows};

#[test]
fn banner_lines_are_coloured_where_colours_are_on() {
    console::set_colors_enabled(true);
    let manual = banner_lines("Jane", "jane@example.com", true);
    assert_eq!(
        manual[2],
        "\u{1b}[33m\u{1b}[1mManual mode: you'll edit the todo list yourself.\u{1b}[0m"
    );
    assert_eq!(
        manual[3],
        "\u{1b}[33m\u{1b}[1mTip: mark commits you want to change as `edit`.\u{1b}[0m"
    );
    let auto = banner_lines("Jane", "jane@example.com", false);
    assert_eq!(
        auto[2],
        "\u{1b}[36m\u{1b}[1mAuto mode: all `pick` lines will be changed to `edit`.\u{1b}[0m"
    );
    assert_eq!(
        auto[3],
        "\u{1b}[36m(Use --manual to keep your editor and control which commits to edit.)\u{1b}[0m"
    );
    assert_eq!(auto[0], "Rewrite commit authors via interactive rebase");
}

#[test]
fn banner_frame_is_blue_where_colours_are_on() {
    console::set_colors_enabled(true);
    let rows = banner_rows("Jane", "jane@example.com", false).unwrap();
    assert_eq!(rows.len(), 13);
    let left = "\u{1b}[34m\u{1b}[1m\u{2551} \u{1b}[0m";
    let right = "\u{1b}[34m\u{1b}[1m\u{2551}\u{1b}[0m";
    let bar = "\u{2550}".repeat(71);
    assert_eq!(rows[1], format!("\u{1b}[34m\u{1b}[1m\u{2554}{}\u{2557}\u{1b}[0m", bar));
    assert_eq!(rows[11], format!("\u{1b}[34m\u{1b}[1m\u{255a}{}\u{255d}\u{1b}[0m", bar));
    assert_eq!(
        rows[2],
        format!(
            "{}Rewrite commit authors via interactive rebase{}{}",
            left,
            " ".repeat(25),
            right
        )
    );
    assert_eq!(
        rows[5],
        format!(
            "{}\u{1b}[36m(Use --manual to keep your editor and control which commits to edit.)\u{1b}[0m {}",
            left, right
        )
    );
}
