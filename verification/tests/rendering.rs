use progress_bar::Bar;

fn cells(filled: usize, empty: usize) -> String {
    format!("|{}{}|", "█".repeat(filled), "░".repeat(empty))
}

#[test]
fn new_bar_renders_empty_body() {
    assert_eq!(Bar::new().render(), "|░░░░░░░░░░|");
}

#[test]
fn value_zero_renders_empty_body() {
    let bar = Bar::new().value(0).unwrap();
    assert_eq!(bar.render(), "|░░░░░░░░░░|");
}

#[test]
fn half_way_renders_five_of_ten() {
    let bar = Bar::new().value(50).unwrap();
    assert_eq!(bar.render(), "|█████░░░░░|");
}

#[test]
fn half_way_with_text_appends_space_and_text() {
    let bar = Bar::new().value(50).unwrap().text("updating");
    assert_eq!(bar.render(), "|█████░░░░░| updating");
}

#[test]
fn three_quarters_rounds_up_to_eight() {
    let bar = Bar::new().value(75).unwrap();
    assert_eq!(bar.render(), "|████████░░|");
}

#[test]
fn value_at_max_renders_full_body() {
    let bar = Bar::new().value(100).unwrap();
    assert_eq!(bar.render(), "|██████████|");
    let bar = Bar::new().max(7).width(23).value(7).unwrap();
    assert_eq!(bar.render(), cells(23, 0));
}

#[test]
fn value_zero_renders_empty_body_for_any_width_and_max() {
    let bar = Bar::new().max(7).width(23).value(0).unwrap();
    assert_eq!(bar.render(), cells(0, 23));
}

#[test]
fn render_twice_gives_identical_lines() {
    let bar = Bar::new().value(42).unwrap().text("steady");
    let first = bar.render();
    let second = bar.render();
    assert_eq!(first, second);
    assert_eq!(first, "|█████░░░░░| steady");
}

#[test]
fn smallest_progress_shows_one_cell() {
    let bar = Bar::new().value(1).unwrap();
    assert_eq!(bar.render(), cells(1, 9));
    let bar = Bar::new().max(1_000_000).value(1).unwrap();
    assert_eq!(bar.render(), cells(1, 9));
}

#[test]
fn almost_complete_rounds_up_to_full() {
    let bar = Bar::new().value(99).unwrap();
    assert_eq!(bar.render(), cells(10, 0));
    let bar = Bar::new().value(91).unwrap();
    assert_eq!(bar.render(), cells(10, 0));
    let bar = Bar::new().value(90).unwrap();
    assert_eq!(bar.render(), cells(9, 1));
}

#[test]
fn exact_ratios_are_not_rounded_further() {
    for tenth in 0..=10 {
        let bar = Bar::new().value(tenth * 10).unwrap();
        let filled = tenth as usize;
        assert_eq!(bar.render(), cells(filled, 10 - filled));
    }
}

#[test]
fn thirds_round_up() {
    let bar = Bar::new().max(3).width(10).value(1).unwrap();
    assert_eq!(bar.render(), cells(4, 6));
    let bar = Bar::new().max(3).width(10).value(2).unwrap();
    assert_eq!(bar.render(), cells(7, 3));
    let bar = Bar::new().max(3).width(3).value(1).unwrap();
    assert_eq!(bar.render(), cells(1, 2));
}

#[test]
fn large_values_are_rounded_exactly() {
    let max: i64 = 9_007_199_254_740_993;
    let bar = Bar::new().max(max).value(max).unwrap();
    assert_eq!(bar.render(), cells(10, 0));
    let bar = Bar::new().max(max).value(max - 1).unwrap();
    assert_eq!(bar.render(), cells(10, 0));
    let bar = Bar::new().max(i64::MAX).value(i64::MAX / 2).unwrap();
    assert_eq!(bar.render(), cells(5, 5));
    let bar = Bar::new().max(i64::MAX).value(i64::MAX / 2 + 1).unwrap();
    assert_eq!(bar.render(), cells(6, 4));
    let bar = Bar::new().max(i64::MAX).value(1).unwrap();
    assert_eq!(bar.render(), cells(1, 9));
}

#[test]
fn zero_width_renders_only_the_tokens() {
    let bar = Bar::new().width(0).value(50).unwrap().text("none");
    assert_eq!(bar.render(), "|| none");
}

#[test]
fn negative_width_draws_no_cells() {
    let bar = Bar::new().width(-4).value(50).unwrap();
    assert_eq!(bar.render(), "||");
    let bar = Bar::new().width(-4);
    assert_eq!(bar.render(), "||");
    let bar = Bar::new().width(i32::MIN).value(100).unwrap();
    assert_eq!(bar.render(), "||");
}

#[test]
fn negative_value_draws_no_filled_cells() {
    let bar = Bar::new().value(-30).unwrap();
    assert_eq!(bar.render(), cells(0, 13));
    let bar = Bar::new().value(-1).unwrap();
    assert_eq!(bar.render(), cells(0, 10));
    let bar = Bar::new().value(-10).unwrap();
    assert_eq!(bar.render(), cells(0, 11));
}

#[test]
fn zero_max_counts_no_cell_as_filled() {
    let bar = Bar::new().max(0);
    assert_eq!(bar.render(), cells(0, 10));
    let bar = Bar::new().value(60).unwrap().max(0);
    assert_eq!(bar.render(), cells(0, 10));
    let bar = Bar::new().max(0).value(-5).unwrap();
    assert_eq!(bar.render(), cells(0, 10));
}

#[test]
fn value_above_a_lowered_max_overfills() {
    let bar = Bar::new().value(100).unwrap().max(50);
    assert_eq!(bar.render(), cells(20, 0));
    let bar = Bar::new().value(100).unwrap().max(80);
    assert_eq!(bar.render(), cells(13, 0));
}

#[test]
fn negative_max_uses_the_ratio_of_value_to_max() {
    let bar = Bar::new().max(-100).value(-150).unwrap();
    assert_eq!(bar.render(), cells(15, 0));
    let bar = Bar::new().max(-100).value(-100).unwrap();
    assert_eq!(bar.render(), cells(10, 0));
    let bar = Bar::new().max(-3).value(-4).unwrap().width(2);
    assert_eq!(bar.render(), cells(3, 0));
    let bar = Bar::new().value(50).unwrap().max(-100);
    assert_eq!(bar.render(), cells(0, 15));
    let bar = Bar::new().value(25).unwrap().max(-100);
    assert_eq!(bar.render(), cells(0, 12));
}

#[test]
fn empty_text_adds_no_trailing_space() {
    let bar = Bar::new().text("note").text("");
    assert_eq!(bar.render(), "|░░░░░░░░░░|");
}

#[test]
fn text_of_spaces_is_kept() {
    let bar = Bar::new().text(" ");
    assert_eq!(bar.render(), "|░░░░░░░░░░|  ");
}

#[test]
fn draw_uses_the_given_counts() {
    let bar = Bar::new().value(50).unwrap().text("by hand");
    assert_eq!(bar.draw(0, 0), "|| by hand");
    assert_eq!(bar.draw(3, 1), "|███░| by hand");
    assert_eq!(bar.draw(1, 4), "|█░░░░| by hand");
    let bar = Bar::new().start("<").end(">").filled('#').empty('.');
    assert_eq!(bar.draw(2, 2), "<##..>");
}

#[test]
fn multibyte_and_ascii_glyphs_are_repeated_whole() {
    let bar = Bar::new().filled('é').empty('\u{1F600}').value(30).unwrap().width(5);
    assert_eq!(bar.render(), "|éé\u{1F600}\u{1F600}\u{1F600}|");
    let bar = Bar::new().filled('=').empty(' ').value(30).unwrap().width(5);
    assert_eq!(bar.render(), "|==   |");
}
