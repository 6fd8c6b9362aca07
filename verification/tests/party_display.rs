use post_push_party::party::display::{display, party_lines};

#[test]
fn a_plain_party_points_to_the_total() {
    let lines = party_lines(3, 3, 1, &vec![], false, false, false, 0, 0, 0);
    assert_eq!(
        lines,
        vec![
            "",
            "🎉 You earned 3 party points!",
            "",
            "   3 commits × 1 point per commit",
            "",
            "Run `party` to see your total!",
            "",
        ]
    );
}

#[test]
fn an_exclaimed_party_with_bonuses_and_a_quote() {
    let applied = vec![(2, "Streak".to_string())];
    let lines = party_lines(10, 1, 5, &applied, true, true, false, 2, 1, 7);
    assert_eq!(
        lines,
        vec![
            "",
            "\x1b[1m\x1b[33mAWESOME! \x1b[0m",
            "",
            "\x1b[33m🎉 You earned 10 party points!\x1b[0m",
            "",
            "   1 commit × 5 points per commit",
            "   × 2 Streak",
            "",
            "\x1b[3m\"Delete code bravely.\"\x1b[0m",
            "",
        ]
    );
}

#[test]
fn big_text_and_an_already_counted_push() {
    let lines = party_lines(0, 0, 1, &vec![], false, false, true, 5, 0, 0);
    assert_eq!(lines.len(), 1 + 9 + 2);
    assert_eq!(lines[1], "\x1b[36m\x1b[1m");
    assert_eq!(lines[2], " ███╗   ██╗██╗ ██████╗███████╗██╗");
    assert_eq!(lines[8], "\x1b[0m");
    assert_eq!(lines[10], "\x1b[36m🎉 Pushed! (already counted)\x1b[0m");
}

#[test]
fn a_plain_party_draws_nothing() {
    // with no exclamation, quote or big text nothing is drawn at random
    let applied = vec![(2, "first push of the day".to_string())];
    assert_eq!(
        display(4, 2, 1, &applied, false, false, false),
        party_lines(4, 2, 1, &applied, false, false, false, 0, 0, 0)
    );
    let lines = display(4, 2, 1, &applied, true, true, false);
    let candidates: Vec<Vec<String>> = (0..6)
        .flat_map(|c| (0..10).flat_map(move |e| (0..10).map(move |q| (c, e, q))))
        .map(|(c, e, q)| party_lines(4, 2, 1, &applied, true, true, false, c, e, q))
        .collect();
    assert!(candidates.contains(&lines));
}
