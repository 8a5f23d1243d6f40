use fundraise_platform::leaderboard::ContributorStruct;
use fundraise_platform::leaderboard::TopTenContributors;

fn board_of(entries: &[(u64, u64)]) -> TopTenContributors {
    let contributors = entries
        .iter()
        .map(|&(address, amount)| ContributorStruct { address, amount })
        .collect();
    TopTenContributors { contributors }
}

fn pairs(board: &TopTenContributors) -> Vec<(u64, u64)> {
    board.contributors.iter().map(|c| (c.address, c.amount)).collect()
}

#[test]
fn update_appends_while_there_is_room() {
    let mut board = board_of(&[(1, 50), (2, 30)]);
    board.update(3, 40);
    assert_eq!(pairs(&board), vec![(1, 50), (2, 30), (3, 40)]);
}

#[test]
fn update_rewrites_a_present_address_in_place() {
    let mut board = board_of(&[(1, 50), (2, 30), (3, 40)]);
    board.update(2, 90);
    assert_eq!(pairs(&board), vec![(1, 50), (2, 90), (3, 40)]);
}

#[test]
fn a_match_stops_the_scan_before_later_entries() {
    // the matching first entry is updated even though a smaller amount sits
    // behind it: entries after a match are never inspected
    let mut board = board_of(&[(1, 5), (2, 3)]);
    board.update(1, 7);
    assert_eq!(pairs(&board), vec![(1, 7), (2, 3)]);
}

#[test]
fn full_board_replaces_the_earliest_minimum() {
    let mut board = board_of(&[
        (1, 5),
        (2, 3),
        (3, 9),
        (4, 10),
        (5, 11),
        (6, 12),
        (7, 13),
        (8, 14),
        (9, 15),
        (10, 16),
    ]);
    // the minimum 3 sits at index 1; a newcomer reaching 4 displaces it there
    board.update(99, 4);
    assert_eq!(
        pairs(&board),
        vec![
            (1, 5),
            (99, 4),
            (3, 9),
            (4, 10),
            (5, 11),
            (6, 12),
            (7, 13),
            (8, 14),
            (9, 15),
            (10, 16),
        ]
    );
}

#[test]
fn full_board_keeps_a_tie_or_smaller_newcomer_out() {
    let entries = [
        (1, 5),
        (2, 3),
        (3, 9),
        (4, 10),
        (5, 11),
        (6, 12),
        (7, 13),
        (8, 14),
        (9, 15),
        (10, 16),
    ];
    let mut board = board_of(&entries);
    // reaching only the minimum is not enough: ties never displace an entry
    board.update(99, 3);
    assert_eq!(pairs(&board), entries.to_vec());
    board.update(98, 2);
    assert_eq!(pairs(&board), entries.to_vec());
}

#[test]
fn full_board_ties_on_the_minimum_keep_the_earliest() {
    let mut board = board_of(&[
        (1, 8),
        (2, 3),
        (3, 3),
        (4, 10),
        (5, 11),
        (6, 12),
        (7, 13),
        (8, 14),
        (9, 15),
        (10, 16),
    ]);
    // both index 1 and index 2 hold the minimum; the earliest one goes
    board.update(99, 6);
    assert_eq!(
        pairs(&board),
        vec![
            (1, 8),
            (99, 6),
            (3, 3),
            (4, 10),
            (5, 11),
            (6, 12),
            (7, 13),
            (8, 14),
            (9, 15),
            (10, 16),
        ]
    );
}

#[test]
fn drain_hands_addresses_out_in_list_order() {
    let mut board = board_of(&[(4, 40), (2, 20), (9, 90)]);
    let paid = board.drain_addresses();
    assert_eq!(paid, vec![4, 2, 9]);
    assert!(board.contributors.is_empty());
}

#[test]
fn board_never_exceeds_capacity_or_repeats_an_address() {
    let mut board = board_of(&[]);
    for step in 0..25u64 {
        board.update(step % 13, step + 1);
        assert!(board.contributors.len() <= 10);
        for i in 0..board.contributors.len() {
            for j in 0..i {
                assert_ne!(
                    board.contributors[i].address,
                    board.contributors[j].address
                );
            }
        }
    }
}
