use pubg::{PlayerData, PlayerSpyer, MAX_REPORTED_PLAYERS};

#[test]
fn report_orders_by_distance_keeping_ties_in_order() {
    let spyer = PlayerSpyer::new();
    let players: Vec<PlayerData> = vec![(30, 90, 10), (10, 50, -20), (30, 80, 5), (5, 100, 0), (10, 60, 170)];
    let r = spyer.reported_players(players);
    assert_eq!(r, vec![(5, 100, 0), (10, 50, -20), (10, 60, 170), (30, 90, 10), (30, 80, 5)]);
}

#[test]
fn report_keeps_the_nearest_twenty_five() {
    let spyer = PlayerSpyer::new();
    let players: Vec<PlayerData> = (0..40u32).rev().map(|d| (d * 3, 50, 0)).collect();
    let r = spyer.reported_players(players);
    assert_eq!(r.len(), MAX_REPORTED_PLAYERS);
    for (i, p) in r.iter().enumerate() {
        assert_eq!(p.0, i as u32 * 3);
    }
}

#[test]
fn report_of_few_or_no_players() {
    let spyer = PlayerSpyer::new();
    assert!(spyer.reported_players(Vec::new()).is_empty());
    let r = spyer.reported_players(vec![(7, 1, 2)]);
    assert_eq!(r, vec![(7, 1, 2)]);
}
