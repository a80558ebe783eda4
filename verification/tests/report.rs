use app_messages::bw::{AssignedRace, VictoryState};
use app_messages::results::{
    GamePlayerResult, GameResults, GameResultsReport, NetworkStallInfo, PlayerResults,
};

fn stalls() -> NetworkStallInfo {
    NetworkStallInfo {
        count: 2,
        min: 40,
        max: 260,
        median: 150,
    }
}

fn result(state: VictoryState, race: AssignedRace, apm: u32) -> GamePlayerResult {
    GamePlayerResult {
        result: state,
        race,
        apm,
    }
}

#[test]
fn single_entry_report_is_exact() {
    let mut results = PlayerResults::new();
    results.insert(7, result(VictoryState::Victory, AssignedRace::Terran, 120));
    let game_results = GameResults {
        time_ms: 60_000,
        results,
        network_stalls: stalls(),
    };
    let report = GameResultsReport::build(9, String::from("rc-1"), &game_results);
    assert_eq!(report.user_id, 9);
    assert_eq!(report.result_code, "rc-1");
    assert_eq!(report.time, 60_000);
    assert_eq!(
        report.player_results,
        vec![(7, result(VictoryState::Victory, AssignedRace::Terran, 120))]
    );
}

#[test]
fn report_orders_ascending_by_user_id() {
    let mut results = PlayerResults::new();
    results.insert(42, result(VictoryState::Defeat, AssignedRace::Zerg, 80));
    results.insert(7, result(VictoryState::Victory, AssignedRace::Terran, 120));
    results.insert(19, result(VictoryState::Disconnected, AssignedRace::Protoss, 95));
    let game_results = GameResults {
        time_ms: 500,
        results,
        network_stalls: stalls(),
    };
    let report = GameResultsReport::build(1, String::from("rc"), &game_results);
    assert_eq!(
        report.player_results,
        vec![
            (7, result(VictoryState::Victory, AssignedRace::Terran, 120)),
            (19, result(VictoryState::Disconnected, AssignedRace::Protoss, 95)),
            (42, result(VictoryState::Defeat, AssignedRace::Zerg, 80)),
        ]
    );
}

#[test]
fn later_insert_for_same_user_wins() {
    let mut results = PlayerResults::new();
    results.insert(7, result(VictoryState::Playing, AssignedRace::Zerg, 1));
    results.insert(7, result(VictoryState::Victory, AssignedRace::Zerg, 90));
    let game_results = GameResults {
        time_ms: 1,
        results,
        network_stalls: stalls(),
    };
    let report = GameResultsReport::build(1, String::from("rc"), &game_results);
    assert_eq!(
        report.player_results,
        vec![(7, result(VictoryState::Victory, AssignedRace::Zerg, 90))]
    );
}

#[test]
fn empty_results_give_an_empty_list() {
    let game_results = GameResults {
        time_ms: 0,
        results: PlayerResults::new(),
        network_stalls: stalls(),
    };
    let report = GameResultsReport::build(1, String::from("rc"), &game_results);
    assert_eq!(report.player_results, vec![]);
}

#[test]
fn report_round_trips_through_the_list_form() {
    let mut results = PlayerResults::new();
    results.insert(42, result(VictoryState::Defeat, AssignedRace::Zerg, 80));
    results.insert(7, result(VictoryState::Victory, AssignedRace::Terran, 120));
    let game_results = GameResults {
        time_ms: 500,
        results,
        network_stalls: stalls(),
    };
    let report = GameResultsReport::build(1, String::from("rc"), &game_results);
    // Rebuild the unordered map from the report's ordered list, project it
    // again, and the list comes back exactly, order included.
    let rebuilt = app_messages::results::results_from_list(&report.player_results);
    let again = GameResultsReport::build(
        1,
        String::from("rc"),
        &GameResults {
            time_ms: 500,
            results: rebuilt,
            network_stalls: stalls(),
        },
    );
    assert_eq!(report.player_results, again.player_results);
}
