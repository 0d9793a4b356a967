use fleet_monitor::fleet::highest_block;
use fleet_monitor::fleet::lagging_report;
use fleet_monitor::fleet::new_fleet;
use fleet_monitor::fleet::partition_records;
use fleet_monitor::fleet::record_lags;
use fleet_monitor::record::ClientRecord;
use fleet_monitor::record::LivenessOutcome;

#[test]
fn new_fleet_builds_sequential_records() {
    let fleet = new_fleet(3);
    assert_eq!(fleet.len(), 3);
    for (i, r) in fleet.iter().enumerate() {
        assert_eq!(r.index, i);
        assert_eq!(r.port, 19000 + i as u16);
        assert!(r.online);
        assert_eq!(r.block_height, 0);
        assert_eq!(r.peer_count, 0);
        assert_eq!(r.offline_since, None);
    }
}

#[test]
fn highest_ignores_offline_records() {
    let mut fleet = new_fleet(3);
    let _ = fleet[0].check_tip_response(Some(b"{\"result\": {\"number\": \"0x10\"}}"));
    let _ = fleet[1].check_tip_response(Some(b"{\"result\": {\"number\": \"0x64\"}}"));
    let _ = fleet[2].check_tip_response(Some(b"{\"result\": {\"number\": \"0x5\"}}"));
    assert_eq!(highest_block(&fleet), 100);
    let _ = fleet[1].apply_liveness(LivenessOutcome::NoResponse, 1000);
    assert_eq!(highest_block(&fleet), 16);
}

#[test]
fn highest_is_zero_when_none_online() {
    let mut fleet = new_fleet(2);
    let _ = fleet[0].apply_liveness(LivenessOutcome::NoResponse, 1000);
    let _ = fleet[1].apply_liveness(LivenessOutcome::ErrorResponse, 1000);
    assert_eq!(highest_block(&fleet), 0);
}

#[test]
fn lag_threshold_is_strict() {
    let mut r = ClientRecord::new(0);
    let _ = r.check_tip_response(Some(b"{\"result\": {\"number\": \"0x46\"}}"));
    assert_eq!(r.block_height, 70);
    assert!(!record_lags(&r, 100));
    assert!(record_lags(&r, 101));
}

#[test]
fn offline_record_never_lags() {
    let mut r = ClientRecord::new(0);
    let _ = r.apply_liveness(LivenessOutcome::NoResponse, 1000);
    assert!(!record_lags(&r, 1000));
}

#[test]
fn lagging_report_carries_gap_and_height() {
    let mut fleet = new_fleet(3);
    let _ = fleet[0].check_tip_response(Some(b"{\"result\": {\"number\": \"0x64\"}}"));
    let _ = fleet[1].check_tip_response(Some(b"{\"result\": {\"number\": \"0x3c\"}}"));
    let _ = fleet[2].check_tip_response(Some(b"{\"result\": {\"number\": \"0x50\"}}"));
    let highest = highest_block(&fleet);
    assert_eq!(highest, 100);
    let warnings = lagging_report(&fleet, highest);
    assert_eq!(warnings.len(), 1);
    assert_eq!(warnings[0].index, 1);
    assert_eq!(warnings[0].gap, 40);
    assert_eq!(warnings[0].height, 60);
}

#[test]
fn partition_groups_by_peers_and_status() {
    let mut fleet = new_fleet(5);
    let _ = fleet[1].check_peers_response(Some(b"{\"result\": [1]}"));
    let _ = fleet[2].check_peers_response(Some(b"{\"result\": [1, 2, 3]}"));
    let _ = fleet[3].apply_liveness(LivenessOutcome::NoResponse, 1000);
    let g = partition_records(&fleet);
    assert_eq!(g.zero_peers, vec![0, 4]);
    assert_eq!(g.one_peer, vec![1]);
    assert_eq!(g.offline, vec![3]);
}

#[test]
fn sweep_scenario_of_three_records() {
    // One sweep over three records: the first answers everything, the second
    // fails transport on liveness, the third answers with five peers and a
    // low height.
    let mut fleet = new_fleet(3);
    let now: i64 = 1000;

    let e = fleet[0].apply_liveness(LivenessOutcome::Success, now);
    assert_eq!(e, None);
    let e = fleet[0].check_peers_response(Some(b"{\"result\": []}"));
    assert_eq!(e, None);
    let e = fleet[0].check_tip_response(Some(b"{\"result\": {\"number\": \"0x10\"}}"));
    assert_eq!(e, None);

    let e = fleet[1].apply_liveness(LivenessOutcome::NoResponse, now);
    assert!(e.is_some());

    let e = fleet[2].apply_liveness(LivenessOutcome::Success, now);
    assert_eq!(e, None);
    let e = fleet[2].check_peers_response(Some(b"{\"result\": [1, 2, 3, 4, 5]}"));
    assert_eq!(e, None);
    let e = fleet[2].check_tip_response(Some(b"{\"result\": {\"number\": \"0x5\"}}"));
    assert_eq!(e, None);

    let highest = highest_block(&fleet);
    assert_eq!(highest, 16);

    // A gap of 11 blocks stays inside the threshold: nothing lags.
    let warnings = lagging_report(&fleet, highest);
    assert_eq!(warnings.len(), 0);

    let g = partition_records(&fleet);
    assert_eq!(g.zero_peers, vec![0]);
    assert_eq!(g.one_peer, Vec::<usize>::new());
    assert_eq!(g.offline, vec![1]);

    // Push the gap over the threshold: 100 against 60 lags by 40.
    let _ = fleet[2].check_tip_response(Some(b"{\"result\": {\"number\": \"0x3c\"}}"));
    let _ = fleet[0].check_tip_response(Some(b"{\"result\": {\"number\": \"0x64\"}}"));
    let highest = highest_block(&fleet);
    assert_eq!(highest, 100);
    let warnings = lagging_report(&fleet, highest);
    assert_eq!(warnings.len(), 1);
    assert_eq!(warnings[0].index, 2);
    assert_eq!(warnings[0].gap, 40);
}
