use forest_sync::sector::{SectorID, SectorSize};
use forest_sync::state_api::{fault_cutoff, push_recent_faults, state_all_miner_faults, state_wait_msg, Fault};

#[test]
fn sector_sizes_in_bytes() {
    assert_eq!(SectorSize::_2KiB.bytes(), 2 << 10);
    assert_eq!(SectorSize::_8MiB.bytes(), 8 << 20);
    assert_eq!(SectorSize::_512MiB.bytes(), 512 << 20);
    assert_eq!(SectorSize::_32GiB.bytes(), 32 << 30);
    assert_eq!(SectorSize::_64GiB.bytes(), 2 * (32 << 30));
}

#[test]
fn sector_size_round_trip() {
    for s in [
        SectorSize::_2KiB,
        SectorSize::_8MiB,
        SectorSize::_512MiB,
        SectorSize::_32GiB,
        SectorSize::_64GiB,
    ] {
        assert_eq!(SectorSize::from_u64(s.bytes()), Some(s));
    }
}

#[test]
fn sector_size_from_other_counts_is_none() {
    assert_eq!(SectorSize::from_u64(0), None);
    assert_eq!(SectorSize::from_u64(2047), None);
    assert_eq!(SectorSize::from_u64(4096), None);
    assert_eq!(SectorSize::from_u64(u64::MAX), None);
}

#[test]
fn sector_id_default_is_zero() {
    let id = SectorID::default();
    assert_eq!(id, SectorID { miner: 0, number: 0 });
}

#[test]
fn wait_msg_found() {
    let res = state_wait_msg(Some(("tipset", 17u32)));
    let lookup = res.ok().unwrap();
    assert_eq!(lookup.receipt, 17);
    assert_eq!(lookup.tipset, "tipset");
}

#[test]
fn wait_msg_not_found() {
    let res = state_wait_msg::<u32, &str>(None);
    assert_eq!(res.err(), Some("wait for msg returned empty tuple".to_string()));
}

#[test]
fn cutoff_is_epoch_minus_look_back() {
    assert_eq!(fault_cutoff(100, 30), 70);
    assert_eq!(fault_cutoff(5, 5), 0);
}

fn pairs(faults: &[Fault<u32>]) -> Vec<(u32, u64)> {
    faults.iter().map(|f| (f.miner, f.fault)).collect()
}

#[test]
fn recent_faults_of_one_miner() {
    let mut all = vec![Fault { miner: 9u32, fault: 1 }];
    push_recent_faults(&mut all, 3u32, &vec![10, 70, 69, 100, 71], 70);
    assert_eq!(pairs(&all), vec![(9, 1), (3, 70), (3, 100), (3, 71)]);
}

#[test]
fn recent_faults_of_all_miners() {
    let miners: Vec<(u32, Result<Vec<u64>, String>)> = vec![
        (1, Ok(vec![50, 95])),
        (2, Ok(vec![])),
        (3, Ok(vec![90, 91, 89])),
    ];
    let res = state_all_miner_faults(100, 10, &miners).ok().unwrap();
    assert_eq!(pairs(&res), vec![(1, 95), (3, 90), (3, 91)]);
}

#[test]
fn faults_stop_at_the_first_error() {
    let miners: Vec<(u32, Result<Vec<u64>, String>)> = vec![
        (1, Ok(vec![95])),
        (2, Err("no state".to_string())),
        (3, Err("later".to_string())),
    ];
    let res = state_all_miner_faults(100, 10, &miners);
    assert_eq!(res.err(), Some("no state".to_string()));
}

#[test]
fn longer_look_back_only_adds_older_faults() {
    let miners: Vec<(u32, Result<Vec<u64>, String>)> = vec![
        (1, Ok(vec![50, 95, 80])),
        (2, Ok(vec![85, 99])),
    ];
    let short = state_all_miner_faults(100, 10, &miners).ok().unwrap();
    let long = state_all_miner_faults(100, 30, &miners).ok().unwrap();
    assert_eq!(pairs(&long), vec![(1, 95), (1, 80), (2, 85), (2, 99)]);
    let filtered: Vec<(u32, u64)> = pairs(&long).into_iter().filter(|p| p.1 >= 90).collect();
    assert_eq!(pairs(&short), filtered);
}

#[test]
fn reported_faults_belong_to_listed_miners_and_are_recent() {
    let miners: Vec<(u32, Result<Vec<u64>, String>)> = vec![
        (4, Ok(vec![10, 60])),
        (5, Ok(vec![59, 61])),
    ];
    let res = state_all_miner_faults(70, 10, &miners).ok().unwrap();
    assert_eq!(pairs(&res), vec![(4, 60), (5, 61)]);
    for f in &res {
        assert!(f.fault >= 60);
        assert!(miners.iter().any(|(m, e)| *m == f.miner && e.as_ref().unwrap().contains(&f.fault)));
    }
}

#[test]
fn same_inputs_give_the_same_faults() {
    let miners: Vec<(u32, Result<Vec<u64>, String>)> = vec![(7, Ok(vec![3, 9, 8]))];
    let a = state_all_miner_faults(10, 2, &miners).ok().unwrap();
    let b = state_all_miner_faults(10, 2, &miners).ok().unwrap();
    assert_eq!(pairs(&a), pairs(&b));
}
