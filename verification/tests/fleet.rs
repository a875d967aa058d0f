use cfctl::destroy::render_pids;
use cfctl::fleet::{
    instance_ids, list_instances, plan_prune, prune_choice, PruneChoice, PruneMode, PruneRequest,
};
use cfctl::lite::candidate_ports;
use cfctl::metadata::InstanceMetadata;
use cfctl::protocol::{
    error_detail, InstanceActionResponse, InstanceState, InstanceSummary, Response,
};
use cfctl::session::{
    respond_broken_off, respond_coded, respond_create_failed, respond_failed, respond_plain,
    respond_pruned,
};
use cfctl::stop::stop_state;
use cfctl::guest::ExitStatusInfo;

fn record(id: u64, state: InstanceState, updated_at: u64, held: bool) -> InstanceMetadata {
    InstanceMetadata {
        id,
        purpose: None,
        adb_port: 6520,
        state,
        boot_image: String::new(),
        init_boot_image: String::new(),
        created_at: 1,
        updated_at,
        held,
    }
}

#[test]
fn directory_names_are_read_as_ids() {
    let names: Vec<String> = ["3", "x", "12", "", "+4", "007", "-1", "1.5"].iter().map(|s| s.to_string()).collect();
    assert_eq!(instance_ids(&names), vec![3, 12, 4, 7]);
}

#[test]
fn listing_sorts_by_id_and_keeps_reading_order_among_equals() {
    let mut twin = record(2, InstanceState::Failed, 0, false);
    twin.adb_port = 7000;
    let records = vec![
        Ok(record(5, InstanceState::Running, 0, false)),
        Err("unreadable".to_string()),
        Ok(record(2, InstanceState::Created, 0, false)),
        Ok(record(9, InstanceState::Destroyed, 0, false)),
        Ok(twin),
        Ok(record(1, InstanceState::Stopped, 0, true)),
    ];
    let listed = list_instances(&records, "h");
    let seen: Vec<(u64, InstanceState, u16)> = listed.iter().map(|s| (s.id, s.state, s.adb.as_ref().unwrap().port)).collect();
    assert_eq!(
        seen,
        vec![
            (1, InstanceState::Stopped, 6520),
            (2, InstanceState::Created, 6520),
            (2, InstanceState::Failed, 7000),
            (5, InstanceState::Running, 6520),
        ]
    );
    assert_eq!(listed[0].adb.as_ref().unwrap().serial, "h:6520");
    assert!(list_instances(&Vec::new(), "h").is_empty());
}

#[test]
fn held_instances_are_never_chosen_for_pruning() {
    let expired = PruneMode::Expired { cutoff: 100 };
    for state in [InstanceState::Created, InstanceState::Running, InstanceState::Failed, InstanceState::Stopped] {
        for age in [0, 100, 101, u64::MAX] {
            assert_ne!(prune_choice(&record(1, state, age, true), expired), PruneChoice::Prune);
            assert_ne!(prune_choice(&record(1, state, age, true), PruneMode::All), PruneChoice::Prune);
        }
    }
    assert_eq!(prune_choice(&record(1, InstanceState::Running, 100, false), expired), PruneChoice::Prune);
    assert_eq!(prune_choice(&record(1, InstanceState::Running, 101, false), expired), PruneChoice::Skip);
    assert_eq!(prune_choice(&record(1, InstanceState::Running, 0, true), expired), PruneChoice::Skip);
    assert_eq!(prune_choice(&record(1, InstanceState::Running, 0, true), PruneMode::All), PruneChoice::Skip);
    assert_eq!(prune_choice(&record(1, InstanceState::Destroyed, 0, false), PruneMode::All), PruneChoice::Skip);
    assert_eq!(prune_choice(&record(1, InstanceState::Created, u64::MAX, false), PruneMode::All), PruneChoice::Prune);
}

#[test]
fn a_prune_is_planned_over_the_records() {
    let ids = vec![1, 2, 3, 4, 5];
    let records = vec![
        Ok(record(1, InstanceState::Running, 10, false)),
        Ok(record(2, InstanceState::Running, 10, true)),
        Err("unreadable".to_string()),
        Ok(record(4, InstanceState::Destroyed, 10, false)),
        Ok(record(5, InstanceState::Stopped, 500, false)),
    ];
    let by_age = plan_prune(&ids, &records, PruneMode::Expired { cutoff: 100 });
    assert_eq!(by_age, vec![1]);
    let all = plan_prune(&ids, &records, PruneMode::All);
    assert_eq!(all, vec![1, 5]);
    let short = plan_prune(&vec![1], &records, PruneMode::All);
    assert_eq!(short, vec![1]);
    let held_only = plan_prune(&vec![2], &vec![Ok(record(2, InstanceState::Running, 10, true))], PruneMode::All);
    assert_eq!(held_only, Vec::<u64>::new());
}

#[test]
fn process_lists_are_rendered_in_brackets() {
    assert_eq!(render_pids(&vec![]), "[]");
    assert_eq!(render_pids(&vec![7]), "[7]");
    assert_eq!(render_pids(&vec![7, -1, 300]), "[7, -1, 300]");
    assert_eq!(render_pids(&vec![7, -1, 300]), format!("{:?}", vec![7, -1, 300]));
}

#[test]
fn the_state_after_an_exit() {
    assert_eq!(stop_state(Some(ExitStatusInfo { code: Some(0), signal: None })), InstanceState::Stopped);
    assert_eq!(stop_state(Some(ExitStatusInfo { code: Some(1), signal: None })), InstanceState::Failed);
    assert_eq!(stop_state(Some(ExitStatusInfo { code: None, signal: Some(9) })), InstanceState::Failed);
    assert_eq!(stop_state(None), InstanceState::Stopped);
}

fn failure(response: &Response) -> (String, Option<String>) {
    let detail = response.error.clone().expect("an error with a code");
    (detail.code, detail.message)
}

#[test]
fn responses_are_worded_by_result() {
    let action = InstanceActionResponse::of_summary(InstanceSummary { id: 1, adb: None, state: InstanceState::Running });
    let ok = respond_coded(Ok(action.clone()));
    assert!(ok.ok && ok.action.is_some() && ok.error.is_none() && ok.message.is_none());
    let failed = respond_coded(Err(error_detail("c", "m".to_string())));
    assert!(!failed.ok && failed.action.is_none());
    assert_eq!(failed.error.unwrap().code, "c");
    let plain = respond_plain("stop_instance_failed", Err("why".to_string()));
    assert!(!plain.ok && plain.message.is_none());
    assert_eq!(failure(&plain), ("stop_instance_failed".to_string(), Some("why".to_string())));
    assert!(respond_plain("stop_instance_failed", Ok(action)).ok);
    let lost = respond_failed("list_instances_failed", "no such directory".to_string());
    assert!(!lost.ok && lost.message.is_none() && lost.instances.is_none());
    assert_eq!(failure(&lost), ("list_instances_failed".to_string(), Some("no such directory".to_string())));
    let broken = respond_broken_off("task panicked".to_string());
    assert_eq!(failure(&broken), ("request_failed".to_string(), Some("task panicked".to_string())));
    let create = respond_create_failed("disk full".to_string());
    let detail = create.error.unwrap();
    assert_eq!(detail.code, "create_start_create_failed");
    assert_eq!(detail.message.as_deref(), Some("disk full"));
    let age = PruneRequest::Expired { max_age_secs: 5 };
    assert_eq!(respond_pruned(age, Ok((2, 0))).message.as_deref(), Some("pruned 2 expired instances"));
    assert_eq!(respond_pruned(age, Ok((0, 3))).message.as_deref(), Some("pruned 0 expired instances; 3 still running"));
    assert_eq!(respond_pruned(PruneRequest::All, Ok((1, 1))).message.as_deref(), Some("pruned 1 instances; 1 still running"));
    let bad = respond_pruned(PruneRequest::All, Err("list failed".to_string()));
    assert!(!bad.ok && bad.message.is_none());
    assert_eq!(failure(&bad), ("prune_all_failed".to_string(), Some("list failed".to_string())));
    let aged = respond_pruned(age, Err("list failed".to_string()));
    assert_eq!(failure(&aged), ("prune_expired_failed".to_string(), Some("list failed".to_string())));
}

#[test]
fn candidate_ports_follow_the_instance_numbers() {
    let ports = candidate_ports(7200);
    assert_eq!(ports.len(), 90);
    assert_eq!(ports[0], 7209);
    assert_eq!(ports[89], 7298);
    assert_eq!(candidate_ports(65530)[0], 3);
}
