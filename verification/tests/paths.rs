use algolia_monitoring_rs::path::{
    incidents_path_for, infrastructure_path_for, inventory_path_for, join_names, latency_path_for,
    reachability_path_for, status_path_for,
};

fn servers(list: &[&str]) -> Vec<String> {
    list.iter().map(|name| name.to_string()).collect()
}

#[test]
fn joining_no_names_gives_nothing() {
    assert_eq!(join_names(&Vec::new()), "");
}

#[test]
fn joining_one_name_gives_the_name() {
    assert_eq!(join_names(&servers(&["m1"])), "m1");
}

#[test]
fn joining_puts_commas_between_names_only() {
    assert_eq!(join_names(&servers(&["m1", "m2"])), "m1,m2");
    assert_eq!(join_names(&servers(&["a", "b", "c", "d"])), "a,b,c,d");
    assert_eq!(join_names(&servers(&["", ""])), ",");
}

#[test]
fn path_builders_give_the_templates() {
    assert_eq!(status_path_for(&None), "status");
    assert_eq!(status_path_for(&Some(servers(&["a", "b"]))), "status/a,b");
    assert_eq!(incidents_path_for(&None), "incidents/");
    assert_eq!(incidents_path_for(&Some(servers(&["a", "b"]))), "incidents/a,b");
    assert_eq!(inventory_path_for(), "inventory");
    assert_eq!(latency_path_for(&servers(&["m1"])), "latency/m1");
    assert_eq!(reachability_path_for(&servers(&["m1", "m2"])), "reachability/m1,m2/probes");
    assert_eq!(infrastructure_path_for("cpu_usage", "day"), "infrastructure/cpu_usage/period/day");
    assert_eq!(infrastructure_path_for("ssd_usage", "minute"), "infrastructure/ssd_usage/period/minute");
}
