use algolia_monitoring_rs::{
    AlgoliaMonitoring, Error, Incidents, Inventory, Metrics, Request, Status,
};
use reqwest::header::HeaderValue;

fn create_algolia_monitoring() -> AlgoliaMonitoring {
    AlgoliaMonitoring::new(Some("your_api_key".to_string()), Some("your_app_id".to_string()))
}

fn client_of(api_key: &str, app_id: &str) -> AlgoliaMonitoring {
    AlgoliaMonitoring::new(Some(api_key.to_string()), Some(app_id.to_string()))
}

fn names(list: &[&str]) -> Vec<String> {
    list.iter().map(|name| name.to_string()).collect()
}

fn header_text<T>(request: &Request<T>, name: &str) -> String {
    let value = request.headers.get(name).expect("the header is missing");
    String::from_utf8(value.as_bytes().to_vec()).expect("the header is not UTF-8")
}

fn carries_both<T>(offer: Result<Request<T>, Error>) {
    let request = match offer {
        Ok(request) => request,
        Err(error) => panic!("no request: {}", error.reason),
    };
    assert_eq!(request.headers.len(), 2);
    assert_eq!(request.headers.keys_len(), 2);
    assert_eq!(header_text(&request, "X-Algolia-API-Key"), "your_api_key");
    assert_eq!(header_text(&request, "X-Algolia-Application-Id"), "your_app_id");
}

fn fails_to_parse<T>(offer: Result<Request<T>, Error>) {
    match offer {
        Ok(request) => panic!("a request for {}", request.path),
        Err(error) => assert_eq!(error.reason, "failed to parse header value"),
    }
}

#[test]
fn test_new() {
    let algolia_monitoring = create_algolia_monitoring();
    assert_eq!(algolia_monitoring.api_key(), "your_api_key");
    assert_eq!(algolia_monitoring.app_id(), "your_app_id");
}

#[test]
fn endpoint_is_the_fixed_origin() {
    let client = create_algolia_monitoring();
    assert_eq!(client.get_endpoint(), "https://status.algolia.com/1");
}

#[test]
fn every_operation_carries_both_credentials() {
    let client = create_algolia_monitoring();
    carries_both(client.get_status(None));
    carries_both(client.get_status(Some(names(&["a", "b"]))));
    carries_both(client.get_incidents(None));
    carries_both(client.get_incidents(Some(names(&["a"]))));
    carries_both(client.get_inventory());
    carries_both(client.get_latency(names(&["m1"])));
    carries_both(client.get_reachability(names(&["m1", "m2"])));
    carries_both(client.get_infrastructure_metrics("cpu_usage".to_string(), "day".to_string()));
}

#[test]
fn headers_follow_the_credentials_given() {
    let client = client_of("k-1", "APP 2");
    let headers = client.get_http_headers().unwrap();
    assert_eq!(headers.len(), 2);
    assert_eq!(headers.get("x-algolia-api-key").unwrap().as_bytes(), b"k-1");
    assert_eq!(headers.get("x-algolia-application-id").unwrap().as_bytes(), b"APP 2");
    let mut stored: Vec<String> = headers.keys().map(|name| name.as_str().to_string()).collect();
    stored.sort();
    assert_eq!(stored, vec!["x-algolia-api-key".to_string(), "x-algolia-application-id".to_string()]);
}

#[test]
fn credentials_beyond_ascii_travel_as_utf8() {
    let client = client_of("cl\u{e9}", "\u{65e5}\u{672c}");
    assert!(client.is_sendable());
    let request = client.get_inventory().unwrap();
    assert_eq!(request.headers.get("X-Algolia-API-Key").unwrap().as_bytes(), "cl\u{e9}".as_bytes());
    assert_eq!(header_text(&request, "X-Algolia-Application-Id"), "\u{65e5}\u{672c}");
}

#[test]
fn empty_credentials_are_sent_empty() {
    let client = client_of("", "");
    assert!(client.is_sendable());
    let headers = client.get_http_headers().unwrap();
    assert_eq!(headers.len(), 2);
    assert_eq!(headers.get("X-Algolia-API-Key").unwrap().as_bytes(), b"");
    assert_eq!(headers.get("X-Algolia-Application-Id").unwrap().as_bytes(), b"");
}

#[test]
fn credentials_with_control_characters_cannot_be_sent() {
    assert!(!client_of("a\nb", "id").is_sendable());
    assert!(!client_of("key", "i\u{7f}d").is_sendable());
    assert!(!client_of("\u{0}", "\r").is_sendable());
    assert!(client_of("a\tb", "a b").is_sendable());
}

#[test]
fn a_client_that_cannot_send_offers_the_failure() {
    let clients = vec![
        client_of("a\nb", "id"),
        client_of("key", "i\u{7f}d"),
        client_of("\u{1}", "\u{2}"),
    ];
    for client in &clients {
        match client.get_http_headers() {
            Ok(_) => panic!("headers for a credential that cannot be sent"),
            Err(error) => assert_eq!(error.reason, "failed to parse header value"),
        }
        fails_to_parse(client.get_status(None));
        fails_to_parse(client.get_incidents(Some(names(&["a"]))));
        fails_to_parse(client.get_inventory());
        fails_to_parse(client.get_latency(names(&["m1"])));
        fails_to_parse(client.get_reachability(names(&["m1"])));
        fails_to_parse(client.get_infrastructure_metrics("*".to_string(), "hour".to_string()));
        fails_to_parse(client.request::<Inventory>("inventory".to_string()));
    }
}

#[test]
fn the_failure_is_the_transports_own_message() {
    let complaint = HeaderValue::from_str("a\nb").unwrap_err();
    let client = client_of("a\nb", "id");
    match client.get_inventory() {
        Ok(request) => panic!("a request for {}", request.path),
        Err(error) => assert_eq!(error.reason, complaint.to_string()),
    }
}

#[test]
fn each_operation_names_its_result() {
    let client = create_algolia_monitoring();
    let _status: Request<Status> = client.get_status(None).unwrap();
    let _incidents: Request<Incidents> = client.get_incidents(None).unwrap();
    let _inventory: Request<Inventory> = client.get_inventory().unwrap();
    let _latency: Request<Metrics> = client.get_latency(names(&["m1"])).unwrap();
    let _reachability: Request<Metrics> = client.get_reachability(names(&["m1"])).unwrap();
    let _metrics: Request<Metrics> = client
        .get_infrastructure_metrics("cpu_usage".to_string(), "day".to_string())
        .unwrap();
}

#[test]
fn a_request_names_the_url_of_its_path() {
    let client = create_algolia_monitoring();
    let request = client.request::<Status>("status/a,b".to_string()).unwrap();
    assert_eq!(request.path, "status/a,b");
    assert_eq!(request.url, "https://status.algolia.com/1/status/a,b");
    assert_eq!(request.url, format!("{}/{}", client.get_endpoint(), request.path));
}

#[test]
fn status_path_without_servers_is_the_bare_prefix() {
    let request = create_algolia_monitoring().get_status(None).unwrap();
    assert_eq!(request.path, "status");
    assert_eq!(request.url, "https://status.algolia.com/1/status");
}

#[test]
fn status_path_with_servers_ends_in_their_names() {
    let request = create_algolia_monitoring().get_status(Some(names(&["a", "b"]))).unwrap();
    assert_eq!(request.path, "status/a,b");
    assert!(request.path.ends_with("a,b"));
    assert_eq!(request.url, "https://status.algolia.com/1/status/a,b");
}

#[test]
fn incidents_path_without_servers_is_the_bare_prefix() {
    let request = create_algolia_monitoring().get_incidents(None).unwrap();
    assert_eq!(request.path, "incidents/");
    assert_eq!(request.url, "https://status.algolia.com/1/incidents/");
}

#[test]
fn incidents_path_with_servers_ends_in_their_names() {
    let request = create_algolia_monitoring().get_incidents(Some(names(&["a", "b"]))).unwrap();
    assert_eq!(request.path, "incidents/a,b");
    assert!(request.path.ends_with("a,b"));
}

#[test]
fn an_empty_server_list_leaves_the_slash() {
    let client = create_algolia_monitoring();
    assert_eq!(client.get_status(Some(Vec::new())).unwrap().path, "status/");
    assert_eq!(client.get_incidents(Some(Vec::new())).unwrap().path, "incidents/");
    assert_eq!(client.get_latency(Vec::new()).unwrap().path, "latency/");
    assert_eq!(client.get_reachability(Vec::new()).unwrap().path, "reachability//probes");
}

#[test]
fn inventory_path_is_fixed() {
    let request = create_algolia_monitoring().get_inventory().unwrap();
    assert_eq!(request.path, "inventory");
    assert_eq!(request.url, "https://status.algolia.com/1/inventory");
}

#[test]
fn latency_path_of_one_server() {
    let request = create_algolia_monitoring().get_latency(names(&["m1"])).unwrap();
    assert_eq!(request.path, "latency/m1");
}

#[test]
fn reachability_path_of_two_servers() {
    let request = create_algolia_monitoring().get_reachability(names(&["m1", "m2"])).unwrap();
    assert_eq!(request.path, "reachability/m1,m2/probes");
    assert_eq!(request.url, "https://status.algolia.com/1/reachability/m1,m2/probes");
}

#[test]
fn infrastructure_path_of_a_metric_and_a_period() {
    let request = create_algolia_monitoring()
        .get_infrastructure_metrics("cpu_usage".to_string(), "day".to_string())
        .unwrap();
    assert_eq!(request.path, "infrastructure/cpu_usage/period/day");
    assert_eq!(
        request.url,
        "https://status.algolia.com/1/infrastructure/cpu_usage/period/day"
    );
}

#[test]
fn metric_and_period_pass_through_unchecked() {
    let client = create_algolia_monitoring();
    assert_eq!(
        client.get_infrastructure_metrics("*".to_string(), "month".to_string()).unwrap().path,
        "infrastructure/*/period/month"
    );
    assert_eq!(
        client.get_infrastructure_metrics("no such".to_string(), String::new()).unwrap().path,
        "infrastructure/no such/period/"
    );
}

#[test]
fn names_are_joined_as_given() {
    let client = create_algolia_monitoring();
    let odd = client.get_latency(names(&["a", "", "c,d", "\u{e9}"])).unwrap();
    assert_eq!(odd.path, "latency/a,,c,d,\u{e9}");
    assert_eq!(client.get_latency(names(&["only"])).unwrap().path, "latency/only");
    assert_eq!(client.get_latency(names(&["x", "y", "z"])).unwrap().path, "latency/x,y,z");
}
