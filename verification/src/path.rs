//! The resource path of each operation of the monitoring API.
//!
//! A path is what follows the endpoint and a slash in the request's URL. All
//! that varies from call to call is written into it: server names are joined
//! by commas, metric and period names stand as they are given. Nothing is
//! escaped and nothing is checked; the server decides what it recognises.

use vstd::prelude::*;
use vstd::string::*;

verus! {

/// The names of a list of servers, each as its text.
pub open spec fn names_of(servers: Seq<String>) -> Seq<Seq<char>> {
    servers.map_values(|server: String| server@)
}

/// The names of an optional list of servers.
pub open spec fn optional_names_of(servers: Option<Vec<String>>) -> Option<Seq<Seq<char>>> {
    match servers {
        Some(list) => Some(names_of(list@)),
        None => None,
    }
}

/// The names written one after the other with a comma between neighbours.
pub open spec fn comma_joined(names: Seq<Seq<char>>) -> Seq<char>
    decreases names.len(),
{
    if names.len() == 0 {
        Seq::empty()
    } else if names.len() == 1 {
        names[0]
    } else {
        comma_joined(names.drop_last()) + seq![','] + names.last()
    }
}

/// Path of the status of all servers, or of the named ones.
pub open spec fn status_path(servers: Option<Seq<Seq<char>>>) -> Seq<char> {
    match servers {
        Some(names) => "status/"@ + comma_joined(names),
        None => "status"@,
    }
}

/// Path of the incidents of all servers, or of the named ones.
pub open spec fn incidents_path(servers: Option<Seq<Seq<char>>>) -> Seq<char> {
    match servers {
        Some(names) => "incidents/"@ + comma_joined(names),
        None => "incidents/"@,
    }
}

/// Path of the inventory.
pub open spec fn inventory_path() -> Seq<char> {
    "inventory"@
}

/// Path of the latency of the named servers.
pub open spec fn latency_path(names: Seq<Seq<char>>) -> Seq<char> {
    "latency/"@ + comma_joined(names)
}

/// Path of the reachability of the named servers, as seen by the probes.
pub open spec fn reachability_path(names: Seq<Seq<char>>) -> Seq<char> {
    "reachability/"@ + comma_joined(names) + "/probes"@
}

/// Path of one infrastructure metric over one period.
pub open spec fn infrastructure_path(metric: Seq<char>, period: Seq<char>) -> Seq<char> {
    "infrastructure/"@ + metric + "/period/"@ + period
}

/// Whether `text` ends in `tail`.
pub open spec fn ends_in(text: Seq<char>, tail: Seq<char>) -> bool {
    tail.len() <= text.len() && text.subrange(text.len() - tail.len(), text.len() as int) == tail
}

/// Asking for the status or the incidents without a server list gives the
/// operation's bare prefix, with no server segment after it; with a list, the
/// path ends in the names of the list, joined by commas, and what stands before
/// them is the same for every list.
pub proof fn lemma_server_list_ends_path(names: Seq<Seq<char>>)
    ensures
        status_path(None) == "status"@,
        incidents_path(None) == "incidents/"@,
        status_path(Some(names)) == "status/"@ + comma_joined(names),
        incidents_path(Some(names)) == "incidents/"@ + comma_joined(names),
        ends_in(status_path(Some(names)), comma_joined(names)),
        ends_in(incidents_path(Some(names)), comma_joined(names)),
{
    let joined = comma_joined(names);
    assert(("status/"@ + joined).subrange("status/"@.len() as int, ("status/"@ + joined).len() as int)
        =~= joined);
    assert(("incidents/"@ + joined).subrange(
        "incidents/"@.len() as int,
        ("incidents/"@ + joined).len() as int,
    ) =~= joined);
}

/// Joining one more name: a comma goes before it unless it is the first.
pub proof fn lemma_comma_joined_push(names: Seq<Seq<char>>, name: Seq<char>)
    ensures
        comma_joined(names.push(name)) == if names.len() == 0 {
            name
        } else {
            comma_joined(names) + seq![','] + name
        },
{
    let longer = names.push(name);
    assert(longer.drop_last() == names);
    assert(longer.last() == name);
    if names.len() == 0 {
        assert(longer[0] == name);
    }
}

/// Writes the names of `servers` one after the other, separated by commas.
pub fn join_names(servers: &Vec<String>) -> (joined: String)
    ensures
        joined@ == comma_joined(names_of(servers@)),
{
    let mut joined = String::new();
    let mut i: usize = 0;
    while i < servers.len()
        invariant
            i <= servers.len(),
            joined@ == comma_joined(names_of(servers@).take(i as int)),
        decreases servers.len() - i,
    {
        proof {
            let names = names_of(servers@);
            assert(names.take(i + 1) == names.take(i as int).push(names[i as int]));
            lemma_comma_joined_push(names.take(i as int), names[i as int]);
        }
        if i > 0 {
            joined.append(",");
            proof {
                reveal_strlit(",");
                assert(","@ == seq![',']);
            }
        }
        joined.append(servers[i].as_str());
        i += 1;
    }
    proof {
        let names = names_of(servers@);
        assert(names.take(servers.len() as int) == names);
    }
    joined
}

/// Builds the path of the status operation.
pub fn status_path_for(servers: &Option<Vec<String>>) -> (path: String)
    ensures
        path@ == status_path(optional_names_of(*servers)),
{
    match servers {
        Some(list) => {
            let mut path = "status/".to_owned();
            let names = join_names(list);
            path.append(names.as_str());
            path
        },
        None => "status".to_owned(),
    }
}

/// Builds the path of the incidents operation.
pub fn incidents_path_for(servers: &Option<Vec<String>>) -> (path: String)
    ensures
        path@ == incidents_path(optional_names_of(*servers)),
{
    let mut path = "incidents/".to_owned();
    match servers {
        Some(list) => {
            let names = join_names(list);
            path.append(names.as_str());
        },
        None => {},
    }
    path
}

/// Builds the path of the inventory operation.
pub fn inventory_path_for() -> (path: String)
    ensures
        path@ == inventory_path(),
{
    "inventory".to_owned()
}

/// Builds the path of the latency operation.
pub fn latency_path_for(servers: &Vec<String>) -> (path: String)
    ensures
        path@ == latency_path(names_of(servers@)),
{
    let mut path = "latency/".to_owned();
    let names = join_names(servers);
    path.append(names.as_str());
    path
}

/// Builds the path of the reachability operation.
pub fn reachability_path_for(servers: &Vec<String>) -> (path: String)
    ensures
        path@ == reachability_path(names_of(servers@)),
{
    let mut path = "reachability/".to_owned();
    let names = join_names(servers);
    path.append(names.as_str());
    path.append("/probes");
    path
}

/// Builds the path of the infrastructure metrics operation.
pub fn infrastructure_path_for(metric: &str, period: &str) -> (path: String)
    ensures
        path@ == infrastructure_path(metric@, period@),
{
    let mut path = "infrastructure/".to_owned();
    path.append(metric);
    path.append("/period/");
    path.append(period);
    path
}

} // verus!
