use vstd::prelude::*;

verus! {

/// The resource locations the worker is started with, resolved by the host.
#[derive(Debug)]
pub struct ResolvedResources {
    /// The directory that holds the worker's services.
    pub base_dir: String,
    /// The main service, inside `base_dir`.
    pub main_service: String,
    /// The event worker, inside `base_dir`.
    pub event_worker: String,
}

/// How the worker is started; built once per spawn and not changed after.
#[derive(Debug)]
pub struct LaunchSpec {
    /// The name under which the host knows the worker's executable.
    pub program: String,
    pub args: Vec<String>,
    /// Environment variables set for the worker, as name and value.
    pub envs: Vec<(String, String)>,
}

pub open spec fn strings(v: Seq<String>) -> Seq<Seq<char>> {
    v.map_values(|s: String| s@)
}

pub open spec fn pairs(v: Seq<(String, String)>) -> Seq<(Seq<char>, Seq<char>)> {
    v.map_values(|p: (String, String)| (p.0@, p.1@))
}

/// The arguments the worker gets: its services' paths and its port.
pub open spec fn launch_args(main_service: Seq<char>, event_worker: Seq<char>) -> Seq<Seq<char>> {
    seq![
        "start"@,
        "--main-service"@,
        main_service,
        "--event-worker"@,
        event_worker,
        "-p"@,
        "24321"@,
    ]
}

/// Builds the worker's launch command from the resolved resource locations:
/// `start --main-service <main> --event-worker <event> -p 24321`, with
/// `SERVICE_BASE_DIR` set to the resource directory.
pub fn launch_spec(resources: ResolvedResources) -> (r: LaunchSpec)
    ensures
        r.program@ == "edge-runtime"@,
        strings(r.args@) == launch_args(resources.main_service@, resources.event_worker@),
        pairs(r.envs@) == seq![("SERVICE_BASE_DIR"@, resources.base_dir@)],
{
    let ResolvedResources { base_dir, main_service, event_worker } = resources;
    let mut args: Vec<String> = Vec::new();
    args.push("start".to_owned());
    args.push("--main-service".to_owned());
    args.push(main_service);
    args.push("--event-worker".to_owned());
    args.push(event_worker);
    args.push("-p".to_owned());
    args.push("24321".to_owned());
    let mut envs: Vec<(String, String)> = Vec::new();
    envs.push(("SERVICE_BASE_DIR".to_owned(), base_dir));
    let r = LaunchSpec { program: "edge-runtime".to_owned(), args, envs };
    proof {
        assert(strings(r.args@) =~= launch_args(resources.main_service@, resources.event_worker@));
        assert(pairs(r.envs@) =~= seq![("SERVICE_BASE_DIR"@, resources.base_dir@)]);
    }
    r
}

} // verus!
