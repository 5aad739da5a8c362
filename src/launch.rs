use vstd::prelude::*;

use crate::mode::{DeploymentMode, StreamPolicy, stream_policy, stream_policy_spec};
use crate::path::{join_relative, join_spec};

verus! {

/// How the background server is to be started: the program looked up on the
/// executable search path, its arguments, the directory it runs in, and what
/// becomes of its output.
#[derive(Clone, Debug)]
pub struct LaunchPlan {
    pub program: String,
    pub args: Vec<String>,
    pub dir: String,
    pub streams: StreamPolicy,
}

pub struct LaunchPlanView {
    pub program: Seq<char>,
    pub args: Seq<Seq<char>>,
    pub dir: Seq<char>,
    pub streams: StreamPolicy,
}

impl View for LaunchPlan {
    type V = LaunchPlanView;

    open spec fn view(&self) -> LaunchPlanView {
        LaunchPlanView {
            program: self.program@,
            args: self.args@.map_values(|a: String| a@),
            dir: self.dir@,
            streams: self.streams,
        }
    }
}

/// The directory the server runs in: the web overlay under the working directory.
pub open spec fn server_dir_spec(working_dir: Seq<char>) -> Seq<char> {
    join_spec(working_dir, "web"@)
}

pub open spec fn plan_spec(working_dir: Seq<char>, mode: DeploymentMode) -> LaunchPlanView {
    LaunchPlanView {
        program: "node"@,
        args: seq!["server.js"@],
        dir: server_dir_spec(working_dir),
        streams: stream_policy_spec(mode),
    }
}

/// The web overlay directory under `working_dir`.
pub fn server_dir(working_dir: &str) -> (r: String)
    ensures
        r@ == server_dir_spec(working_dir@),
{
    let name = "web";
    proof {
        reveal_strlit("web");
    }
    join_relative(working_dir, name)
}

/// Plans the start of the server from the launcher's working directory: the
/// JavaScript runtime runs the entry script in the web overlay directory, with
/// its output let through in debug builds and discarded in release builds.
pub fn plan_launch(working_dir: &str, mode: DeploymentMode) -> (r: LaunchPlan)
    ensures
        r@ == plan_spec(working_dir@, mode),
{
    let program = String::from_str("node");
    let mut args: Vec<String> = Vec::new();
    args.push(String::from_str("server.js"));
    let dir = server_dir(working_dir);
    let streams = stream_policy(mode);
    let r = LaunchPlan { program, args, dir, streams };
    assert(r@.args =~= seq!["server.js"@]);
    r
}

} // verus!
