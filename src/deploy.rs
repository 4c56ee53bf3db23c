use vstd::prelude::*;
use vstd::string::*;
use crate::pipeline::{PipelineConfig, PipelineModel, strings};
use crate::registry::{Registry, has_match, first_index};

verus! {

/// Where a deploy stands: the next outside step to run, or done.
#[derive(Clone, Copy, Debug, PartialEq, Eq, Structural)]
pub enum Stage {
    Build,
    Push,
    DeleteOld,
    CreateNew,
    Finished,
}

/// What a deploy reports to the user on the way.
#[derive(Debug)]
pub enum Notice {
    /// No pipeline has the requested name.
    NotFound(String),
    /// The image build exited with failure; nothing else is run.
    BuildFailed,
    /// The image push exited with failure; nothing else is run.
    PushFailed,
    /// Deleting the old deployment failed, as it does when there was none.
    NoDeploymentFound,
    /// Creating the new deployment failed.
    DeploymentFailed,
}

/// A program to run and its arguments.
#[derive(Debug)]
pub struct ProcessCall {
    pub program: String,
    pub args: Vec<String>,
}

impl View for ProcessCall {
    type V = (Seq<char>, Seq<Seq<char>>);

    open spec fn view(&self) -> (Seq<char>, Seq<Seq<char>>) {
        (self.program@, strings(self.args@))
    }
}

/// The image build: the configured flags in order, then the Dockerfile,
/// the tag, and the current directory as build context.
pub open spec fn build_call(p: PipelineModel) -> (Seq<char>, Seq<Seq<char>>) {
    (
        "docker"@,
        seq!["build"@] + p.docker_image_flags + seq![
            "-f"@,
            p.dockerfile_location,
            "-t"@,
            p.docker_image_tag,
            "."@,
        ],
    )
}

/// The image push to the configured repository.
pub open spec fn push_call(p: PipelineModel) -> (Seq<char>, Seq<Seq<char>>) {
    ("docker"@, seq!["push"@, p.push_repository])
}

/// The manifest step `verb` ("delete" or "create") on the configured manifest.
pub open spec fn manifest_call(p: PipelineModel, verb: Seq<char>) -> (Seq<char>, Seq<Seq<char>>) {
    ("kubectl"@, seq![verb, "-f"@, p.kubernetes_yaml_location])
}

/// The outside step that a stage runs, none once the deploy is finished.
pub open spec fn step_call(stage: Stage, p: PipelineModel) -> Option<(Seq<char>, Seq<Seq<char>>)> {
    match stage {
        Stage::Build => Some(build_call(p)),
        Stage::Push => Some(push_call(p)),
        Stage::DeleteOld => Some(manifest_call(p, "delete"@)),
        Stage::CreateNew => Some(manifest_call(p, "create"@)),
        Stage::Finished => None,
    }
}

/// The stage after the step of `stage` exited, with success or not. A
/// failed build or push ends the deploy; the manifest steps never do.
pub open spec fn next_stage(stage: Stage, succeeded: bool) -> Stage {
    match stage {
        Stage::Build => if succeeded { Stage::Push } else { Stage::Finished },
        Stage::Push => if succeeded { Stage::DeleteOld } else { Stage::Finished },
        Stage::DeleteOld => Stage::CreateNew,
        Stage::CreateNew => Stage::Finished,
        Stage::Finished => Stage::Finished,
    }
}

/// What is reported once the step of `stage` exited, with success or not.
pub open spec fn notice_after(stage: Stage, succeeded: bool) -> Option<Notice> {
    if succeeded {
        None
    } else {
        match stage {
            Stage::Build => Some(Notice::BuildFailed),
            Stage::Push => Some(Notice::PushFailed),
            Stage::DeleteOld => Some(Notice::NoDeploymentFound),
            Stage::CreateNew => Some(Notice::DeploymentFailed),
            Stage::Finished => None,
        }
    }
}

/// The text shown to the user for a notice.
pub open spec fn notice_text(n: Notice) -> Seq<char> {
    match n {
        Notice::NotFound(name) => "Pipeline '"@ + name@ + "' not found"@,
        Notice::BuildFailed => "Docker build failed"@,
        Notice::PushFailed => "Docker push failed"@,
        Notice::NoDeploymentFound => "No deployment found"@,
        Notice::DeploymentFailed => "Deployment failed"@,
    }
}

/// The outside steps that a driver runs from `stage`, calling `next_call`
/// and `record_exit` in turn, when the steps exit as `exits` says in order;
/// where `exits` runs out, the last step listed is the one still running.
pub open spec fn run_trace(stage: Stage, p: PipelineModel, exits: Seq<bool>) -> Seq<
    (Seq<char>, Seq<Seq<char>>),
>
    decreases exits.len(),
{
    match step_call(stage, p) {
        None => seq![],
        Some(c) => if exits.len() == 0 {
            seq![c]
        } else {
            seq![c] + run_trace(next_stage(stage, exits[0]), p, exits.drop_first())
        },
    }
}

/// The outside steps that deploying `name` from the records `s` runs, as
/// `Deployment::start` begins it.
pub open spec fn deploy_trace(s: Seq<PipelineModel>, name: Seq<char>, exits: Seq<bool>) -> Seq<
    (Seq<char>, Seq<Seq<char>>),
> {
    if has_match(s, name) {
        run_trace(Stage::Build, s[first_index(s, name)], exits)
    } else {
        seq![]
    }
}

/// Deploying a name that no record has runs no outside step at all.
pub proof fn law_unknown_name_runs_nothing(
    s: Seq<PipelineModel>,
    name: Seq<char>,
    exits: Seq<bool>,
)
    requires
        !has_match(s, name),
    ensures
        deploy_trace(s, name, exits) == Seq::<(Seq<char>, Seq<Seq<char>>)>::empty(),
{
}

/// Where the build fails, the build is the only outside step run: no push,
/// no delete and no create follow it.
pub proof fn law_failed_build_stops(s: Seq<PipelineModel>, name: Seq<char>, exits: Seq<bool>)
    requires
        has_match(s, name),
        exits.len() >= 1,
        !exits[0],
    ensures
        deploy_trace(s, name, exits) == seq![build_call(s[first_index(s, name)])],
{
    let p = s[first_index(s, name)];
    assert(run_trace(Stage::Finished, p, exits.drop_first()) =~= seq![]);
    assert(run_trace(Stage::Build, p, exits) =~= seq![build_call(p)]);
}

impl Notice {
    /// The text shown to the user.
    pub fn text(&self) -> (r: String)
        ensures
            r@ == notice_text(*self),
    {
        match self {
            Notice::NotFound(name) => {
                let r = String::from_str("Pipeline '");
                let r = r.concat(name.as_str());
                r.concat("' not found")
            },
            Notice::BuildFailed => String::from_str("Docker build failed"),
            Notice::PushFailed => String::from_str("Docker push failed"),
            Notice::NoDeploymentFound => String::from_str("No deployment found"),
            Notice::DeploymentFailed => String::from_str("Deployment failed"),
        }
    }
}

/// A deploy of one pipeline in progress.
#[derive(Debug)]
pub struct Deployment {
    pipeline: PipelineConfig,
    stage: Stage,
}

impl View for Deployment {
    type V = (Stage, PipelineModel);

    closed spec fn view(&self) -> (Stage, PipelineModel) {
        (self.stage, self.pipeline@)
    }
}

impl Deployment {
    /// Starts the deploy of the pipeline named `name`: its first step is the
    /// build. Where no pipeline has that name, nothing is to be run.
    pub fn start(registry: &Registry, name: &str) -> (r: Result<Deployment, Notice>)
        ensures
            match r {
                Ok(d) => has_match(registry@, name@) && d@ == (
                    Stage::Build,
                    registry@[first_index(registry@, name@)],
                ),
                Err(n) => !has_match(registry@, name@) && n is NotFound && n->NotFound_0@
                    == name@,
            },
    {
        match registry.find(name) {
            Some(p) => Ok(Deployment { pipeline: p.duplicate(), stage: Stage::Build }),
            None => Err(Notice::NotFound(String::from_str(name))),
        }
    }

    /// The stage the deploy is at.
    pub fn stage(&self) -> (r: Stage)
        ensures
            r == self@.0,
    {
        self.stage
    }

    /// The outside step to run now, or `None` once the deploy is finished.
    pub fn next_call(&self) -> (r: Option<ProcessCall>)
        ensures
            match r {
                Some(c) => step_call(self@.0, self@.1) == Some(c@),
                None => step_call(self@.0, self@.1) is None,
            },
    {
        let p = &self.pipeline;
        match self.stage {
            Stage::Build => {
                let mut args: Vec<String> = Vec::new();
                args.push(String::from_str("build"));
                let mut i: usize = 0;
                while i < p.docker_image_flags.len()
                    invariant
                        i <= p.docker_image_flags@.len(),
                        strings(args@) == seq!["build"@] + strings(
                            p.docker_image_flags@,
                        ).take(i as int),
                    decreases p.docker_image_flags.len() - i,
                {
                    let ghost before = args@;
                    args.push(p.docker_image_flags[i].clone());
                    assert(strings(args@) =~= strings(before).push(
                        p.docker_image_flags@[i as int]@,
                    ));
                    assert(strings(p.docker_image_flags@).take(i + 1) =~= strings(
                        p.docker_image_flags@,
                    ).take(i as int).push(p.docker_image_flags@[i as int]@));
                    i = i + 1;
                }
                let ghost flagged = args@;
                args.push(String::from_str("-f"));
                args.push(p.dockerfile_location.clone());
                args.push(String::from_str("-t"));
                args.push(p.docker_image_tag.clone());
                args.push(String::from_str("."));
                let c = ProcessCall { program: String::from_str("docker"), args };
                assert(strings(p.docker_image_flags@).take(
                    p.docker_image_flags@.len() as int,
                ) =~= strings(p.docker_image_flags@));
                assert(c@.1 =~= build_call(self@.1).1);
                Some(c)
            },
            Stage::Push => {
                let mut args: Vec<String> = Vec::new();
                args.push(String::from_str("push"));
                args.push(p.push_repository.clone());
                let c = ProcessCall { program: String::from_str("docker"), args };
                assert(c@.1 =~= push_call(self@.1).1);
                Some(c)
            },
            Stage::DeleteOld => {
                let c = manifest_step("delete", p);
                Some(c)
            },
            Stage::CreateNew => {
                let c = manifest_step("create", p);
                Some(c)
            },
            Stage::Finished => None,
        }
    }

    /// Records how the step just run exited, moves to the next stage, and
    /// returns what is to be reported, if anything. Once finished, nothing
    /// changes.
    pub fn record_exit(&mut self, succeeded: bool) -> (r: Option<Notice>)
        ensures
            final(self)@ == (next_stage(old(self)@.0, succeeded), old(self)@.1),
            r == notice_after(old(self)@.0, succeeded),
    {
        let stage = self.stage;
        let (next, notice) = match stage {
            Stage::Build => if succeeded {
                (Stage::Push, None)
            } else {
                (Stage::Finished, Some(Notice::BuildFailed))
            },
            Stage::Push => if succeeded {
                (Stage::DeleteOld, None)
            } else {
                (Stage::Finished, Some(Notice::PushFailed))
            },
            Stage::DeleteOld => if succeeded {
                (Stage::CreateNew, None)
            } else {
                (Stage::CreateNew, Some(Notice::NoDeploymentFound))
            },
            Stage::CreateNew => if succeeded {
                (Stage::Finished, None)
            } else {
                (Stage::Finished, Some(Notice::DeploymentFailed))
            },
            Stage::Finished => (Stage::Finished, None),
        };
        self.stage = next;
        notice
    }
}

/// The manifest step `verb` on the pipeline's manifest.
fn manifest_step(verb: &str, p: &PipelineConfig) -> (r: ProcessCall)
    ensures
        r@ == manifest_call(p@, verb@),
{
    let mut args: Vec<String> = Vec::new();
    args.push(String::from_str(verb));
    args.push(String::from_str("-f"));
    args.push(p.kubernetes_yaml_location.clone());
    let c = ProcessCall { program: String::from_str("kubectl"), args };
    assert(c@.1 =~= manifest_call(p@, verb@).1);
    c
}

} // verus!
