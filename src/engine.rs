//! One contract over every supported tool: which process each operation
//! runs, and how its outcome is read back.
use vstd::prelude::*;
use vstd::string::StringExecFns;
use crate::error::AppError;
use crate::hugo_adapter::{
    hugo_build_args, hugo_init_args, hugo_new_post_args, hugo_post_path, hugo_serve_args,
    hugo_version_args, HugoAdapter,
};
use crate::locator::{resolve_spec, views, BinaryProbe, HostLayout};
use crate::models::{BuildOptions, BuildResult, EngineType};
use crate::text::{first_line, first_line_spec};
use crate::zola_adapter::{
    post_target_spec, PostTarget, zola_build_args, zola_init_args, zola_serve_args, zola_version_args, ZolaAdapter,
};

verus! {

/// An adapter for one of the supported tools.
#[derive(Debug, Clone)]
pub enum SiteEngine {
    Hugo(HugoAdapter),
    Zola(ZolaAdapter),
}

/// A process to run: the program, its arguments, and the directory it runs
/// in (`None`: the caller's own).
#[derive(Debug, Clone)]
pub struct Invocation {
    pub program: String,
    pub args: Vec<String>,
    pub working_dir: Option<String>,
}

/// How a new post comes about.
#[derive(Debug, Clone)]
pub enum PostStep {
    /// Run the tool's own command, which creates `post_path`.
    Run { invocation: Invocation, post_path: String },
    /// Write the file directly at `target`.
    Write { target: PostTarget },
}

/// The name the tool of `e` is searched under.
pub open spec fn tool_name_spec(e: EngineType) -> Seq<char> {
    match e {
        EngineType::Hugo => "hugo"@,
        EngineType::Zola => "zola"@,
    }
}

/// Arguments that create a site.
pub open spec fn init_args_spec(e: EngineType, site_name: Seq<char>) -> Seq<Seq<char>> {
    match e {
        EngineType::Hugo => hugo_init_args(site_name),
        EngineType::Zola => zola_init_args(site_name),
    }
}

/// Arguments that build a site.
pub open spec fn build_args_spec(e: EngineType, o: BuildOptions) -> Seq<Seq<char>> {
    match e {
        EngineType::Hugo => hugo_build_args(o),
        EngineType::Zola => zola_build_args(o),
    }
}

/// Arguments that start the preview server.
pub open spec fn serve_args_spec(e: EngineType, port: u16) -> Seq<Seq<char>> {
    match e {
        EngineType::Hugo => hugo_serve_args(port),
        EngineType::Zola => zola_serve_args(port),
    }
}

/// Arguments that print the version.
pub open spec fn version_args_spec(e: EngineType) -> Seq<Seq<char>> {
    match e {
        EngineType::Hugo => hugo_version_args(),
        EngineType::Zola => zola_version_args(),
    }
}

/// `inv` runs `program` with `args` in `dir`.
pub open spec fn runs(inv: Invocation, program: Seq<char>, args: Seq<Seq<char>>, dir: Option<Seq<char>>) -> bool {
    &&& inv.program@ == program
    &&& views(inv.args@) == args
    &&& match dir {
        Some(d) => inv.working_dir matches Some(w) && w@ == d,
        None => inv.working_dir is None,
    }
}

/// The outcome of `create_engine`: an adapter for `e` around the binary the
/// search settles on, or `ToolNotFound` naming the tool.
pub open spec fn created(r: Result<SiteEngine, AppError>, e: EngineType, layout: HostLayout, probe: BinaryProbe) -> bool {
    match resolve_spec(layout, probe, tool_name_spec(e)) {
        Some(p) => r matches Ok(engine) && engine.kind() == e && engine.binary_spec() == p,
        None => r matches Err(AppError::ToolNotFound(t)) && t@ == tool_name_spec(e),
    }
}

/// The version reported by a tool's output: its first line, or `unknown`
/// when it printed nothing.
pub open spec fn version_text_spec(stdout: Seq<char>) -> Seq<char> {
    match first_line_spec(stdout) {
        Some(l) => l,
        None => "unknown"@,
    }
}

/// The name the tool of `e` is searched under.
pub fn tool_name(e: EngineType) -> (r: &'static str)
    ensures
        r@ == tool_name_spec(e),
{
    match e {
        EngineType::Hugo => "hugo",
        EngineType::Zola => "zola",
    }
}

/// Builds the adapter for `engine_type`, locating its binary from what the
/// host found at each search location of `tool_name(engine_type)`.
pub fn create_engine(engine_type: EngineType, layout: &HostLayout, probe: &BinaryProbe) -> (r: Result<SiteEngine, AppError>)
    ensures
        created(r, engine_type, *layout, *probe),
{
    match engine_type {
        EngineType::Hugo => match HugoAdapter::new(layout, probe) {
            Ok(a) => Ok(SiteEngine::Hugo(a)),
            Err(e) => Err(e),
        },
        EngineType::Zola => match ZolaAdapter::new(layout, probe) {
            Ok(a) => Ok(SiteEngine::Zola(a)),
            Err(e) => Err(e),
        },
    }
}

/// Reads back a process whose failure is fatal: `Ok` when it exited
/// successfully, else an engine error carrying its standard error.
pub fn finish_command(exit_ok: bool, stderr: String) -> (r: Result<(), AppError>)
    ensures
        exit_ok <==> r is Ok,
        !exit_ok ==> r == Err::<(), AppError>(AppError::EngineError(stderr)),
{
    if exit_ok {
        Ok(())
    } else {
        Err(AppError::EngineError(stderr))
    }
}

/// Reads back a tool run that created a post at `post_path`.
pub fn finish_new_post(exit_ok: bool, stderr: String, post_path: String) -> (r: Result<String, AppError>)
    ensures
        exit_ok ==> r == Ok::<String, AppError>(post_path),
        !exit_ok ==> r == Err::<String, AppError>(AppError::EngineError(stderr)),
{
    if exit_ok {
        Ok(post_path)
    } else {
        Err(AppError::EngineError(stderr))
    }
}

/// Reads back a build run; see [`BuildResult::from_process`].
pub fn finish_build(exit_ok: bool, duration_micros: u64, stdout: String, stderr: String) -> (r: BuildResult)
    ensures
        r.wf(),
        r.success == exit_ok,
        r.duration_micros == duration_micros,
        r.output@ == stdout@,
        !exit_ok ==> r.errors@.len() == 1 && r.errors@[0]@ == stderr@,
{
    BuildResult::from_process(exit_ok, duration_micros, stdout, stderr)
}

/// The version a tool printed: the first line of its output, or `unknown`.
pub fn version_text(stdout: &str) -> (r: String)
    ensures
        r@ == version_text_spec(stdout@),
{
    match first_line(stdout) {
        Some(l) => l,
        None => String::from_str("unknown"),
    }
}

impl SiteEngine {
    /// Which tool this adapter drives.
    pub open spec fn kind(&self) -> EngineType {
        match self {
            SiteEngine::Hugo(_) => EngineType::Hugo,
            SiteEngine::Zola(_) => EngineType::Zola,
        }
    }

    /// The binary this adapter runs.
    pub open spec fn binary_spec(&self) -> Seq<char> {
        match self {
            SiteEngine::Hugo(a) => a.binary_spec(),
            SiteEngine::Zola(a) => a.binary_spec(),
        }
    }

    /// Which tool this adapter drives.
    pub fn engine_type(&self) -> (r: EngineType)
        ensures
            r == self.kind(),
    {
        match self {
            SiteEngine::Hugo(a) => a.engine_type(),
            SiteEngine::Zola(a) => a.engine_type(),
        }
    }

    fn program(&self) -> (r: String)
        ensures
            r@ == self.binary_spec(),
    {
        match self {
            SiteEngine::Hugo(a) => a.binary_path().clone(),
            SiteEngine::Zola(a) => a.binary_path().clone(),
        }
    }

    /// The process that creates a site `site_name` inside `parent_dir`.
    pub fn init(&self, parent_dir: &str, site_name: &str) -> (r: Invocation)
        ensures
            runs(r, self.binary_spec(), init_args_spec(self.kind(), site_name@), Some(parent_dir@)),
    {
        let args = match self {
            SiteEngine::Hugo(a) => a.init_args(site_name),
            SiteEngine::Zola(a) => a.init_args(site_name),
        };
        Invocation { program: self.program(), args, working_dir: Some(String::from_str(parent_dir)) }
    }

    /// The process that builds the site at `project_path` with `options`.
    pub fn build(&self, project_path: &str, options: &BuildOptions) -> (r: Invocation)
        ensures
            runs(r, self.binary_spec(), build_args_spec(self.kind(), *options), Some(project_path@)),
    {
        let args = match self {
            SiteEngine::Hugo(a) => a.build_args(options),
            SiteEngine::Zola(a) => a.build_args(options),
        };
        Invocation {
            program: self.program(),
            args,
            working_dir: Some(String::from_str(project_path)),
        }
    }

    /// The detached process that serves the site at `project_path` on
    /// loopback at `port`, drafts shown.
    pub fn serve(&self, project_path: &str, port: u16) -> (r: Invocation)
        ensures
            runs(r, self.binary_spec(), serve_args_spec(self.kind(), port), Some(project_path@)),
    {
        let args = match self {
            SiteEngine::Hugo(a) => a.serve_args(port),
            SiteEngine::Zola(a) => a.serve_args(port),
        };
        Invocation {
            program: self.program(),
            args,
            working_dir: Some(String::from_str(project_path)),
        }
    }

    /// How a post titled `title` is created in the project at
    /// `project_path`: Hugo's `new` command, or for Zola a file written
    /// directly into the posts directory, given which of `content/posts` and
    /// `content/post` exist.
    pub fn new_post(&self, project_path: &str, title: &str, has_posts: bool, has_post: bool) -> (r: PostStep)
        ensures
            self.kind() == EngineType::Hugo ==> (r matches PostStep::Run { invocation, post_path }
                && runs(invocation, self.binary_spec(), hugo_new_post_args(title@), Some(project_path@))
                && post_path@ == hugo_post_path(title@)),
            self.kind() == EngineType::Zola ==> (r matches PostStep::Write { target }
                && post_target_spec(target, title@, has_posts, has_post)),
    {
        match self {
            SiteEngine::Hugo(a) => PostStep::Run {
                invocation: Invocation {
                    program: a.binary_path().clone(),
                    args: a.new_post_args(title),
                    working_dir: Some(String::from_str(project_path)),
                },
                post_path: a.new_post_path(title),
            },
            SiteEngine::Zola(a) => PostStep::Write { target: a.new_post_target(title, has_posts, has_post) },
        }
    }

    /// The process that prints the tool's version.
    pub fn version(&self) -> (r: Invocation)
        ensures
            runs(r, self.binary_spec(), version_args_spec(self.kind()), None),
    {
        let args = match self {
            SiteEngine::Hugo(a) => a.version_args(),
            SiteEngine::Zola(a) => a.version_args(),
        };
        Invocation { program: self.program(), args, working_dir: None }
    }
}

/// A created engine drives the tool it was asked for; creation fails only
/// with `ToolNotFound`, and only when no search location holds the tool.
pub proof fn lemma_engine_echoes_type(
    r: Result<SiteEngine, AppError>,
    e: EngineType,
    layout: HostLayout,
    probe: BinaryProbe,
)
    requires
        created(r, e, layout, probe),
    ensures
        r matches Ok(engine) ==> engine.kind() == e,
        r is Err <==> resolve_spec(layout, probe, tool_name_spec(e)) is None,
        r matches Err(err) ==> err matches AppError::ToolNotFound(_),
{
}

/// When a tool prints a version line other than `unknown`, that line is
/// what is reported, so it is never mistaken for an absent version.
pub proof fn lemma_version_reported(stdout: Seq<char>)
    requires
        first_line_spec(stdout) matches Some(l) && l.len() > 0 && l != "unknown"@,
    ensures
        version_text_spec(stdout).len() > 0,
        version_text_spec(stdout) != "unknown"@,
        Some(version_text_spec(stdout)) == first_line_spec(stdout),
{
}

} // verus!
