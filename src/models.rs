//! The values that engine operations take and return.
use vstd::prelude::*;
use vstd::string::StringExecFns;
use crate::outside::{new_uuid_v4_text, utc_now_rfc3339};

verus! {

/// The supported external tools.
#[derive(Debug, Clone, Copy, PartialEq, Eq, Structural)]
pub enum EngineType {
    Hugo,
    Zola,
}

/// Site settings recorded for a project.
#[derive(Debug, Clone)]
pub struct ProjectConfig {
    pub title: String,
    pub base_url: String,
    pub language: String,
    pub description: Option<String>,
}

/// A site-generator project known to the application.
#[derive(Debug, Clone)]
pub struct Project {
    pub id: String,
    pub name: String,
    /// Filesystem path of the site root.
    pub path: String,
    pub engine: EngineType,
    pub theme: Option<String>,
    pub config: ProjectConfig,
    /// RFC 3339 timestamp.
    pub created_at: String,
    /// RFC 3339 timestamp.
    pub updated_at: String,
}

impl Project {
    /// A fresh project with the given identity: its title is its name, no
    /// theme, no description, and equal creation and update times.
    pub open spec fn is_fresh(
        &self,
        name: Seq<char>,
        path: Seq<char>,
        engine: EngineType,
        id: Seq<char>,
        now: Seq<char>,
    ) -> bool {
        &&& self.id@ == id
        &&& self.name@ == name
        &&& self.path@ == path
        &&& self.engine == engine
        &&& self.theme is None
        &&& self.config.title@ == name
        &&& self.config.base_url@ == "http://localhost:1313"@
        &&& self.config.language@ == "zh-CN"@
        &&& self.config.description is None
        &&& self.created_at@ == now
        &&& self.updated_at@ == now
    }

    /// Builds a project record from an identifier and a timestamp chosen by the caller.
    pub fn with_identity(name: String, path: String, engine: EngineType, id: String, now: String) -> (r: Self)
        ensures
            r.is_fresh(name@, path@, engine, id@, now@),
    {
        let title = name.clone();
        let updated_at = now.clone();
        proof {
            reveal_strlit("http://localhost:1313");
            reveal_strlit("zh-CN");
        }
        Project {
            id,
            name,
            path,
            engine,
            theme: None,
            config: ProjectConfig {
                title,
                base_url: String::from_str("http://localhost:1313"),
                language: String::from_str("zh-CN"),
                description: None,
            },
            created_at: now,
            updated_at,
        }
    }

    /// Builds a project record with a new random identifier, created now.
    pub fn new(name: String, path: String, engine: EngineType) -> (r: Self)
        ensures
            exists|id: Seq<char>, now: Seq<char>| r.is_fresh(name@, path@, engine, id, now),
            r.id@.len() == 36,
            r.created_at@ == r.updated_at@,
    {
        let id = new_uuid_v4_text();
        let now = utc_now_rfc3339();
        let r = Project::with_identity(name, path, engine, id, now);
        assert(r.is_fresh(name@, path@, engine, r.id@, r.created_at@));
        r
    }
}

/// Header fields of a content file.
#[derive(Debug, Clone)]
pub struct FrontMatter {
    pub title: String,
    /// RFC 3339 timestamp.
    pub date: String,
    pub draft: bool,
    pub tags: Vec<String>,
    pub categories: Vec<String>,
    pub description: Option<String>,
}

/// A content file and its parsed header.
#[derive(Debug, Clone)]
pub struct Post {
    pub title: String,
    pub path: String,
    pub content: String,
    pub front_matter: FrontMatter,
}

/// How a site is built: each flag maps to one tool argument where the tool has one.
#[derive(Debug, Clone, Copy, PartialEq, Eq, Structural)]
pub struct BuildOptions {
    pub minify: bool,
    pub clean: bool,
    pub draft: bool,
}

impl Default for BuildOptions {
    /// Minified, cleaned, without drafts.
    fn default() -> (r: Self)
        ensures
            r.minify && r.clean && !r.draft,
    {
        BuildOptions { minify: true, clean: true, draft: false }
    }
}

/// What one build reported.
#[derive(Debug, Clone)]
pub struct BuildResult {
    pub success: bool,
    /// Wall-clock time of the build, in microseconds.
    pub duration_micros: u64,
    /// Captured standard output.
    pub output: String,
    /// Empty on success; on failure, the captured standard error.
    pub errors: Vec<String>,
}

impl BuildResult {
    /// A result is well formed when it failed exactly if it carries errors.
    pub open spec fn wf(&self) -> bool {
        !self.success <==> self.errors@.len() > 0
    }

    /// Normalizes a finished build process: success mirrors the exit status,
    /// and standard error becomes the one error exactly when it failed.
    pub fn from_process(exit_ok: bool, duration_micros: u64, stdout: String, stderr: String) -> (r: Self)
        ensures
            r.wf(),
            r.success == exit_ok,
            r.duration_micros == duration_micros,
            r.output@ == stdout@,
            exit_ok ==> r.errors@.len() == 0,
            !exit_ok ==> r.errors@.len() == 1 && r.errors@[0]@ == stderr@,
    {
        let mut errors: Vec<String> = Vec::new();
        if !exit_ok {
            errors.push(stderr);
        }
        BuildResult { success: exit_ok, duration_micros, output: stdout, errors }
    }
}

/// Every result built from a process is well formed: it failed if and only
/// if it lists errors, and its duration is never negative.
pub proof fn lemma_build_result_consistent(r: BuildResult)
    requires
        r.wf(),
    ensures
        !r.success <==> r.errors@.len() > 0,
        r.duration_micros >= 0,
{
}

} // verus!
