//! Zola's command vocabulary, and the post files written for it directly.
use vstd::prelude::*;
use vstd::string::StringExecFns;
use crate::error::AppError;
use crate::hugo_adapter::{flag, port_text, push_lit, push_owned};
use crate::locator::{get_zola_binary_path, located, views, BinaryProbe, HostLayout};
use crate::models::{BuildOptions, EngineType};
use crate::outside::utc_now_rfc3339;
use crate::posts::{post_file_name, post_file_name_spec};
use crate::text::decimal_spec;

verus! {

/// Drives a Zola binary.
#[derive(Debug, Clone)]
pub struct ZolaAdapter {
    binary_path: String,
}

/// Where a new post goes, and whether its directory must be made first.
#[derive(Debug, Clone)]
pub struct PostTarget {
    /// The posts directory, relative to the project root.
    pub dir: String,
    /// Whether `dir` does not exist yet and must be created.
    pub create_dir: bool,
    /// The post file, relative to the project root.
    pub path: String,
}

/// `init --force <name>`.
pub open spec fn zola_init_args(site_name: Seq<char>) -> Seq<Seq<char>> {
    seq!["init"@, "--force"@, site_name]
}

/// `build [--drafts]`; Zola has no minify or clean flag.
pub open spec fn zola_build_args(o: BuildOptions) -> Seq<Seq<char>> {
    seq!["build"@] + flag(o.draft, "--drafts"@)
}

/// `serve --interface 127.0.0.1 --port <port> --drafts`.
pub open spec fn zola_serve_args(port: u16) -> Seq<Seq<char>> {
    seq![
        "serve"@,
        "--interface"@,
        "127.0.0.1"@,
        "--port"@,
        decimal_spec(port as nat),
        "--drafts"@,
    ]
}

/// `--version`.
pub open spec fn zola_version_args() -> Seq<Seq<char>> {
    seq!["--version"@]
}

/// The posts directory: `content/posts` if it exists, else `content/post` if
/// that exists, else `content/posts`, which is then created.
pub open spec fn posts_dir_spec(has_posts: bool, has_post: bool) -> Seq<char> {
    if has_posts {
        "content/posts"@
    } else if has_post {
        "content/post"@
    } else {
        "content/posts"@
    }
}

/// Where a post titled `title` goes, given which posts directories exist.
pub open spec fn post_target_spec(t: PostTarget, title: Seq<char>, has_posts: bool, has_post: bool) -> bool {
    &&& t.dir@ == posts_dir_spec(has_posts, has_post)
    &&& t.create_dir == (!has_posts && !has_post)
    &&& t.path@ == posts_dir_spec(has_posts, has_post) + "/"@ + post_file_name_spec(title)
}

/// The text of a new post: a `+++` header with title, date, draft flag and
/// empty taxonomies, then a placeholder body.
pub open spec fn post_text_spec(title: Seq<char>, date: Seq<char>) -> Seq<char> {
    "+++\ntitle = \""@ + title + "\"\ndate = "@ + date
        + "\ndraft = true\n\n[taxonomies]\ntags = []\ncategories = []\n+++\n\nWrite your content here...\n"@
}

impl ZolaAdapter {
    /// The binary this adapter runs.
    pub closed spec fn binary_spec(&self) -> Seq<char> {
        self.binary_path@
    }

    /// Locates the Zola binary and builds an adapter around it; fails with
    /// `ToolNotFound` when no search location holds it.
    pub fn new(layout: &HostLayout, probe: &BinaryProbe) -> (r: Result<Self, AppError>)
        ensures
            located(
                match r {
                    Ok(a) => Ok(a.binary_spec()),
                    Err(e) => Err(e),
                },
                *layout,
                *probe,
                "zola"@,
            ),
    {
        match get_zola_binary_path(layout, probe) {
            Ok(binary_path) => Ok(ZolaAdapter { binary_path }),
            Err(e) => Err(e),
        }
    }

    /// An adapter around a binary the caller has already located.
    pub fn with_binary(binary_path: String) -> (r: Self)
        ensures
            r.binary_spec() == binary_path@,
    {
        ZolaAdapter { binary_path }
    }

    /// The binary this adapter runs.
    pub fn binary_path(&self) -> (r: &String)
        ensures
            r@ == self.binary_spec(),
    {
        &self.binary_path
    }

    /// Always `Zola`.
    pub fn engine_type(&self) -> (r: EngineType)
        ensures
            r == EngineType::Zola,
    {
        EngineType::Zola
    }

    /// Arguments that create a site named `site_name`, overwriting without asking.
    pub fn init_args(&self, site_name: &str) -> (r: Vec<String>)
        ensures
            views(r@) == zola_init_args(site_name@),
    {
        let mut r: Vec<String> = Vec::new();
        push_lit(&mut r, "init");
        push_lit(&mut r, "--force");
        push_lit(&mut r, site_name);
        assert(views(r@) =~= zola_init_args(site_name@));
        r
    }

    /// Arguments for a build with `options`.
    pub fn build_args(&self, options: &BuildOptions) -> (r: Vec<String>)
        ensures
            views(r@) == zola_build_args(*options),
    {
        let mut r: Vec<String> = Vec::new();
        push_lit(&mut r, "build");
        if options.draft {
            push_lit(&mut r, "--drafts");
        }
        assert(views(r@) =~= zola_build_args(*options));
        r
    }

    /// Arguments that start the preview server on loopback at `port`.
    pub fn serve_args(&self, port: u16) -> (r: Vec<String>)
        ensures
            views(r@) == zola_serve_args(port),
    {
        let mut r: Vec<String> = Vec::new();
        push_lit(&mut r, "serve");
        push_lit(&mut r, "--interface");
        push_lit(&mut r, "127.0.0.1");
        push_lit(&mut r, "--port");
        push_owned(&mut r, port_text(port));
        push_lit(&mut r, "--drafts");
        assert(views(r@) =~= zola_serve_args(port));
        r
    }

    /// Arguments that print the tool's version.
    pub fn version_args(&self) -> (r: Vec<String>)
        ensures
            views(r@) == zola_version_args(),
    {
        let mut r: Vec<String> = Vec::new();
        push_lit(&mut r, "--version");
        assert(views(r@) =~= zola_version_args());
        r
    }

    /// Where a post titled `title` goes, given which posts directories exist.
    pub fn new_post_target(&self, title: &str, has_posts: bool, has_post: bool) -> (r: PostTarget)
        ensures
            post_target_spec(r, title@, has_posts, has_post),
    {
        let dir = if has_posts {
            String::from_str("content/posts")
        } else if has_post {
            String::from_str("content/post")
        } else {
            String::from_str("content/posts")
        };
        let mut path = dir.clone();
        path.append("/");
        path.append(post_file_name(title).as_str());
        PostTarget { dir, create_dir: !has_posts && !has_post, path }
    }

    /// The text of a post titled `title`, dated `date`.
    pub fn post_text(&self, title: &str, date: &str) -> (r: String)
        ensures
            r@ == post_text_spec(title@, date@),
    {
        let mut r = String::from_str("+++\ntitle = \"");
        r.append(title);
        r.append("\"\ndate = ");
        r.append(date);
        r.append(
            "\ndraft = true\n\n[taxonomies]\ntags = []\ncategories = []\n+++\n\nWrite your content here...\n",
        );
        r
    }

    /// Decides what to write at `target` for a post titled `title` dated
    /// `date`: refused with an "already exists" engine error when a file is
    /// there, so nothing is ever overwritten.
    pub fn post_file(&self, target: &PostTarget, title: &str, exists: bool, date: &str) -> (r: Result<String, AppError>)
        ensures
            exists ==> (r matches Err(AppError::EngineError(m)) && m@ == target.path@ + " already exists"@),
            !exists ==> (r matches Ok(t) && t@ == post_text_spec(title@, date@)),
    {
        if exists {
            let mut m = target.path.clone();
            m.append(" already exists");
            return Err(AppError::EngineError(m));
        }
        Ok(self.post_text(title, date))
    }

    /// [`ZolaAdapter::post_file`], dated now.
    pub fn post_file_now(&self, target: &PostTarget, title: &str, exists: bool) -> (r: Result<String, AppError>)
        ensures
            exists ==> (r matches Err(AppError::EngineError(m)) && m@ == target.path@ + " already exists"@),
            !exists ==> (r matches Ok(t) && exists|date: Seq<char>| t@ == post_text_spec(title@, date)),
    {
        let now = utc_now_rfc3339();
        self.post_file(target, title, exists, now.as_str())
    }
}

/// Creating the same post twice: the second request, made after the first
/// created the posts directory and the file, goes to the same path, and is
/// refused with an "already exists" error carrying no text to write.
pub proof fn lemma_repeated_post_refused(
    a: ZolaAdapter,
    first: PostTarget,
    second: PostTarget,
    title: Seq<char>,
    has_posts: bool,
    has_post: bool,
)
    requires
        post_target_spec(first, title, has_posts, has_post),
        post_target_spec(second, title, has_posts || first.create_dir, has_post),
    ensures
        second.path@ == first.path@,
        second.create_dir == false,
{
}

} // verus!
