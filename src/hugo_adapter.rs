//! Hugo's command vocabulary.
use vstd::prelude::*;
use vstd::string::StringExecFns;
use crate::error::AppError;
use crate::locator::{get_hugo_binary_path, located, views, BinaryProbe, HostLayout};
use crate::models::{BuildOptions, EngineType};
use crate::text::{decimal_spec, push_decimal};
use crate::posts::{post_file_name, post_file_name_spec};

verus! {

/// Drives a Hugo binary.
#[derive(Debug, Clone)]
pub struct HugoAdapter {
    binary_path: String,
}

/// `seq![s]` when `on` holds, else empty.
pub open spec fn flag(on: bool, s: Seq<char>) -> Seq<Seq<char>> {
    if on { seq![s] } else { seq![] }
}

/// `new site <name> --force`.
pub open spec fn hugo_init_args(site_name: Seq<char>) -> Seq<Seq<char>> {
    seq!["new"@, "site"@, site_name, "--force"@]
}

/// `[--minify] [--gc] [-D]`, in that order.
pub open spec fn hugo_build_args(o: BuildOptions) -> Seq<Seq<char>> {
    flag(o.minify, "--minify"@) + flag(o.clean, "--gc"@) + flag(o.draft, "-D"@)
}

/// `server -D --bind 127.0.0.1 --port <port> --navigateToChanged`.
pub open spec fn hugo_serve_args(port: u16) -> Seq<Seq<char>> {
    seq![
        "server"@,
        "-D"@,
        "--bind"@,
        "127.0.0.1"@,
        "--port"@,
        decimal_spec(port as nat),
        "--navigateToChanged"@,
    ]
}

/// `version`.
pub open spec fn hugo_version_args() -> Seq<Seq<char>> {
    seq!["version"@]
}

/// Where Hugo is asked to create a post, relative to the project root.
pub open spec fn hugo_post_path(title: Seq<char>) -> Seq<char> {
    "content/posts/"@ + post_file_name_spec(title)
}

/// `new <post path>`.
pub open spec fn hugo_new_post_args(title: Seq<char>) -> Seq<Seq<char>> {
    seq!["new"@, hugo_post_path(title)]
}

/// Appends the literal `s` to `v`.
pub(crate) fn push_lit(v: &mut Vec<String>, s: &str)
    ensures
        views(final(v)@) == views(old(v)@).push(s@),
{
    v.push(String::from_str(s));
    assert(views(v@) =~= views(old(v)@).push(s@));
}

/// Appends `s` to `v`.
pub(crate) fn push_owned(v: &mut Vec<String>, s: String)
    ensures
        views(final(v)@) == views(old(v)@).push(s@),
{
    let ghost sv = s@;
    v.push(s);
    assert(views(v@) =~= views(old(v)@).push(sv));
}

/// The decimal text of a port number.
pub(crate) fn port_text(port: u16) -> (r: String)
    ensures
        r@ == decimal_spec(port as nat),
{
    let mut r = String::new();
    push_decimal(&mut r, port as u64);
    assert(r@ =~= decimal_spec(port as nat));
    r
}

impl HugoAdapter {
    /// The binary this adapter runs.
    pub closed spec fn binary_spec(&self) -> Seq<char> {
        self.binary_path@
    }

    /// Locates the Hugo binary and builds an adapter around it; fails with
    /// `ToolNotFound` when no search location holds it.
    pub fn new(layout: &HostLayout, probe: &BinaryProbe) -> (r: Result<Self, AppError>)
        ensures
            located(
                match r {
                    Ok(a) => Ok(a.binary_spec()),
                    Err(e) => Err(e),
                },
                *layout,
                *probe,
                "hugo"@,
            ),
    {
        match get_hugo_binary_path(layout, probe) {
            Ok(binary_path) => Ok(HugoAdapter { binary_path }),
            Err(e) => Err(e),
        }
    }

    /// An adapter around a binary the caller has already located.
    pub fn with_binary(binary_path: String) -> (r: Self)
        ensures
            r.binary_spec() == binary_path@,
    {
        HugoAdapter { binary_path }
    }

    /// The binary this adapter runs.
    pub fn binary_path(&self) -> (r: &String)
        ensures
            r@ == self.binary_spec(),
    {
        &self.binary_path
    }

    /// Always `Hugo`.
    pub fn engine_type(&self) -> (r: EngineType)
        ensures
            r == EngineType::Hugo,
    {
        EngineType::Hugo
    }

    /// Arguments that create a site named `site_name`, overwriting without asking.
    pub fn init_args(&self, site_name: &str) -> (r: Vec<String>)
        ensures
            views(r@) == hugo_init_args(site_name@),
    {
        let mut r: Vec<String> = Vec::new();
        push_lit(&mut r, "new");
        push_lit(&mut r, "site");
        push_lit(&mut r, site_name);
        push_lit(&mut r, "--force");
        assert(views(r@) =~= hugo_init_args(site_name@));
        r
    }

    /// Arguments for a build with `options`.
    pub fn build_args(&self, options: &BuildOptions) -> (r: Vec<String>)
        ensures
            views(r@) == hugo_build_args(*options),
    {
        let mut r: Vec<String> = Vec::new();
        if options.minify {
            push_lit(&mut r, "--minify");
        }
        assert(views(r@) =~= flag(options.minify, "--minify"@));
        if options.clean {
            push_lit(&mut r, "--gc");
        }
        assert(views(r@) =~= flag(options.minify, "--minify"@) + flag(options.clean, "--gc"@));
        if options.draft {
            push_lit(&mut r, "-D");
        }
        assert(views(r@) =~= hugo_build_args(*options));
        r
    }

    /// Arguments that start the preview server on loopback at `port`.
    pub fn serve_args(&self, port: u16) -> (r: Vec<String>)
        ensures
            views(r@) == hugo_serve_args(port),
    {
        let mut r: Vec<String> = Vec::new();
        push_lit(&mut r, "server");
        push_lit(&mut r, "-D");
        push_lit(&mut r, "--bind");
        push_lit(&mut r, "127.0.0.1");
        push_lit(&mut r, "--port");
        push_owned(&mut r, port_text(port));
        push_lit(&mut r, "--navigateToChanged");
        assert(views(r@) =~= hugo_serve_args(port));
        r
    }

    /// Arguments that print the tool's version.
    pub fn version_args(&self) -> (r: Vec<String>)
        ensures
            views(r@) == hugo_version_args(),
    {
        let mut r: Vec<String> = Vec::new();
        push_lit(&mut r, "version");
        assert(views(r@) =~= hugo_version_args());
        r
    }

    /// Where a post titled `title` is created, relative to the project root.
    pub fn new_post_path(&self, title: &str) -> (r: String)
        ensures
            r@ == hugo_post_path(title@),
    {
        let mut r = String::from_str("content/posts/");
        r.append(post_file_name(title).as_str());
        r
    }

    /// Arguments that have Hugo create a post titled `title`.
    pub fn new_post_args(&self, title: &str) -> (r: Vec<String>)
        ensures
            views(r@) == hugo_new_post_args(title@),
    {
        let mut r: Vec<String> = Vec::new();
        push_lit(&mut r, "new");
        push_owned(&mut r, self.new_post_path(title));
        assert(views(r@) =~= hugo_new_post_args(title@));
        r
    }
}

} // verus!
