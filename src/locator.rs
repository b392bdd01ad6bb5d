//! Where a tool binary is taken from.
//!
//! The search order, first match wins: a `bin` directory in the executable's
//! directory or any of its ancestors (nearest first), the `bin` directory
//! beside the executable, the `bin` directory under the working directory,
//! the platform's PATH lookup, and on Windows a few default install
//! directories. The host reports which candidate files exist in a
//! [`BinaryProbe`]; this module picks the winner.
use vstd::prelude::*;
use vstd::string::StringExecFns;
use crate::error::AppError;
use crate::text::{first_line, first_line_spec};

verus! {

/// Where the running program sits.
#[derive(Debug, Clone)]
pub struct HostLayout {
    /// The executable's directory followed by each of its ancestors, nearest first.
    pub exe_ancestors: Vec<String>,
    /// The executable's directory.
    pub exe_dir: String,
    /// The current working directory.
    pub cwd: String,
    /// Whether the host is Windows, where binaries carry an `.exe` suffix.
    pub windows: bool,
}

/// What the host found at each candidate location of one tool.
#[derive(Debug, Clone)]
pub struct BinaryProbe {
    /// For each path of `local_candidates`, in order, whether a file is there.
    pub local_present: Vec<bool>,
    /// The path the platform's PATH lookup reported, if it found one.
    pub on_path: Option<String>,
    /// For each path of `install_candidates`, in order, whether a file is there.
    pub installed_present: Vec<bool>,
}

/// The views of a list of strings.
pub open spec fn views(v: Seq<String>) -> Seq<Seq<char>> {
    v.map_values(|s: String| s@)
}

/// The file name of `tool`'s binary on the host.
pub open spec fn tool_file_spec(tool: Seq<char>, windows: bool) -> Seq<char> {
    if windows { tool + ".exe"@ } else { tool }
}

/// `dir/bin/file`.
pub open spec fn bin_entry(dir: Seq<char>, file: Seq<char>) -> Seq<char> {
    dir + "/bin/"@ + file
}

/// The bundled and development locations, in search order.
pub open spec fn local_candidates_spec(layout: HostLayout, tool: Seq<char>) -> Seq<Seq<char>> {
    let file = tool_file_spec(tool, layout.windows);
    views(layout.exe_ancestors@).map_values(|a: Seq<char>| bin_entry(a, file))
        + seq![bin_entry(layout.exe_dir@, file), bin_entry(layout.cwd@, file)]
}

/// The default install locations, searched after PATH; Windows only.
pub open spec fn install_candidates_spec(layout: HostLayout, tool: Seq<char>) -> Seq<Seq<char>> {
    let file = tool_file_spec(tool, layout.windows);
    if layout.windows {
        seq![
            "C:\\Program Files\\"@ + tool + "\\"@ + file,
            "C:\\"@ + tool + "\\bin\\"@ + file,
        ]
    } else {
        seq![]
    }
}

/// Whether the probe reported a file at index `i`; missing entries count as absent.
pub open spec fn present_at(p: Seq<bool>, i: int) -> bool {
    0 <= i < p.len() && p[i]
}

/// The first candidate at or after `k` that is present.
pub open spec fn first_hit_from(c: Seq<Seq<char>>, p: Seq<bool>, k: int) -> Option<Seq<char>>
    decreases c.len() - k,
{
    if k < 0 || k >= c.len() {
        None
    } else if present_at(p, k) {
        Some(c[k])
    } else {
        first_hit_from(c, p, k + 1)
    }
}

/// The binary the search settles on, if any.
pub open spec fn resolve_spec(layout: HostLayout, probe: BinaryProbe, tool: Seq<char>) -> Option<Seq<char>> {
    match first_hit_from(local_candidates_spec(layout, tool), probe.local_present@, 0) {
        Some(p) => Some(p),
        None => match probe.on_path {
            Some(p) => Some(p@),
            None => first_hit_from(install_candidates_spec(layout, tool), probe.installed_present@, 0),
        },
    }
}

/// The result of locating `tool`: its path, or `ToolNotFound` naming it.
pub open spec fn locate_result(r: Result<String, AppError>, layout: HostLayout, probe: BinaryProbe, tool: Seq<char>) -> bool {
    match resolve_spec(layout, probe, tool) {
        Some(p) => r matches Ok(s) && s@ == p,
        None => r matches Err(AppError::ToolNotFound(t)) && t@ == tool,
    }
}

/// The outcome of locating `tool`, with the path seen as characters.
pub open spec fn located(r: Result<Seq<char>, AppError>, layout: HostLayout, probe: BinaryProbe, tool: Seq<char>) -> bool {
    match resolve_spec(layout, probe, tool) {
        Some(p) => r == Ok::<Seq<char>, AppError>(p),
        None => r matches Err(AppError::ToolNotFound(t)) && t@ == tool,
    }
}

/// The name of `tool`'s binary on the host.
pub fn tool_file(tool: &str, windows: bool) -> (r: String)
    ensures
        r@ == tool_file_spec(tool@, windows),
{
    let mut r = String::from_str(tool);
    if windows {
        r.append(".exe");
    }
    r
}

fn bin_entry_of(dir: &String, file: &String) -> (r: String)
    ensures
        r@ == bin_entry(dir@, file@),
{
    let mut r = dir.clone();
    r.append("/bin/");
    r.append(file.as_str());
    r
}

/// The bundled and development locations of `tool`, in search order.
pub fn local_candidates(layout: &HostLayout, tool: &str) -> (r: Vec<String>)
    ensures
        views(r@) == local_candidates_spec(*layout, tool@),
{
    let file = tool_file(tool, layout.windows);
    let mut r: Vec<String> = Vec::new();
    let mut i: usize = 0;
    let ghost anc = views(layout.exe_ancestors@).map_values(|a: Seq<char>| bin_entry(a, file@));
    while i < layout.exe_ancestors.len()
        invariant
            i <= layout.exe_ancestors@.len(),
            anc == views(layout.exe_ancestors@).map_values(|a: Seq<char>| bin_entry(a, file@)),
            views(r@) == anc.subrange(0, i as int),
            r@.len() == i,
            anc.len() == layout.exe_ancestors@.len(),
        decreases layout.exe_ancestors@.len() - i,
    {
        let ghost prev = r@;
        r.push(bin_entry_of(&layout.exe_ancestors[i], &file));
        assert(views(r@).len() == i + 1);
        assert forall|j: int| 0 <= j < i + 1 implies views(r@)[j] == anc[j] by {
            if j < i {
                assert(r@[j] == prev[j]);
                assert(views(prev)[j] == anc.subrange(0, i as int)[j]);
            }
        }
        assert(views(r@) =~= anc.subrange(0, i + 1));
        i = i + 1;
    }
    let ghost prev = r@;
    r.push(bin_entry_of(&layout.exe_dir, &file));
    r.push(bin_entry_of(&layout.cwd, &file));
    let ghost want = local_candidates_spec(*layout, tool@);
    assert(anc.subrange(0, i as int) =~= anc);
    assert(views(r@).len() == want.len());
    assert forall|j: int| 0 <= j < want.len() implies views(r@)[j] == want[j] by {
        if j < i {
            assert(r@[j] == prev[j]);
            assert(views(prev)[j] == anc[j]);
        }
    }
    assert(views(r@) =~= want);
    r
}

/// The default install locations of `tool`, searched after PATH.
pub fn install_candidates(layout: &HostLayout, tool: &str) -> (r: Vec<String>)
    ensures
        views(r@) == install_candidates_spec(*layout, tool@),
{
    let file = tool_file(tool, layout.windows);
    let mut r: Vec<String> = Vec::new();
    if layout.windows {
        let mut a = String::from_str("C:\\Program Files\\");
        a.append(tool);
        a.append("\\");
        a.append(file.as_str());
        let mut b = String::from_str("C:\\");
        b.append(tool);
        b.append("\\bin\\");
        b.append(file.as_str());
        r.push(a);
        r.push(b);
    }
    assert(views(r@) =~= install_candidates_spec(*layout, tool@));
    r
}

/// The path a successful PATH lookup printed: its first line, when that is not empty.
pub fn path_lookup_hit(exit_ok: bool, stdout: &str) -> (r: Option<String>)
    ensures
        r is Some <==> (exit_ok && (first_line_spec(stdout@) matches Some(l) && l.len() > 0)),
        r matches Some(p) ==> first_line_spec(stdout@) == Some(p@),
{
    if !exit_ok {
        return None;
    }
    match first_line(stdout) {
        Some(l) => {
            if l.as_str().unicode_len() > 0 {
                Some(l)
            } else {
                None
            }
        },
        None => None,
    }
}

/// The first candidate whose file is present.
pub fn first_hit(c: &Vec<String>, p: &Vec<bool>) -> (r: Option<String>)
    ensures
        r matches Some(s) ==> first_hit_from(views(c@), p@, 0) == Some(s@),
        r is None ==> first_hit_from(views(c@), p@, 0) is None,
{
    let mut i: usize = 0;
    while i < c.len()
        invariant
            i <= c@.len(),
            first_hit_from(views(c@), p@, 0) == first_hit_from(views(c@), p@, i as int),
        decreases c@.len() - i,
    {
        if i < p.len() && p[i] {
            return Some(c[i].clone());
        }
        i = i + 1;
    }
    None
}

/// Finds `tool`'s binary from what the host reported, in search order.
pub fn locate_binary(tool: &str, layout: &HostLayout, probe: &BinaryProbe) -> (r: Result<String, AppError>)
    ensures
        locate_result(r, *layout, *probe, tool@),
{
    let local = local_candidates(layout, tool);
    if let Some(p) = first_hit(&local, &probe.local_present) {
        return Ok(p);
    }
    if let Some(p) = &probe.on_path {
        return Ok(p.clone());
    }
    let installed = install_candidates(layout, tool);
    match first_hit(&installed, &probe.installed_present) {
        Some(p) => Ok(p),
        None => Err(AppError::ToolNotFound(String::from_str(tool))),
    }
}

/// Finds the Hugo binary.
pub fn get_hugo_binary_path(layout: &HostLayout, probe: &BinaryProbe) -> (r: Result<String, AppError>)
    ensures
        locate_result(r, *layout, *probe, "hugo"@),
{
    locate_binary("hugo", layout, probe)
}

/// Finds the Zola binary.
pub fn get_zola_binary_path(layout: &HostLayout, probe: &BinaryProbe) -> (r: Result<String, AppError>)
    ensures
        locate_result(r, *layout, *probe, "zola"@),
{
    locate_binary("zola", layout, probe)
}

proof fn lemma_first_hit_from(c: Seq<Seq<char>>, p: Seq<bool>, k: int, i: int)
    requires
        0 <= k <= i < c.len(),
        present_at(p, i),
        forall|j: int| 0 <= j < i ==> !present_at(p, j),
    ensures
        first_hit_from(c, p, k) == Some(c[i]),
    decreases i - k,
{
    if k < i {
        lemma_first_hit_from(c, p, k + 1, i);
    }
}

/// The earliest present candidate wins over every later one.
pub proof fn lemma_first_hit_is_earliest(c: Seq<Seq<char>>, p: Seq<bool>, i: int)
    requires
        0 <= i < c.len(),
        present_at(p, i),
        forall|j: int| 0 <= j < i ==> !present_at(p, j),
    ensures
        first_hit_from(c, p, 0) == Some(c[i]),
{
    lemma_first_hit_from(c, p, 0, i);
}

/// Search precedence: when the first location holding the tool is local
/// candidate `i`, that path is chosen whatever PATH or the install
/// directories hold; with no local hit, a PATH hit is chosen over the
/// install directories; with no hit anywhere the tool is not found.
pub proof fn lemma_locator_precedence(layout: HostLayout, probe: BinaryProbe, tool: Seq<char>, i: int)
    ensures
        0 <= i < local_candidates_spec(layout, tool).len()
            && present_at(probe.local_present@, i)
            && (forall|j: int| 0 <= j < i ==> !present_at(probe.local_present@, j))
            ==> resolve_spec(layout, probe, tool) == Some(local_candidates_spec(layout, tool)[i]),
        first_hit_from(local_candidates_spec(layout, tool), probe.local_present@, 0) is None
            && probe.on_path is Some
            ==> resolve_spec(layout, probe, tool) == Some(probe.on_path->0@),
{
    let c = local_candidates_spec(layout, tool);
    if 0 <= i < c.len() && present_at(probe.local_present@, i)
        && (forall|j: int| 0 <= j < i ==> !present_at(probe.local_present@, j)) {
        lemma_first_hit_is_earliest(c, probe.local_present@, i);
    }
}

} // verus!
