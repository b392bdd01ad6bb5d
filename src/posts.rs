//! Content files: naming new posts and listing existing ones.
use vstd::prelude::*;
use vstd::string::StringExecFns;
use vstd::multiset::Multiset;
use vstd::seq_lib::{to_multiset_build, to_multiset_contains, to_multiset_insert, to_multiset_len};
use vstd::string::StrSliceExecFns;
use crate::text::{
    ends_with, ends_with_spec, lower_of, lowercase, replace_char, replace_char_spec, starts_with,
    starts_with_spec, trim_end_all, trim_end_all_spec,
};

verus! {

/// The file name of a new post: the title with spaces turned into hyphens,
/// lowercased, with the `.md` extension.
pub open spec fn post_file_name_spec(title: Seq<char>) -> Seq<char> {
    lower_of(replace_char_spec(title, ' ', '-')) + ".md"@
}

/// The file name of a new post titled `title`.
pub fn post_file_name(title: &str) -> (r: String)
    ensures
        r@ == post_file_name_spec(title@),
{
    proof {
        reveal_strlit("-");
    }
    let hyphened = replace_char(title, ' ', "-");
    let mut r = lowercase(hyphened.as_str());
    r.append(".md");
    r
}


/// Deriving a post's file name is a function of the title alone: the same
/// title always gives the same name, which is the lowercased title with its
/// spaces turned into hyphens, plus `.md`. The hyphenated title holds no
/// space, so turning spaces into hyphens a second time changes nothing.
pub proof fn lemma_post_file_name_stable(title: Seq<char>, again: Seq<char>)
    requires
        again == title,
    ensures
        post_file_name_spec(again) == post_file_name_spec(title),
        post_file_name_spec(title) == lower_of(replace_char_spec(title, ' ', '-')) + ".md"@,
        forall|i: int| 0 <= i < title.len() ==> #[trigger] replace_char_spec(title, ' ', '-')[i] != ' ',
        replace_char_spec(replace_char_spec(title, ' ', '-'), ' ', '-') == replace_char_spec(title, ' ', '-'),
{
    assert(replace_char_spec(replace_char_spec(title, ' ', '-'), ' ', '-') =~= replace_char_spec(title, ' ', '-'));
}

/// A content file found in a project, as it is listed.
#[derive(Debug, Clone)]
pub struct PostInfo {
    pub title: String,
    pub path: String,
    pub date: Option<String>,
}

/// A file name whose extension is `md` or `markdown`: the part after its
/// last dot, with something before that dot.
pub open spec fn is_markdown_name(name: Seq<char>) -> bool {
    (ends_with_spec(name, ".md"@) && name.len() > 3)
        || (ends_with_spec(name, ".markdown"@) && name.len() > 9)
}

/// A file that is listed as a post: a markdown file whose name does not
/// start with `_` (section index pages do).
pub open spec fn is_listed_post(name: Seq<char>) -> bool {
    is_markdown_name(name) && !starts_with_spec(name, "_"@)
}

/// The title shown for a listed file: its name without trailing `.md`, then
/// without trailing `.markdown`, with hyphens and underscores turned into spaces.
pub open spec fn listed_title(name: Seq<char>) -> Seq<char> {
    replace_char_spec(
        replace_char_spec(trim_end_all_spec(trim_end_all_spec(name, ".md"@), ".markdown"@), '-', ' '),
        '_',
        ' ',
    )
}

/// The listing entry for the file `file_name` at `path`, if it is a post.
pub fn post_info(path: &str, file_name: &str) -> (r: Option<PostInfo>)
    ensures
        r is Some <==> is_listed_post(file_name@),
        r matches Some(p) ==> p.title@ == listed_title(file_name@) && p.path@ == path@ && p.date is None,
{
    let n = file_name.unicode_len();
    let markdown = (ends_with(file_name, ".md") && n > 3) || (ends_with(file_name, ".markdown") && n > 9);
    if !markdown || starts_with(file_name, "_") {
        return None;
    }
    let stem = trim_end_all(file_name, ".md");
    let stem = trim_end_all(stem.as_str(), ".markdown");
    proof {
        reveal_strlit(" ");
    }
    let title = replace_char(stem.as_str(), '-', " ");
    let title = replace_char(title.as_str(), '_', " ");
    Some(PostInfo { title, path: String::from_str(path), date: None })
}

/// `a` comes no later than `b` in code-point order, which for UTF-8 text is
/// the byte order that `String`'s `Ord` uses.
pub open spec fn lex_le(a: Seq<char>, b: Seq<char>) -> bool
    decreases a.len(),
{
    if a.len() == 0 {
        true
    } else if b.len() == 0 {
        false
    } else if a[0] != b[0] {
        (a[0] as int) < (b[0] as int)
    } else {
        lex_le(a.drop_first(), b.drop_first())
    }
}

/// Strictly before.
pub open spec fn lex_lt(a: Seq<char>, b: Seq<char>) -> bool {
    lex_le(a, b) && a != b
}

/// The order is total.
pub proof fn lemma_lex_total(a: Seq<char>, b: Seq<char>)
    ensures
        lex_le(a, b) || lex_le(b, a),
    decreases a.len(),
{
    if a.len() > 0 && b.len() > 0 {
        if a[0] == b[0] {
            lemma_lex_total(a.drop_first(), b.drop_first());
        }
    }
}

/// The order is reflexive.
pub proof fn lemma_lex_refl(a: Seq<char>)
    ensures
        lex_le(a, a),
    decreases a.len(),
{
    if a.len() > 0 {
        lemma_lex_refl(a.drop_first());
    }
}

/// The order is transitive.
pub proof fn lemma_lex_trans(a: Seq<char>, b: Seq<char>, c: Seq<char>)
    requires
        lex_le(a, b),
        lex_le(b, c),
    ensures
        lex_le(a, c),
    decreases a.len(),
{
    if a.len() > 0 && b.len() > 0 && c.len() > 0 && a[0] == b[0] && b[0] == c[0] {
        lemma_lex_trans(a.drop_first(), b.drop_first(), c.drop_first());
    }
}

/// Whether `a` comes strictly before `b`.
pub fn path_before(a: &str, b: &str) -> (r: bool)
    ensures
        r == lex_lt(a@, b@),
{
    let n = a.unicode_len();
    let m = b.unicode_len();
    let mut i: usize = 0;
    proof {
        assert(a@.skip(0) =~= a@);
        assert(b@.skip(0) =~= b@);
    }
    while i < n && i < m && a.get_char(i) == b.get_char(i)
        invariant
            n == a@.len(),
            m == b@.len(),
            i <= n,
            i <= m,
            a@.subrange(0, i as int) == b@.subrange(0, i as int),
            lex_le(a@, b@) == lex_le(a@.skip(i as int), b@.skip(i as int)),
        decreases n - i,
    {
        proof {
            let (sa, sb) = (a@.skip(i as int), b@.skip(i as int));
            assert(sa.drop_first() =~= a@.skip(i + 1));
            assert(sb.drop_first() =~= b@.skip(i + 1));
            assert(a@.subrange(0, i + 1) =~= a@.subrange(0, i as int).push(a@[i as int]));
            assert(b@.subrange(0, i + 1) =~= b@.subrange(0, i as int).push(b@[i as int]));
        }
        i = i + 1;
    }
    if i == n && i == m {
        proof {
            assert(a@ =~= a@.subrange(0, i as int));
            assert(b@ =~= b@.subrange(0, i as int));
        }
        false
    } else if i == n {
        proof {
            if a@ == b@ {
                assert(a@.len() == b@.len());
            }
        }
        true
    } else if i == m {
        false
    } else {
        let c = a.get_char(i);
        let d = b.get_char(i);
        proof {
            if a@ == b@ {
                assert(a@[i as int] == b@[i as int]);
            }
        }
        (c as u32) < (d as u32)
    }
}

/// Orders posts by path, last path first.
pub fn sort_newest_first(posts: Vec<PostInfo>) -> (r: Vec<PostInfo>)
    ensures
        r@.to_multiset() == posts@.to_multiset(),
        forall|i: int, j: int| 0 <= i < j < r@.len() ==> lex_le(r@[j].path@, r@[i].path@),
{
    broadcast use to_multiset_build, to_multiset_insert, vstd::multiset::group_multiset_axioms;

    let mut rest = posts;
    let mut r: Vec<PostInfo> = Vec::new();
    proof {
        to_multiset_len(r@);
        assert(r@.to_multiset() =~= Multiset::empty());
        assert(r@.to_multiset().add(rest@.to_multiset()) =~= posts@.to_multiset());
    }
    while rest.len() > 0
        invariant
            r@.to_multiset().add(rest@.to_multiset()) == posts@.to_multiset(),
            forall|i: int, j: int| 0 <= i < j < r@.len() ==> lex_le(r@[j].path@, r@[i].path@),
        decreases rest@.len(),
    {
        let ghost before = rest@;
        let p = rest.pop().unwrap();
        assert(before =~= rest@.push(p));
        let mut k: usize = 0;
        while k < r.len() && !path_before(r[k].path.as_str(), p.path.as_str())
            invariant
                k <= r@.len(),
                forall|j: int| 0 <= j < k ==> lex_le(p.path@, r@[j].path@),
            decreases r@.len() - k,
        {
            proof {
                lemma_lex_total(p.path@, r@[k as int].path@);
                lemma_lex_refl(p.path@);
            }
            k = k + 1;
        }
        let ghost old_r = r@;
        r.insert(k, p);
        proof {
            to_multiset_build(rest@, p);
            assert(before.to_multiset() == rest@.to_multiset().insert(p));
            assert(r@ == old_r.insert(k as int, p));
            to_multiset_insert(old_r, k as int, p);
            assert(r@.to_multiset() == old_r.to_multiset().insert(p));
            assert(r@.to_multiset().add(rest@.to_multiset()) =~= posts@.to_multiset());
        }
        assert forall|i: int, j: int| 0 <= i < j < r@.len() implies lex_le(r@[j].path@, r@[i].path@) by {
            if j == k {
            } else if i == k {
                // r@[j] == old_r[j - 1], which sorts no later than old_r[k], which is before p
                if j - 1 > k {
                    lemma_lex_trans(old_r[j - 1].path@, old_r[k as int].path@, p.path@);
                }
            } else if i < k && j > k {
                if j - 1 >= k {
                    if j - 1 > k {
                        lemma_lex_trans(old_r[j - 1].path@, old_r[k as int].path@, p.path@);
                    }
                    lemma_lex_trans(old_r[j - 1].path@, p.path@, old_r[i].path@);
                }
            }
        }
    }
    proof {
        to_multiset_len(rest@);
        assert(rest@.to_multiset() =~= Multiset::empty());
        assert(r@.to_multiset() =~= r@.to_multiset().add(rest@.to_multiset()));
    }
    r
}


/// A file found under a project's content directory.
#[derive(Debug, Clone)]
pub struct ContentFile {
    /// Its full path.
    pub path: String,
    /// Its name, the last component of `path`.
    pub file_name: String,
}

/// `p` is the listing entry of `f`.
pub open spec fn lists(p: PostInfo, f: ContentFile) -> bool {
    &&& is_listed_post(f.file_name@)
    &&& p.path@ == f.path@
    &&& p.title@ == listed_title(f.file_name@)
    &&& p.date is None
}

/// `p` is the listing entry of one of `files`.
pub open spec fn lists_one_of(p: PostInfo, files: Seq<ContentFile>) -> bool {
    exists|j: int| 0 <= j < files.len() && lists(p, #[trigger] files[j])
}

/// The posts among `files`, last path first: each entry lists one of the
/// files, and each listed file has an entry.
pub fn list_posts(files: &Vec<ContentFile>) -> (r: Vec<PostInfo>)
    ensures
        forall|i: int| 0 <= i < r@.len() ==> lists_one_of(#[trigger] r@[i], files@),
        forall|j: int|
            0 <= j < files@.len() && is_listed_post(#[trigger] files@[j].file_name@) ==> exists|i: int|
                0 <= i < r@.len() && #[trigger] lists(r@[i], files@[j]),
        forall|i: int, j: int| 0 <= i < j < r@.len() ==> lex_le(r@[j].path@, r@[i].path@),
{
    let mut found: Vec<PostInfo> = Vec::new();
    let ghost mut src: Seq<int> = Seq::empty();
    let ghost mut pos: Seq<int> = Seq::empty();
    let mut k: usize = 0;
    while k < files.len()
        invariant
            k <= files@.len(),
            src.len() == found@.len(),
            pos.len() == k,
            forall|i: int| 0 <= i < found@.len() ==> 0 <= #[trigger] src[i] < k && lists(found@[i], files@[src[i]]),
            forall|j: int| 0 <= j < k && is_listed_post(files@[j].file_name@) ==>
                0 <= #[trigger] pos[j] < found@.len() && lists(found@[pos[j]], files@[j]),
        decreases files@.len() - k,
    {
        let f = &files[k];
        if let Some(p) = post_info(f.path.as_str(), f.file_name.as_str()) {
            proof {
                pos = pos.push(found@.len() as int);
                src = src.push(k as int);
            }
            found.push(p);
        } else {
            proof {
                pos = pos.push(0);
            }
        }
        k = k + 1;
    }
    let ghost unsorted = found@;
    let r = sort_newest_first(found);
    proof {
        assert forall|i: int| 0 <= i < r@.len() implies lists_one_of(#[trigger] r@[i], files@) by {
            to_multiset_contains(r@, r@[i]);
            to_multiset_contains(unsorted, r@[i]);
            assert(r@.contains(r@[i]));
            let t = choose|t: int| 0 <= t < unsorted.len() && unsorted[t] == r@[i];
            assert(lists(r@[i], files@[src[t]]));
        }
        assert forall|j: int|
            0 <= j < files@.len() && is_listed_post(#[trigger] files@[j].file_name@) implies exists|i: int|
                0 <= i < r@.len() && #[trigger] lists(r@[i], files@[j]) by {
            let t = pos[j];
            to_multiset_contains(r@, unsorted[t]);
            to_multiset_contains(unsorted, unsorted[t]);
            assert(unsorted.contains(unsorted[t]));
            let i = choose|i: int| 0 <= i < r@.len() && r@[i] == unsorted[t];
            assert(lists(r@[i], files@[j]));
        }
    }
    r
}

} // verus!
