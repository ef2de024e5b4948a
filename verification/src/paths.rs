//! Path-string helpers for the sort engine: the suffix test behind the
//! image-extension allowlist, extraction of a path's base name, and joining
//! a destination directory with a base name.

use vstd::prelude::*;

verus! {

/// The path separator used when a target path is built from a destination
/// directory and a file's base name.
pub open spec fn separator() -> char {
    '/'
}

/// A path names an image exactly when it carries one of the allowlisted
/// extensions. The match is an exact suffix match, case-sensitive.
pub open spec fn is_image_name(s: Seq<char>) -> bool {
    ||| seq!['.', 'j', 'p', 'g'].is_suffix_of(s)
    ||| seq!['.', 'j', 'p', 'e', 'g'].is_suffix_of(s)
    ||| seq!['.', 'p', 'n', 'g'].is_suffix_of(s)
}

/// Length of the longest suffix of `s` that contains no separator; the
/// base name of `s` is exactly that suffix.
pub open spec fn base_name_len(s: Seq<char>) -> nat
    decreases s.len(),
{
    if s.len() == 0 {
        0
    } else if s.last() == separator() {
        0
    } else {
        1 + base_name_len(s.drop_last())
    }
}

/// The base name of a path: the part after the final separator, or the
/// whole path when it holds no separator.
pub open spec fn base_name(s: Seq<char>) -> Seq<char> {
    s.subrange(s.len() - base_name_len(s), s.len() as int)
}

/// A directory joined with a base name: `dir`, one separator, `name`.
pub open spec fn join_path(dir: Seq<char>, name: Seq<char>) -> Seq<char> {
    dir + seq![separator()] + name
}

/// A scan that stopped at position `k` — no separator at or after `k`, and
/// either the start of the string or a separator just before `k` — has found
/// exactly the base name.
proof fn lemma_base_name_len_from_scan(s: Seq<char>, k: int)
    requires
        0 <= k <= s.len(),
        forall|j: int| k <= j < s.len() ==> s[j] != separator(),
        k == 0 || s[k - 1] == separator(),
    ensures
        base_name_len(s) == s.len() - k,
    decreases s.len(),
{
    if s.len() == 0 {
    } else if k == s.len() {
        assert(s.last() == separator() || k == 0);
    } else {
        assert(s.last() != separator());
        lemma_base_name_len_from_scan(s.drop_last(), k);
    }
}

/// Whether `s` ends with `suffix`, compared character by character.
pub fn ends_with_str(s: &str, suffix: &str) -> (r: bool)
    ensures
        r == suffix@.is_suffix_of(s@),
{
    let n = s.unicode_len();
    let m = suffix.unicode_len();
    if m > n {
        return false;
    }
    let mut i: usize = 0;
    while i < m
        invariant
            0 <= i <= m,
            m <= n,
            n == s@.len(),
            m == suffix@.len(),
            forall|j: int| 0 <= j < i ==> s@[n - m + j] == suffix@[j],
        decreases m - i,
    {
        if s.get_char(n - m + i) != suffix.get_char(i) {
            assert(!suffix@.is_suffix_of(s@)) by {
                assert(s@.subrange(n - m, n as int)[i as int] == s@[n - m + i]);
            }
            return false;
        }
        i += 1;
    }
    assert(suffix@ =~= s@.subrange(n - m, n as int));
    true
}

/// Whether `path` carries one of the allowlisted image extensions:
/// `.jpg`, `.jpeg` or `.png`, exactly and case-sensitively.
pub fn is_image_file(path: &str) -> (r: bool)
    ensures
        r == is_image_name(path@),
{
    proof {
        reveal_strlit(".jpg");
        reveal_strlit(".jpeg");
        reveal_strlit(".png");
        assert(".jpg"@ =~= seq!['.', 'j', 'p', 'g']);
        assert(".jpeg"@ =~= seq!['.', 'j', 'p', 'e', 'g']);
        assert(".png"@ =~= seq!['.', 'p', 'n', 'g']);
    }
    ends_with_str(path, ".jpg") || ends_with_str(path, ".jpeg") || ends_with_str(path, ".png")
}

/// The base name of `path`: everything after the final separator.
pub fn base_name_of(path: &str) -> (r: String)
    ensures
        r@ == base_name(path@),
{
    let n = path.unicode_len();
    let mut k: usize = n;
    while k > 0 && path.get_char(k - 1) != '/'
        invariant
            0 <= k <= n,
            n == path@.len(),
            forall|j: int| k <= j < n ==> path@[j] != separator(),
        decreases k,
    {
        k -= 1;
    }
    proof {
        lemma_base_name_len_from_scan(path@, k as int);
    }
    path.substring_char(k, n).to_owned()
}

/// The image names among `names`, in order: the result of the allowlist
/// filter on a directory listing.
pub open spec fn image_names_of(names: Seq<Seq<char>>) -> Seq<Seq<char>> {
    names.filter(|s: Seq<char>| is_image_name(s))
}

proof fn lemma_image_names_of_empty(names: Seq<Seq<char>>)
    ensures
        image_names_of(names.take(0)) == Seq::<Seq<char>>::empty(),
{
    reveal(Seq::filter);
    assert(names.take(0) =~= Seq::<Seq<char>>::empty());
}

proof fn lemma_image_names_of_step(names: Seq<Seq<char>>, i: int)
    requires
        0 <= i < names.len(),
    ensures
        image_names_of(names.take(i + 1)) == if is_image_name(names[i]) {
            image_names_of(names.take(i)).push(names[i])
        } else {
            image_names_of(names.take(i))
        },
{
    reveal(Seq::filter);
    assert(names.take(i + 1).drop_last() =~= names.take(i));
    assert(names.take(i + 1).last() == names[i]);
}

/// Keeps, in order, exactly the names that carry an allowlisted image
/// extension.
pub fn filter_images(names: Vec<String>) -> (r: Vec<String>)
    ensures
        r.deep_view() == image_names_of(names.deep_view()),
{
    let mut r: Vec<String> = Vec::new();
    proof {
        lemma_image_names_of_empty(names.deep_view());
        assert(r.deep_view() =~= Seq::<Seq<char>>::empty());
    }
    let n = names.len();
    let mut i: usize = 0;
    while i < n
        invariant
            0 <= i <= n,
            n == names.deep_view().len(),
            n == names@.len(),
            r.deep_view() == image_names_of(names.deep_view().take(i as int)),
        decreases n - i,
    {
        let ghost old_r = r.deep_view();
        let keep = is_image_file(names[i].as_str());
        if keep {
            r.push(names[i].clone());
        }
        proof {
            let dv = names.deep_view();
            assert(dv[i as int] == names@[i as int]@);
            lemma_image_names_of_step(dv, i as int);
            if keep {
                assert(r.deep_view() =~= old_r.push(dv[i as int]));
            }
        }
        i += 1;
    }
    proof {
        assert(names.deep_view().take(n as int) =~= names.deep_view());
    }
    r
}

/// `dir`, one separator, then `name`.
pub fn join(dir: &str, name: &str) -> (r: String)
    ensures
        r@ == join_path(dir@, name@),
{
    let mut r = dir.to_owned();
    r.append("/");
    r.append(name);
    proof {
        reveal_strlit("/");
        assert(r@ =~= join_path(dir@, name@));
    }
    r
}

} // verus!
