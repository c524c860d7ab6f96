use vstd::prelude::*;

verus! {

/// What the filesystem reported about one immediate child of an input
/// directory: its path, whether it is a directory, and the names of the
/// entries directly inside it.
pub struct ChildEntry {
    pub path: String,
    pub is_dir: bool,
    pub entry_names: Vec<String>,
}

/// What the filesystem reported about one input directory: whether it
/// exists, the names of the entries directly inside it, and its immediate
/// children. Discovery looks one level down and no further.
pub struct DirListing {
    pub path: String,
    pub exists: bool,
    pub entry_names: Vec<String>,
    pub children: Vec<ChildEntry>,
}

/// A directory is a repository root when it directly contains the
/// version-control metadata entry `.git`.
pub open spec fn spec_is_git_repo(names: Seq<Seq<char>>) -> bool {
    exists|k: int| 0 <= k < names.len() && names[k] == ".git"@
}

/// A child of an input directory qualifies when it is itself a directory
/// and a repository root.
pub open spec fn spec_child_is_repo(c: ChildEntry) -> bool {
    c.is_dir && spec_is_git_repo(c.entry_names.deep_view())
}

/// The paths of the qualifying children of one input directory, in listing
/// order.
pub open spec fn spec_child_repos(children: Seq<ChildEntry>) -> Seq<Seq<char>>
    decreases children.len(),
{
    if children.len() == 0 {
        Seq::empty()
    } else {
        spec_child_repos(children.drop_last()) + (if spec_child_is_repo(children.last()) {
            seq![children.last().path@]
        } else {
            Seq::empty()
        })
    }
}

/// The repository roots one input directory contributes: nothing if it does
/// not exist; otherwise the directory itself when it is a repository root,
/// followed by its qualifying children. Nothing is deduplicated.
pub open spec fn spec_dir_repos(d: DirListing) -> Seq<Seq<char>> {
    if !d.exists {
        Seq::empty()
    } else {
        (if spec_is_git_repo(d.entry_names.deep_view()) {
            seq![d.path@]
        } else {
            Seq::empty()
        }) + spec_child_repos(d.children@)
    }
}

/// The full discovered list: each input directory's contribution, in input
/// order. A root nominated by two inputs appears twice.
pub open spec fn spec_discovered(dirs: Seq<DirListing>) -> Seq<Seq<char>>
    decreases dirs.len(),
{
    if dirs.len() == 0 {
        Seq::empty()
    } else {
        spec_discovered(dirs.drop_last()) + spec_dir_repos(dirs.last())
    }
}

/// Whether a directory with the given entry names is a repository root,
/// that is, directly contains a `.git` entry.
#[verifier::loop_isolation(false)]
pub fn is_git_repo(entry_names: &Vec<String>) -> (r: bool)
    ensures
        r == spec_is_git_repo(entry_names.deep_view()),
{
    let dot_git: String = String::from_str(".git");
    let mut k: usize = 0;
    while k < entry_names.len()
        invariant
            k <= entry_names@.len(),
            forall|m: int| 0 <= m < k ==> entry_names.deep_view()[m] != ".git"@,
        decreases entry_names@.len() - k,
    {
        if entry_names[k] == dot_git {
            assert(entry_names.deep_view()[k as int] == ".git"@);
            return true;
        }
        k += 1;
    }
    false
}

/// Collects the repository roots to process from the filesystem's report on
/// the input directories: each existing input that is itself a root, and
/// each of its immediate children that is one. Non-existent inputs are
/// skipped silently; duplicates are kept; order follows the listings.
#[verifier::loop_isolation(false)]
pub fn find_repos(dirs: &Vec<DirListing>) -> (repos: Vec<String>)
    ensures
        repos.deep_view() == spec_discovered(dirs@),
{
    let mut repos: Vec<String> = Vec::new();
    let mut i: usize = 0;
    while i < dirs.len()
        invariant
            i <= dirs@.len(),
            repos.deep_view() =~= spec_discovered(dirs@.take(i as int)),
        decreases dirs@.len() - i,
    {
        let ghost prev = repos.deep_view();
        let d = &dirs[i];
        if d.exists {
            if is_git_repo(&d.entry_names) {
                repos.push(d.path.clone());
            }
            let ghost base = repos.deep_view();
            let mut j: usize = 0;
            while j < d.children.len()
                invariant
                    j <= d.children@.len(),
                    repos.deep_view() =~= (base + spec_child_repos(d.children@.take(j as int))),
                decreases d.children@.len() - j,
            {
                let c = &d.children[j];
                proof {
                    assert(d.children@.take(j as int + 1).drop_last() =~= d.children@.take(
                        j as int,
                    ));
                    assert(d.children@.take(j as int + 1).last() == d.children@[j as int]);
                }
                if c.is_dir && is_git_repo(&c.entry_names) {
                    let ghost dv = repos.deep_view();
                    repos.push(c.path.clone());
                    proof {
                        assert(repos.deep_view() =~= dv.push(c.path@));
                        assert(spec_child_repos(d.children@.take(j as int + 1))
                            =~= (spec_child_repos(d.children@.take(j as int)) + seq![c.path@]));
                        assert(repos.deep_view() =~= (base + spec_child_repos(
                            d.children@.take(j as int + 1),
                        )));
                    }
                } else {
                    proof {
                        assert(repos.deep_view() =~= (base + spec_child_repos(
                            d.children@.take(j as int + 1),
                        )));
                    }
                }
                j += 1;
            }
            proof {
                assert(d.children@.take(d.children@.len() as int) =~= d.children@);
            }
        }
        proof {
            assert(dirs@.take(i as int + 1).drop_last() =~= dirs@.take(i as int));
            assert(dirs@.take(i as int + 1).last() == dirs@[i as int]);
            assert(repos.deep_view() =~= spec_discovered(dirs@.take(i as int + 1)));
        }
        i += 1;
    }
    proof {
        assert(dirs@.take(dirs@.len() as int) =~= dirs@);
    }
    repos
}

} // verus!
