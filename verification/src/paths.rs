//! Filesystem paths modelled as plain strings, and the data-directory
//! selection rule applied at startup.
use vstd::prelude::*;

verus! {

/// Joining a child onto a base directory: a single separator stands between
/// them, whether or not the base already ends in one.
pub open spec fn spec_join(base: Seq<char>, child: Seq<char>) -> Seq<char> {
    if base.len() > 0 && base.last() == '/' {
        base + child
    } else {
        base + seq!['/'] + child
    }
}

pub fn join_path(base: &str, child: &str) -> (r: String)
    ensures
        r@ == spec_join(base@, child@),
{
    proof {
        reveal_strlit("/");
    }
    let mut out = String::new();
    out.append(base);
    let n = base.unicode_len();
    if n == 0 || base.get_char(n - 1) != '/' {
        out.append("/");
    }
    out.append(child);
    out
}

/// Whether `suffix` is the tail of `s`.
pub open spec fn spec_ends_with(s: Seq<char>, suffix: Seq<char>) -> bool {
    s.len() >= suffix.len() && s.skip(s.len() - suffix.len()) == suffix
}

/// Joining always leaves a separator followed by the child as the tail, and
/// a non-empty child's last character ends the result.
pub proof fn lemma_join_suffix(base: Seq<char>, child: Seq<char>)
    ensures
        spec_ends_with(spec_join(base, child), seq!['/'] + child),
        child.len() > 0 ==> spec_join(base, child).last() == child.last(),
{
    let j = spec_join(base, child);
    let tail = seq!['/'] + child;
    if base.len() > 0 && base.last() == '/' {
        assert(j == base + child);
        assert(j.skip(j.len() - tail.len()) =~= tail);
    } else {
        assert(j == base + seq!['/'] + child);
        assert(j.skip(j.len() - tail.len()) =~= tail);
    }
}

/// The view of an optional environment value.
pub open spec fn spec_env_view(o: Option<String>) -> Option<Seq<char>> {
    match o {
        Some(s) => Some(s@),
        None => None,
    }
}

/// The data-directory candidates, in the strict order they are tried:
/// `$XDG_DATA_HOME/elysia`, `$HOME/.local/share/elysia`, and the working
/// directory joined with `elysia`. An unset variable contributes nothing.
pub open spec fn spec_data_dir_candidates(
    xdg_data_home: Option<Seq<char>>,
    home: Option<Seq<char>>,
    cwd: Option<Seq<char>>,
) -> Seq<Seq<char>> {
    (match xdg_data_home {
        Some(x) => seq![spec_join(x, "elysia"@)],
        None => Seq::empty(),
    }) + (match home {
        Some(h) => seq![spec_join(h, ".local/share/elysia"@)],
        None => Seq::empty(),
    }) + (match cwd {
        Some(c) => seq![spec_join(c, "elysia"@)],
        None => Seq::empty(),
    })
}

pub fn data_dir_candidates(
    xdg_data_home: &Option<String>,
    home: &Option<String>,
    cwd: &Option<String>,
) -> (r: Vec<String>)
    ensures
        r@.map_values(|s: String| s@) == spec_data_dir_candidates(
            spec_env_view(*xdg_data_home),
            spec_env_view(*home),
            spec_env_view(*cwd),
        ),
{
    let mut r: Vec<String> = Vec::new();
    match xdg_data_home {
        Some(x) => r.push(join_path(x.as_str(), "elysia")),
        None => (),
    }
    match home {
        Some(h) => r.push(join_path(h.as_str(), ".local/share/elysia")),
        None => (),
    }
    match cwd {
        Some(c) => r.push(join_path(c.as_str(), "elysia")),
        None => (),
    }
    proof {
        assert(r@.map_values(|s: String| s@) =~= spec_data_dir_candidates(
            spec_env_view(*xdg_data_home),
            spec_env_view(*home),
            spec_env_view(*cwd),
        ));
    }
    r
}

/// No candidate data directory was usable. Every attempted path is carried,
/// for the fatal diagnostic that names them all.
#[derive(Debug, Clone, PartialEq)]
pub struct DataDirError {
    pub attempted: Vec<String>,
}

/// The index of the first usable candidate.
pub open spec fn spec_first_usable(usable: Seq<bool>) -> Option<int>
    decreases usable.len(),
{
    if usable.len() == 0 {
        None
    } else if usable[0] {
        Some(0int)
    } else {
        match spec_first_usable(usable.skip(1)) {
            Some(i) => Some(i + 1),
            None => None,
        }
    }
}

proof fn lemma_first_usable_at(usable: Seq<bool>, i: int)
    requires
        0 <= i < usable.len(),
        usable[i],
        forall|j: int| 0 <= j < i ==> !usable[j],
    ensures
        spec_first_usable(usable) == Some(i),
    decreases i,
{
    if i == 0 {
    } else {
        assert(usable.skip(1)[i - 1] == usable[i]);
        lemma_first_usable_at(usable.skip(1), i - 1);
    }
}

proof fn lemma_first_usable_none(usable: Seq<bool>)
    requires
        forall|j: int| 0 <= j < usable.len() ==> !usable[j],
    ensures
        spec_first_usable(usable) is None,
    decreases usable.len(),
{
    if usable.len() > 0 {
        lemma_first_usable_none(usable.skip(1));
    }
}

fn clone_strings(v: &Vec<String>) -> (r: Vec<String>)
    ensures
        r@.len() == v@.len(),
        forall|j: int| 0 <= j < v@.len() ==> r@[j]@ == v@[j]@,
{
    let mut r: Vec<String> = Vec::new();
    let n = v.len();
    for i in 0..n
        invariant
            n == v@.len(),
            r@.len() == i,
            forall|j: int| 0 <= j < i ==> r@[j]@ == v@[j]@,
    {
        r.push(v[i].clone());
    }
    r
}

/// Pick the application's data directory: the first candidate that the
/// caller could create and found writable. When none passes, the error
/// carries every attempted path — a fatal startup condition for the caller.
pub fn pick_data_dir(candidates: &Vec<String>, usable: &Vec<bool>) -> (r: Result<
    String,
    DataDirError,
>)
    requires
        usable@.len() == candidates@.len(),
    ensures
        match spec_first_usable(usable@) {
            Some(i) => match r {
                Ok(d) => d@ == candidates@[i]@,
                Err(_) => false,
            },
            None => match r {
                Ok(_) => false,
                Err(e) => e.attempted@.len() == candidates@.len() && forall|j: int|
                    0 <= j < candidates@.len() ==> e.attempted@[j]@ == candidates@[j]@,
            },
        },
{
    let n = candidates.len();
    for i in 0..n
        invariant
            n == candidates@.len(),
            usable@.len() == candidates@.len(),
            forall|j: int| 0 <= j < i ==> !usable@[j],
    {
        if usable[i] {
            proof {
                lemma_first_usable_at(usable@, i as int);
            }
            return Ok(candidates[i].clone());
        }
    }
    proof {
        lemma_first_usable_none(usable@);
    }
    Err(DataDirError { attempted: clone_strings(candidates) })
}

} // verus!
