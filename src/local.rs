//! What runs on the host: environment entries, commands given by the user,
//! and the build and run phases of a runtime.
use vstd::prelude::*;
use crate::file_type::{leading_args_spec, FileType};
use crate::path::{file_stem, stem_of};
use crate::text::{find_first, first_pos, slice_text, split_words, words};

verus! {

/// A `KEY=VALUE` entry split at its first `=`; none without a `=`.
pub open spec fn env_entry_spec(e: Seq<char>) -> Option<(Seq<char>, Seq<char>)> {
    let i = first_pos(e, '=');
    if i == e.len() {
        None
    } else {
        Some((e.subrange(0, i), e.subrange(i + 1, e.len() as int)))
    }
}

/// The variables that `entries` set, in order, or the first entry that is
/// not of the form `KEY=VALUE`.
pub open spec fn env_pairs(entries: Seq<Seq<char>>) -> Result<
    Seq<(Seq<char>, Seq<char>)>,
    Seq<char>,
>
    decreases entries.len(),
{
    if entries.len() == 0 {
        Ok(seq![])
    } else {
        match env_entry_spec(entries[0]) {
            None => Err(entries[0]),
            Some(kv) => match env_pairs(entries.drop_first()) {
                Ok(rest) => Ok(seq![kv] + rest),
                Err(e) => Err(e),
            },
        }
    }
}

/// A process to start, as the contracts see it.
pub struct InvocationView {
    pub program: Seq<char>,
    pub args: Seq<Seq<char>>,
    pub env: Seq<(Seq<char>, Seq<char>)>,
}

/// A process to start: the program, its arguments, and the variables added
/// to its environment.
pub struct Invocation {
    pub program: String,
    pub args: Vec<String>,
    pub env: Vec<(String, String)>,
}

impl View for Invocation {
    type V = InvocationView;

    open spec fn view(&self) -> InvocationView {
        InvocationView {
            program: self.program@,
            args: self.args.deep_view(),
            env: self.env.deep_view(),
        }
    }
}

/// A user's command for the file at `path`: its first word is the program,
/// the other words and then the path are the arguments. None when the
/// command has no word.
pub open spec fn override_spec(
    command: Seq<char>,
    path: Seq<char>,
    env: Seq<(Seq<char>, Seq<char>)>,
) -> Option<InvocationView> {
    let w = words(command);
    if w.len() == 0 {
        None
    } else {
        Some(InvocationView { program: w[0], args: w.drop_first().push(path), env })
    }
}

/// Where the build of a source file with stem `stem` leaves its artifact.
pub open spec fn artifact_spec(stem: Seq<char>) -> Seq<char> {
    "/tmp/"@ + stem + "-runner-build"@
}

/// The artifact path for the source at `path`; none when it names no file.
pub open spec fn artifact_for_path(path: Seq<char>) -> Option<Seq<char>> {
    match stem_of(path) {
        Some(s) => Some(artifact_spec(s)),
        None => None,
    }
}

/// The build phase: the compiler gets the source and `-o <artifact>`.
pub open spec fn build_spec(
    compiler: Seq<char>,
    path: Seq<char>,
    artifact: Seq<char>,
    env: Seq<(Seq<char>, Seq<char>)>,
) -> InvocationView {
    InvocationView { program: compiler, args: seq![path, "-o"@, artifact], env }
}

/// The run phase of a built artifact: no arguments.
pub open spec fn artifact_run_spec(
    artifact: Seq<char>,
    env: Seq<(Seq<char>, Seq<char>)>,
) -> InvocationView {
    InvocationView { program: artifact, args: seq![], env }
}

/// The single phase of a runtime that runs its source in place.
pub open spec fn interpret_spec(
    ft: FileType,
    program: Seq<char>,
    path: Seq<char>,
    env: Seq<(Seq<char>, Seq<char>)>,
) -> InvocationView {
    InvocationView { program, args: leading_args_spec(ft).push(path), env }
}

/// Splits a `KEY=VALUE` entry at its first `=`.
pub fn split_env_entry(e: &str) -> (r: Option<(String, String)>)
    ensures
        match r {
            Some((k, v)) => env_entry_spec(e@) == Some((k@, v@)),
            None => env_entry_spec(e@) is None,
        },
{
    match find_first(e, '=') {
        None => None,
        Some(i) => {
            let n = e.unicode_len();
            Some((slice_text(e, 0, i), slice_text(e, i + 1, n)))
        },
    }
}

/// The variables that `entries` set, or the first malformed entry.
pub fn parse_env(entries: &Vec<String>) -> (r: Result<Vec<(String, String)>, String>)
    ensures
        match r {
            Ok(v) => env_pairs(entries.deep_view()) == Ok::<_, Seq<char>>(v.deep_view()),
            Err(e) => env_pairs(entries.deep_view()) == Err::<Seq<(Seq<char>, Seq<char>)>, _>(
                e@,
            ),
        },
{
    let ghost all = entries.deep_view();
    let n = entries.len();
    let mut out: Vec<(String, String)> = Vec::new();
    let mut i: usize = 0;
    assert(all.subrange(0, n as int) =~= all);
    while i < n
        invariant
            n == entries.len(),
            all == entries.deep_view(),
            i <= n,
            env_pairs(all) == match env_pairs(all.subrange(i as int, n as int)) {
                Ok(rest) => Ok(out.deep_view() + rest),
                Err(e) => Err(e),
            },
        decreases n - i,
    {
        let ghost rest = all.subrange(i as int, n as int);
        let ghost before = out.deep_view();
        assert(rest.drop_first() =~= all.subrange(i + 1, n as int));
        assert(rest[0] == entries[i as int]@);
        match split_env_entry(entries[i].as_str()) {
            None => {
                return Err(entries[i].clone());
            },
            Some(kv) => {
                let ghost kvv = (kv.0@, kv.1@);
                out.push(kv);
                proof {
                    assert(out.deep_view() =~= before.push(kvv));
                    match env_pairs(all.subrange(i + 1, n as int)) {
                        Ok(tail) => {
                            assert(before.push(kvv) + tail =~= before + (seq![kvv] + tail));
                        },
                        Err(_) => {},
                    }
                }
            },
        }
        i = i + 1;
    }
    assert(out.deep_view() + seq![] =~= out.deep_view());
    Ok(out)
}

/// The process for a user's command on the file at `path`; `None` when the
/// command has no word.
pub fn override_invocation(command: &str, path: &str, env: Vec<(String, String)>) -> (r: Option<
    Invocation,
>)
    ensures
        match r {
            Some(inv) => override_spec(command@, path@, env.deep_view()) == Some(inv@),
            None => override_spec(command@, path@, env.deep_view()) is None,
        },
{
    let mut w = split_words(command);
    if w.len() == 0 {
        return None;
    }
    let ghost all = w.deep_view();
    let program = w.remove(0);
    assert(w.deep_view() =~= all.drop_first());
    let ghost rest = w.deep_view();
    w.push(String::from_str(path));
    assert(w.deep_view() =~= rest.push(path@));
    Some(Invocation { program, args: w, env })
}

/// Where the build of a source file with stem `stem` leaves its artifact.
pub fn artifact_path(stem: &str) -> (r: String)
    ensures
        r@ == artifact_spec(stem@),
{
    String::from_str("/tmp/").concat(stem).concat("-runner-build")
}

/// The artifact path for the source at `path`; `None` when it names no file.
pub fn artifact_for(path: &str) -> (r: Option<String>)
    ensures
        match r {
            Some(a) => artifact_for_path(path@) == Some(a@),
            None => artifact_for_path(path@) is None,
        },
{
    match file_stem(path) {
        Some(s) => Some(artifact_path(s.as_str())),
        None => None,
    }
}

/// The build phase of the source at `path`.
pub fn build_invocation(
    compiler: &str,
    path: &str,
    artifact: &str,
    env: Vec<(String, String)>,
) -> (r: Invocation)
    ensures
        r@ == build_spec(compiler@, path@, artifact@, env.deep_view()),
{
    let mut args: Vec<String> = Vec::new();
    args.push(String::from_str(path));
    args.push(String::from_str("-o"));
    args.push(String::from_str(artifact));
    assert(args.deep_view() =~= seq![path@, "-o"@, artifact@]);
    Invocation { program: String::from_str(compiler), args, env }
}

/// The run phase of a built artifact.
pub fn artifact_invocation(artifact: &str, env: Vec<(String, String)>) -> (r: Invocation)
    ensures
        r@ == artifact_run_spec(artifact@, env.deep_view()),
{
    let args: Vec<String> = Vec::new();
    assert(args.deep_view() =~= seq![]);
    Invocation { program: String::from_str(artifact), args, env }
}

/// The single phase of a runtime that runs its source in place.
pub fn interpret_invocation(
    ft: FileType,
    program: &str,
    path: &str,
    env: Vec<(String, String)>,
) -> (r: Invocation)
    ensures
        r@ == interpret_spec(ft, program@, path@, env.deep_view()),
{
    let mut args = ft.leading_args();
    let ghost lead = args.deep_view();
    args.push(String::from_str(path));
    assert(args.deep_view() =~= lead.push(path@));
    Invocation { program: String::from_str(program), args, env }
}

} // verus!
