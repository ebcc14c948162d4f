use vstd::prelude::*;
use vstd::string::{StrSliceExecFns, StringExecFns};

verus! {

/// What `.envrc` receives: the direnv command that enters the flake's shell.
pub open spec fn envrc_line() -> Seq<char> {
    "use flake . -Lv"@
}

/// What `.gitignore` receives: direnv's cache directory.
pub open spec fn gitignore_line() -> Seq<char> {
    ".direnv/"@
}

/// The marker line that separates what a file held from what a run adds.
pub open spec fn delimiter_line() -> Seq<char> {
    "# added by flake-gen\n"@
}

/// A line break that closes the last line of `existing`, if it is open.
pub open spec fn line_closer(existing: Seq<char>) -> Seq<char> {
    if existing.len() > 0 && existing.last() != '\n' {
        seq!['\n']
    } else {
        Seq::empty()
    }
}

/// Content of a dotfile after a run adds `addition` to it. A missing file is
/// treated as an empty one: both receive `addition` verbatim. A non-empty
/// file keeps every byte and gets the marker line, then `addition`.
pub open spec fn appended(existing: Seq<char>, addition: Seq<char>) -> Seq<char> {
    if existing.len() == 0 {
        addition
    } else {
        existing + line_closer(existing) + delimiter_line() + addition
    }
}

/// The text written to `.envrc`.
pub fn envrc_contents() -> (r: String)
    ensures
        r@ == envrc_line(),
{
    String::from_str("use flake . -Lv")
}

/// The text written to `.gitignore`.
pub fn gitignore_contents() -> (r: String)
    ensures
        r@ == gitignore_line(),
{
    String::from_str(".direnv/")
}

/// The new content of a dotfile that held `existing` (empty for a missing
/// file) once `addition` is added to it.
pub fn append_contents(existing: &str, addition: &str) -> (r: String)
    ensures
        r@ == appended(existing@, addition@),
{
    if existing.is_empty() {
        return String::from_str(addition);
    }
    let mut r = String::from_str(existing);
    let n = existing.unicode_len();
    if existing.get_char(n - 1) != '\n' {
        r.append("\n");
    }
    r.append("# added by flake-gen\n");
    r.append(addition);
    proof {
        reveal_strlit("\n");
    }
    assert(r@ =~= appended(existing@, addition@));
    r
}

/// Adding to a non-empty dotfile keeps all it held as a strict prefix.
pub proof fn lemma_append_keeps_prefix(existing: Seq<char>, addition: Seq<char>)
    requires
        existing.len() > 0,
    ensures
        appended(existing, addition).len() > existing.len(),
        appended(existing, addition).subrange(0, existing.len() as int) == existing,
{
    reveal_strlit("# added by flake-gen\n");
    let r = appended(existing, addition);
    assert(r.subrange(0, existing.len() as int) =~= existing);
}

} // verus!
