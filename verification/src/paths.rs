//! Path confinement: the root-relative location at which the command is
//! staged, and the check that keeps archive entries inside the target
//! directory. Everything that will be written under the sandbox root goes
//! through the predicates of this module.

use vstd::prelude::*;

verus! {

/// `s` with every leading `/` removed.
pub open spec fn strip_slashes(s: Seq<char>) -> Seq<char>
    decreases s.len(),
{
    if s.len() > 0 && s[0] == '/' {
        strip_slashes(s.drop_first())
    } else {
        s
    }
}

/// Some component of the `/`-separated path `s` is exactly `..`.
pub open spec fn has_dotdot_component(s: Seq<char>) -> bool {
    exists|i: int|
        {
            &&& 0 <= i
            &&& i + 2 <= s.len()
            &&& #[trigger] s[i] == '.'
            &&& s[i + 1] == '.'
            &&& (i == 0 || s[i - 1] == '/')
            &&& (i + 2 == s.len() || s[i + 2] == '/')
        }
}

/// A root-relative path that stays strictly under the directory it is joined
/// to: non-empty, not absolute, and free of `..` components. (Rejecting every
/// `..` component is deliberately stricter than rejecting only escaping
/// paths.)
pub open spec fn confined_rel_path(s: Seq<char>) -> bool {
    &&& s.len() > 0
    &&& s[0] != '/'
    &&& !has_dotdot_component(s)
}

/// The command path `cmd` can be staged: once its leading `/`s are stripped,
/// a confined relative path remains.
pub open spec fn stageable(cmd: Seq<char>) -> bool {
    confined_rel_path(strip_slashes(cmd))
}

proof fn lemma_strip_slashes_is_suffix(s: Seq<char>, k: int)
    requires
        0 <= k <= s.len(),
        forall|j: int| 0 <= j < k ==> s[j] == '/',
        k == s.len() || s[k] != '/',
    ensures
        strip_slashes(s) =~= s.subrange(k, s.len() as int),
    decreases k,
{
    if k == 0 {
        if s.len() > 0 {
            assert(s[0] != '/');
        }
        assert(s.subrange(0, s.len() as int) =~= s);
    } else {
        assert(s[0] == '/');
        let t = s.drop_first();
        assert(forall|j: int| 0 <= j < k - 1 ==> t[j] == '/');
        lemma_strip_slashes_is_suffix(t, k - 1);
        assert(t.subrange(k - 1, t.len() as int) =~= s.subrange(k, s.len() as int));
    }
}

/// Whether some component of `p` is exactly `..`.
pub fn has_dotdot(p: &str) -> (r: bool)
    ensures
        r == has_dotdot_component(p@),
{
    let n = p.unicode_len();
    let mut i: usize = 0;
    let mut found = false;
    proof {
        reveal_strlit("/");
        reveal_strlit(".");
    }
    while i < n && !found
        invariant
            n == p@.len(),
            0 <= i <= n,
            found ==> has_dotdot_component(p@),
            !found ==> forall|j: int|
                0 <= j < i ==> !{
                    &&& j + 2 <= p@.len()
                    &&& #[trigger] p@[j] == '.'
                    &&& p@[j + 1] == '.'
                    &&& (j == 0 || p@[j - 1] == '/')
                    &&& (j + 2 == p@.len() || p@[j + 2] == '/')
                },
        decreases n - i,
    {
        if n - i >= 2 {
            let c0 = p.get_char(i);
            let c1 = p.get_char(i + 1);
            let before_ok = if i == 0 {
                true
            } else {
                p.get_char(i - 1) == '/'
            };
            let after_ok = if i + 2 == n {
                true
            } else {
                p.get_char(i + 2) == '/'
            };
            if c0 == '.' && c1 == '.' && before_ok && after_ok {
                found = true;
            }
        }
        i = i + 1;
    }
    found
}

/// The root-relative path at which the command is staged: the command path
/// with its leading `/`s stripped. `None` when nothing confined remains —
/// a path that is empty or slashes only, or one that still carries a `..`
/// component and so could resolve outside the root.
pub fn staging_path(cmd: &str) -> (r: Option<String>)
    ensures
        r is Some <==> stageable(cmd@),
        r matches Some(p) ==> p@ == strip_slashes(cmd@),
{
    let n = cmd.unicode_len();
    let mut k: usize = 0;
    while k < n && cmd.get_char(k) == '/'
        invariant
            n == cmd@.len(),
            0 <= k <= n,
            forall|j: int| 0 <= j < k ==> cmd@[j] == '/',
        decreases n - k,
    {
        k = k + 1;
    }
    proof {
        lemma_strip_slashes_is_suffix(cmd@, k as int);
    }
    let rel = cmd.substring_char(k, n);
    if rel.unicode_len() == 0 {
        return None;
    }
    proof {
        reveal_strlit("/");
    }
    if rel.get_char(0) == '/' {
        // cannot happen: the loop stopped at a non-slash; kept as a guard
        return None;
    }
    if has_dotdot(rel) {
        return None;
    }
    Some(rel.to_owned())
}

/// Whether an archive entry may be extracted: its path must be a confined
/// relative path, else the entry escapes the target directory and the whole
/// extraction is rejected.
pub fn entry_path_is_safe(entry: &str) -> (r: bool)
    ensures
        r == confined_rel_path(entry@),
{
    let n = entry.unicode_len();
    if n == 0 {
        return false;
    }
    proof {
        reveal_strlit("/");
    }
    if entry.get_char(0) == '/' {
        return false;
    }
    !has_dotdot(entry)
}

/// Staging round trip: for an ordinary absolute command path `/x…`, joining
/// the new root `/` with the staged relative path gives back exactly the
/// original path — after the root switch, the command is found at the same
/// absolute path it had outside.
pub proof fn lemma_staging_round_trip(cmd: Seq<char>)
    requires
        cmd.len() > 0,
        cmd[0] == '/',
        cmd.len() == 1 || cmd[1] != '/',
    ensures
        seq!['/'] + strip_slashes(cmd) =~= cmd,
{
    lemma_strip_slashes_is_suffix(cmd, 1);
}

/// Confinement: whenever staging succeeds, the staged location is a confined
/// relative path — non-empty, not absolute, without `..` components — so the
/// staged copy lies strictly under the sandbox root, whether the original
/// command path was absolute or relative.
pub proof fn lemma_staged_command_confined(cmd: Seq<char>)
    requires
        stageable(cmd),
    ensures
        confined_rel_path(strip_slashes(cmd)),
{
}

} // verus!
