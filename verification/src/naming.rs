//! The workspace naming engine: derives a new name for the focused
//! workspace from its current name and the running application's identity.
//!
//! The new name keeps a stable prefix — everything before the first `:` of
//! the current name — so that renaming an already-renamed workspace
//! re-extracts the same prefix instead of drifting.

use vstd::prelude::*;

use crate::errors::DecisionError;
use crate::events::ContainerInfo;

verus! {

/// What the naming engine reads of one workspace.
#[derive(Debug)]
pub struct WorkspaceInfo {
    /// The workspace name.
    pub name: String,
    /// Whether the workspace is currently focused.
    pub focused: bool,
    /// Ids of the workspace's focused descendants; empty when the
    /// workspace has no window.
    pub focus: Vec<i64>,
}

/// The stable prefix of a workspace name: everything before the first
/// `:`, or the whole name when it has none.
pub open spec fn ws_num_of(s: Seq<char>) -> Seq<char>
    decreases s.len(),
{
    if s.len() == 0 {
        s
    } else if s[0] == ':' {
        Seq::empty()
    } else {
        seq![s[0]] + ws_num_of(s.skip(1))
    }
}

/// `s` without its leading hyphens.
pub open spec fn drop_leading_hyphens(s: Seq<char>) -> Seq<char>
    decreases s.len(),
{
    if s.len() > 0 && s[0] == '-' {
        drop_leading_hyphens(s.skip(1))
    } else {
        s
    }
}

/// `s` without its trailing hyphens.
pub open spec fn drop_trailing_hyphens(s: Seq<char>) -> Seq<char>
    decreases s.len(),
{
    if s.len() > 0 && s.last() == '-' {
        drop_trailing_hyphens(s.drop_last())
    } else {
        s
    }
}

/// `s` without its leading and trailing hyphens.
pub open spec fn trim_hyphens(s: Seq<char>) -> Seq<char> {
    drop_trailing_hyphens(drop_leading_hyphens(s))
}

/// What lower-casing a string yields.
pub uninterp spec fn lower_of(s: Seq<char>) -> Seq<char>;

/// Relies on `str::to_lowercase`: the result depends on the characters
/// alone.
#[verifier::external_body]
fn to_lowercase(s: &str) -> (r: String)
    ensures
        r@ == lower_of(s@),
        s@.len() == 0 ==> r@.len() == 0,
{
    s.to_lowercase()
}

/// An application identity, normalized: hyphens trimmed from both ends,
/// then lower-cased.
pub open spec fn normalized_identity(s: Seq<char>) -> Seq<char> {
    lower_of(trim_hyphens(s))
}

/// The active application's identity for an event: the container's
/// application identifier, or, failing that, its legacy window class.
pub open spec fn identity_of(c: ContainerInfo) -> Option<Seq<char>> {
    match c.app_id {
        Some(a) => Some(a@),
        None => match c.window_class {
            Some(w) => Some(w@),
            None => None,
        },
    }
}

/// The name the engine gives the focused workspace, if any: the bare
/// stable prefix when the workspace has no window left, otherwise the
/// prefix followed by `: ` and the normalized identity — or nothing at
/// all when an identity would be needed but the event carries none.
pub open spec fn new_name_of(
    ws_name: Seq<char>,
    focus_empty: bool,
    identity: Option<Seq<char>>,
) -> Option<Seq<char>> {
    if focus_empty {
        Some(ws_num_of(ws_name))
    } else {
        match identity {
            Some(a) => Some(ws_num_of(ws_name) + ": "@ + normalized_identity(a)),
            None => None,
        }
    }
}

/// The rename command the engine sends, if any.
pub open spec fn rename_command_of(
    ws_name: Seq<char>,
    focus_empty: bool,
    identity: Option<Seq<char>>,
) -> Option<Seq<char>> {
    match new_name_of(ws_name, focus_empty, identity) {
        Some(n) => Some("rename workspace to "@ + n),
        None => None,
    }
}

/// The index of the first `:` of `s`, or its length when it has none.
fn first_colon(s: &str) -> (r: usize)
    ensures
        r <= s@.len(),
        forall|j: int| 0 <= j < r ==> s@[j] != ':',
        r < s@.len() ==> s@[r as int] == ':',
{
    let n = s.unicode_len();
    let mut i: usize = 0;
    while i < n
        invariant
            i <= n,
            n == s@.len(),
            forall|j: int| 0 <= j < i ==> s@[j] != ':',
        decreases n - i,
    {
        if s.get_char(i) == ':' {
            return i;
        }
        i = i + 1;
    }
    n
}

proof fn lemma_ws_num_take(s: Seq<char>, i: int)
    requires
        0 <= i <= s.len(),
        forall|j: int| 0 <= j < i ==> s[j] != ':',
        i < s.len() ==> s[i] == ':',
    ensures
        ws_num_of(s) == s.take(i),
    decreases i,
{
    if i == 0 {
        assert(ws_num_of(s) =~= s.take(0));
    } else {
        lemma_ws_num_take(s.skip(1), i - 1);
        assert(seq![s[0]] + s.skip(1).take(i - 1) =~= s.take(i));
    }
}

/// Extracts the stable prefix of a workspace name.
pub fn ws_num(name: &str) -> (r: String)
    ensures
        r@ == ws_num_of(name@),
{
    let i = first_colon(name);
    let prefix = name.substring_char(0, i);
    proof {
        lemma_ws_num_take(name@, i as int);
        assert(name@.subrange(0, i as int) =~= name@.take(i as int));
    }
    prefix.to_owned()
}

proof fn lemma_drop_leading_skip(s: Seq<char>, a: int)
    requires
        0 <= a <= s.len(),
        forall|j: int| 0 <= j < a ==> s[j] == '-',
        a < s.len() ==> s[a] != '-',
    ensures
        drop_leading_hyphens(s) == s.skip(a),
    decreases a,
{
    if a == 0 {
        assert(s.skip(0) =~= s);
    } else {
        lemma_drop_leading_skip(s.skip(1), a - 1);
        assert(s.skip(1).skip(a - 1) =~= s.skip(a));
    }
}

proof fn lemma_drop_trailing_take(s: Seq<char>, b: int)
    requires
        0 <= b <= s.len(),
        forall|j: int| b <= j < s.len() ==> s[j] == '-',
        b > 0 ==> s[b - 1] != '-',
    ensures
        drop_trailing_hyphens(s) == s.take(b),
    decreases s.len() - b,
{
    if b == s.len() {
        assert(drop_trailing_hyphens(s) =~= s.take(b));
    } else {
        assert(s.last() == '-');
        lemma_drop_trailing_take(s.drop_last(), b);
        assert(s.drop_last().take(b) =~= s.take(b));
    }
}

/// Trims leading and trailing hyphens from an application identity.
pub fn trim_hyphens_str(s: &str) -> (r: String)
    ensures
        r@ == trim_hyphens(s@),
{
    let n = s.unicode_len();
    let mut a: usize = 0;
    while a < n && s.get_char(a) == '-'
        invariant
            a <= n,
            n == s@.len(),
            forall|j: int| 0 <= j < a ==> s@[j] == '-',
        decreases n - a,
    {
        a = a + 1;
    }
    let mut b: usize = n;
    while b > a && s.get_char(b - 1) == '-'
        invariant
            a <= b <= n,
            n == s@.len(),
            forall|j: int| b <= j < n ==> s@[j] == '-',
        decreases b,
    {
        b = b - 1;
    }
    let r = s.substring_char(a, b);
    proof {
        lemma_drop_leading_skip(s@, a as int);
        let t = s@.skip(a as int);
        assert(forall|j: int| (b - a) <= j < t.len() ==> t[j] == '-');
        lemma_drop_trailing_take(t, b - a);
        assert(t.take(b - a) =~= s@.subrange(a as int, b as int));
    }
    r.to_owned()
}

/// Normalizes an application identity: trims hyphens from both ends, then
/// lower-cases the rest.
pub fn normalize_identity(s: &str) -> (r: String)
    ensures
        r@ == normalized_identity(s@),
{
    let trimmed = trim_hyphens_str(s);
    to_lowercase(trimmed.as_str())
}

/// Finds the focused workspace: the first one whose focus flag is set.
pub fn find_focused_workspace(workspaces: &Vec<WorkspaceInfo>) -> (r: Result<
    &WorkspaceInfo,
    DecisionError,
>)
    ensures
        match r {
            Ok(w) => exists|i: int|
                0 <= i < workspaces@.len() && workspaces@[i].focused && *w == workspaces@[i] && (
                forall|j: int| 0 <= j < i ==> !workspaces@[j].focused),
            Err(e) => e == DecisionError::NoFocusedWorkspace && forall|i: int|
                0 <= i < workspaces@.len() ==> !workspaces@[i].focused,
        },
{
    let n = workspaces.len();
    let mut i: usize = 0;
    while i < n
        invariant
            i <= n,
            n == workspaces@.len(),
            forall|j: int| 0 <= j < i ==> !workspaces@[j].focused,
        decreases n - i,
    {
        if workspaces[i].focused {
            return Ok(&workspaces[i]);
        }
        i = i + 1;
    }
    Err(DecisionError::NoFocusedWorkspace)
}

/// Computes the rename command for the focused workspace and the event's
/// container, if one is owed.
pub fn rename_command(ws: &WorkspaceInfo, container: &ContainerInfo) -> (r: Option<String>)
    ensures
        match (r, rename_command_of(
            ws.name@,
            ws.focus@.len() == 0,
            identity_of(*container),
        )) {
            (Some(c), Some(sc)) => c@ == sc,
            (None, None) => true,
            _ => false,
        },
{
    let prefix = ws_num(ws.name.as_str());
    if ws.focus.len() == 0 {
        let mut cmd = String::from_str("rename workspace to ");
        cmd.append(prefix.as_str());
        return Some(cmd);
    }
    let identity: Option<&String> = match &container.app_id {
        Some(a) => Some(a),
        None => match &container.window_class {
            Some(w) => Some(w),
            None => None,
        },
    };
    match identity {
        Some(a) => {
            let suffix = normalize_identity(a.as_str());
            let mut cmd = String::from_str("rename workspace to ");
            cmd.append(prefix.as_str());
            cmd.append(": ");
            cmd.append(suffix.as_str());
            Some(cmd)
        },
        None => None,
    }
}

proof fn lemma_ws_num_no_colon(s: Seq<char>)
    ensures
        forall|j: int| 0 <= j < ws_num_of(s).len() ==> ws_num_of(s)[j] != ':',
    decreases s.len(),
{
    if s.len() == 0 {
    } else if s[0] == ':' {
    } else {
        lemma_ws_num_no_colon(s.skip(1));
        assert forall|j: int| 0 <= j < ws_num_of(s).len() implies ws_num_of(s)[j] != ':' by {
            if j > 0 {
                assert(ws_num_of(s)[j] == ws_num_of(s.skip(1))[j - 1]);
            }
        }
    }
}

/// The stable prefix stops exactly where a `:` follows a colon-free
/// prefix: of `p + q`, with `p` colon-free and `q` empty or starting with
/// `:`, the prefix is `p`.
pub proof fn lemma_ws_num_append(p: Seq<char>, q: Seq<char>)
    requires
        forall|j: int| 0 <= j < p.len() ==> p[j] != ':',
        q.len() > 0 ==> q[0] == ':',
    ensures
        ws_num_of(p + q) == p,
    decreases p.len(),
{
    if p.len() == 0 {
        assert(p + q =~= q);
        if q.len() == 0 {
            assert(q =~= p);
        } else {
            assert(ws_num_of(q) =~= p);
        }
    } else {
        assert((p + q)[0] == p[0]);
        assert((p + q).skip(1) =~= p.skip(1) + q);
        lemma_ws_num_append(p.skip(1), q);
        assert(seq![p[0]] + p.skip(1) =~= p);
    }
}

/// A workspace name without a `:` is its own stable prefix, whole.
pub proof fn lemma_ws_num_whole_when_no_colon(s: Seq<char>)
    requires
        forall|j: int| 0 <= j < s.len() ==> s[j] != ':',
    ensures
        ws_num_of(s) == s,
{
    assert(s + Seq::<char>::empty() =~= s);
    lemma_ws_num_append(s, Seq::empty());
}

/// Renaming is idempotent: applied to the name it just produced, with the
/// same workspace state and the same event, the engine produces that very
/// name again.
pub proof fn lemma_rename_idempotent(
    ws_name: Seq<char>,
    focus_empty: bool,
    identity: Option<Seq<char>>,
)
    ensures
        match new_name_of(ws_name, focus_empty, identity) {
            Some(n1) => new_name_of(n1, focus_empty, identity) == Some(n1),
            None => true,
        },
{
    let p = ws_num_of(ws_name);
    lemma_ws_num_no_colon(ws_name);
    if focus_empty {
        lemma_ws_num_whole_when_no_colon(p);
    } else {
        match identity {
            Some(a) => {
                let q = ": "@ + normalized_identity(a);
                reveal_strlit(": ");
                assert(q[0] == ':');
                lemma_ws_num_append(p, q);
                assert(p + ": "@ + normalized_identity(a) =~= p + q);
            },
            None => {},
        }
    }
}

proof fn lemma_drop_leading_no_lead(s: Seq<char>)
    ensures
        drop_leading_hyphens(s).len() > 0 ==> drop_leading_hyphens(s)[0] != '-',
    decreases s.len(),
{
    if s.len() > 0 && s[0] == '-' {
        lemma_drop_leading_no_lead(s.skip(1));
    }
}

proof fn lemma_drop_trailing_no_trail(s: Seq<char>)
    ensures
        drop_trailing_hyphens(s).len() > 0 ==> drop_trailing_hyphens(s).last() != '-',
    decreases s.len(),
{
    if s.len() > 0 && s.last() == '-' {
        lemma_drop_trailing_no_trail(s.drop_last());
    }
}

proof fn lemma_drop_trailing_is_prefix(s: Seq<char>)
    ensures
        drop_trailing_hyphens(s).len() <= s.len(),
        drop_trailing_hyphens(s) == s.take(drop_trailing_hyphens(s).len() as int),
    decreases s.len(),
{
    if s.len() > 0 && s.last() == '-' {
        lemma_drop_trailing_is_prefix(s.drop_last());
        let l = drop_trailing_hyphens(s).len();
        assert(s.drop_last().take(l as int) =~= s.take(l as int));
    } else {
        assert(s.take(s.len() as int) =~= s);
    }
}

/// A trimmed identity carries no hyphen at either end.  (Whether the
/// subsequent lower-casing keeps it so is the lower-casing routine's
/// business, not stated here.)
pub proof fn lemma_trim_hyphens_no_edge_hyphens(s: Seq<char>)
    ensures
        trim_hyphens(s).len() > 0 ==> trim_hyphens(s)[0] != '-' && trim_hyphens(s).last() != '-',
{
    let d = drop_leading_hyphens(s);
    lemma_drop_leading_no_lead(s);
    lemma_drop_trailing_no_trail(d);
    lemma_drop_trailing_is_prefix(d);
    if trim_hyphens(s).len() > 0 {
        assert(trim_hyphens(s)[0] == d[0]);
    }
}

/// Computes the rename command from a fresh workspace list: fails when no
/// workspace is focused, otherwise decides as [`rename_command`] does for
/// the first focused one.
pub fn rename_for(workspaces: &Vec<WorkspaceInfo>, container: &ContainerInfo) -> (r: Result<
    Option<String>,
    DecisionError,
>)
    ensures
        match r {
            Ok(c) => exists|i: int|
                {
                    &&& 0 <= i < workspaces@.len()
                    &&& workspaces@[i].focused
                    &&& forall|j: int| 0 <= j < i ==> !workspaces@[j].focused
                    &&& match (c, rename_command_of(
                        workspaces@[i].name@,
                        workspaces@[i].focus@.len() == 0,
                        identity_of(*container),
                    )) {
                        (Some(cc), Some(sc)) => cc@ == sc,
                        (None, None) => true,
                        _ => false,
                    }
                },
            Err(e) => e == DecisionError::NoFocusedWorkspace && forall|i: int|
                0 <= i < workspaces@.len() ==> !workspaces@[i].focused,
        },
{
    match find_focused_workspace(workspaces) {
        Ok(ws) => Ok(rename_command(ws, container)),
        Err(e) => Err(e),
    }
}

} // verus!
