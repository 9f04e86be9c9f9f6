//! Exact target bindings of a fleet run: every target is one profile on one
//! session, with an optional normalized role.
use vstd::prelude::*;
use crate::text::{chars_of, lower_chars, lower_text, string_from_chars, trim, trim_bounds};

verus! {

pub const MIN_FLEET_TARGETS: usize = 2;
pub const MAX_FLEET_TARGETS: usize = 10;
pub const MAX_FLEET_ROLE_BYTES: usize = 48;

/// Why a requested target set was refused.
#[derive(Clone, Copy, Debug, PartialEq, Eq, Structural)]
pub enum FleetTargetError {
    /// Too few targets, a repeated profile or session, or a malformed role.
    Invalid,
    /// More targets than a fleet run may bind.
    Limit,
}

#[derive(Clone, Debug)]
pub struct FleetTargetRequest {
    pub profile_id: u128,
    pub session_id: u128,
    pub role: Option<String>,
}

#[derive(Clone, Debug, PartialEq, Eq)]
pub struct FleetTargetBinding {
    pub profile_id: u128,
    pub session_id: u128,
    pub role: Option<String>,
    pub ordinal: usize,
}

/// The mathematical content of a binding.
pub struct TargetView {
    pub profile_id: u128,
    pub session_id: u128,
    pub role: Option<Seq<char>>,
    pub ordinal: nat,
}

pub open spec fn opt_text(o: Option<String>) -> Option<Seq<char>> {
    match o {
        Some(s) => Some(s@),
        None => None,
    }
}

impl View for FleetTargetBinding {
    type V = TargetView;

    open spec fn view(&self) -> TargetView {
        TargetView {
            profile_id: self.profile_id,
            session_id: self.session_id,
            role: opt_text(self.role),
            ordinal: self.ordinal as nat,
        }
    }
}

pub open spec fn target_views(targets: Seq<FleetTargetBinding>) -> Seq<TargetView> {
    targets.map_values(|t: FleetTargetBinding| t@)
}

/// Equality of optional texts.
pub fn same_opt_text(a: &Option<String>, b: &Option<String>) -> (r: bool)
    ensures
        r == (opt_text(*a) == opt_text(*b)),
{
    match (a, b) {
        (Some(x), Some(y)) => *x == *y,
        (None, None) => true,
        _ => false,
    }
}

/// Equality of two bindings.
pub fn same_binding(a: &FleetTargetBinding, b: &FleetTargetBinding) -> (r: bool)
    ensures
        r == (a@ == b@),
{
    a.profile_id == b.profile_id && a.session_id == b.session_id && a.ordinal == b.ordinal
        && same_opt_text(&a.role, &b.role)
}

/// Equality of two binding lists, element by element.
pub fn same_bindings(a: &Vec<FleetTargetBinding>, b: &Vec<FleetTargetBinding>) -> (r: bool)
    ensures
        r == (target_views(a@) == target_views(b@)),
{
    if a.len() != b.len() {
        proof {
            assert(target_views(a@).len() != target_views(b@).len());
        }
        return false;
    }
    let n = a.len();
    for i in 0..n
        invariant
            n == a@.len(),
            n == b@.len(),
            forall|j: int| 0 <= j < i ==> a@[j]@ == b@[j]@,
    {
        if !same_binding(&a[i], &b[i]) {
            proof {
                assert(target_views(a@)[i as int] != target_views(b@)[i as int]);
            }
            return false;
        }
    }
    proof {
        assert(target_views(a@) =~= target_views(b@));
    }
    true
}

/// A copy of a binding with the same content.
pub fn clone_binding(a: &FleetTargetBinding) -> (r: FleetTargetBinding)
    ensures
        r@ == a@,
{
    let role = match &a.role {
        Some(s) => Some(s.clone()),
        None => None,
    };
    FleetTargetBinding { profile_id: a.profile_id, session_id: a.session_id, role, ordinal: a.ordinal }
}

/// A copy of a binding list with the same content.
pub fn clone_bindings(a: &Vec<FleetTargetBinding>) -> (r: Vec<FleetTargetBinding>)
    ensures
        target_views(r@) == target_views(a@),
{
    let mut out: Vec<FleetTargetBinding> = Vec::new();
    let n = a.len();
    for i in 0..n
        invariant
            n == a@.len(),
            out@.len() == i,
            forall|j: int| 0 <= j < i ==> out@[j]@ == a@[j]@,
    {
        let role = match &a[i].role {
            Some(s) => Some(s.clone()),
            None => None,
        };
        out.push(FleetTargetBinding {
            profile_id: a[i].profile_id,
            session_id: a[i].session_id,
            role,
            ordinal: a[i].ordinal,
        });
    }
    proof {
        assert(target_views(out@) =~= target_views(a@));
    }
    out
}

/// Characters a role may contain.
pub open spec fn is_role_char(c: char) -> bool {
    ('a' <= c && c <= 'z') || ('A' <= c && c <= 'Z') || ('0' <= c && c <= '9') || c == '.'
        || c == '_' || c == '-'
}

/// A trimmed role is acceptable: non-empty, at most 48 characters (all are
/// ASCII, so this is its byte length), and made of role characters only.
pub open spec fn role_acceptable(t: Seq<char>) -> bool {
    0 < t.len() <= MAX_FLEET_ROLE_BYTES && forall|i: int| 0 <= i < t.len() ==> is_role_char(#[trigger] t[i])
}

/// The normalized role: `None` for a missing role, otherwise the trimmed,
/// lower-cased role when it is acceptable; the outer `None` marks refusal.
pub open spec fn normalized_role_view(role: Option<Seq<char>>) -> Option<Option<Seq<char>>> {
    match role {
        None => Some(None),
        Some(r) => if role_acceptable(trim(r)) {
            Some(Some(lower_text(trim(r))))
        } else {
            None
        },
    }
}

fn is_role_char_exec(c: char) -> (r: bool)
    ensures
        r == is_role_char(c),
{
    ('a' <= c && c <= 'z') || ('A' <= c && c <= 'Z') || ('0' <= c && c <= '9') || c == '.'
        || c == '_' || c == '-'
}

/// Trims, checks and lower-cases an optional role.
pub fn normalized_role(role: Option<&str>) -> (r: Result<Option<String>, FleetTargetError>)
    ensures
        role is None ==> r matches Ok(None),
        role is Some ==> match normalized_role_view(Some(role->0@)) {
            Some(Some(v)) => r matches Ok(Some(x)) && x@ == v,
            _ => r == Err::<Option<String>, FleetTargetError>(FleetTargetError::Invalid),
        },
{
    let s = match role {
        None => {
            return Ok(None);
        },
        Some(s) => s,
    };
    let chars = chars_of(s);
    let (start, end) = trim_bounds(chars.as_slice());
    let ghost t = trim(s@);
    if start == end || end - start > MAX_FLEET_ROLE_BYTES {
        return Err(FleetTargetError::Invalid);
    }
    let mut trimmed: Vec<char> = Vec::new();
    let mut i = start;
    while i < end
        invariant
            start <= i <= end <= chars@.len(),
            chars@ == s@,
            role == Some(s),
            t == trim(s@),
            t == chars@.subrange(start as int, end as int),
            trimmed@ == chars@.subrange(start as int, i as int),
            forall|j: int| 0 <= j < trimmed@.len() ==> is_role_char(#[trigger] trimmed@[j]),
        decreases end - i,
    {
        if !is_role_char_exec(chars[i]) {
            proof {
                assert(t[i - start] == chars@[i as int]);
                assert(!is_role_char(t[i - start]));
                assert(!role_acceptable(t));
            }
            return Err(FleetTargetError::Invalid);
        }
        trimmed.push(chars[i]);
        i = i + 1;
    }
    proof {
        assert(trimmed@ =~= t);
    }
    let lowered = lower_chars(trimmed.as_slice());
    Ok(Some(string_from_chars(lowered.as_slice())))
}

/// Profiles and sessions of the requests are pairwise distinct.
pub open spec fn requests_distinct(targets: Seq<FleetTargetRequest>) -> bool {
    forall|i: int, j: int|
        0 <= i < j < targets.len() ==> targets[i].profile_id != targets[j].profile_id
            && targets[i].session_id != targets[j].session_id
}

/// Validates the requested target set: between two and ten targets, no
/// repeated profile or session, and acceptable roles. Returns the normalized
/// role of each target.
pub fn validate_fleet_target_shape(targets: &[FleetTargetRequest]) -> (r: Result<
    Vec<Option<String>>,
    FleetTargetError,
>)
    ensures
        targets@.len() < MIN_FLEET_TARGETS ==> r == Err::<Vec<Option<String>>, FleetTargetError>(
            FleetTargetError::Invalid,
        ),
        MIN_FLEET_TARGETS <= targets@.len() && targets@.len() > MAX_FLEET_TARGETS ==> r == Err::<
            Vec<Option<String>>,
            FleetTargetError,
        >(FleetTargetError::Limit),
        MIN_FLEET_TARGETS <= targets@.len() <= MAX_FLEET_TARGETS ==> {
            let ok = requests_distinct(targets@) && forall|i: int|
                0 <= i < targets@.len() ==> #[trigger] normalized_role_view(
                    opt_text(targets@[i].role),
                ) is Some;
            &&& ok ==> r is Ok
            &&& !ok ==> r == Err::<Vec<Option<String>>, FleetTargetError>(FleetTargetError::Invalid)
            &&& r matches Ok(roles) ==> roles@.len() == targets@.len() && forall|i: int|
                0 <= i < targets@.len() ==> Some(opt_text(#[trigger] roles@[i]))
                    == normalized_role_view(opt_text(targets@[i].role))
        },
{
    if targets.len() < MIN_FLEET_TARGETS {
        return Err(FleetTargetError::Invalid);
    }
    if targets.len() > MAX_FLEET_TARGETS {
        return Err(FleetTargetError::Limit);
    }
    let n = targets.len();
    let mut roles: Vec<Option<String>> = Vec::new();
    for i in 0..n
        invariant
            n == targets@.len(),
            MIN_FLEET_TARGETS <= n <= MAX_FLEET_TARGETS,
            roles@.len() == i,
            forall|a: int, b: int|
                0 <= a < b < i ==> targets@[a].profile_id != targets@[b].profile_id
                    && targets@[a].session_id != targets@[b].session_id,
            forall|k: int|
                0 <= k < i ==> Some(opt_text(#[trigger] roles@[k])) == normalized_role_view(
                    opt_text(targets@[k].role),
                ),
    {
        for j in 0..i
            invariant
                i < n,
                n == targets@.len(),
                MIN_FLEET_TARGETS <= n <= MAX_FLEET_TARGETS,
                forall|k: int|
                    0 <= k < j ==> targets@[k].profile_id != targets@[i as int].profile_id
                        && targets@[k].session_id != targets@[i as int].session_id,
        {
            if targets[j].profile_id == targets[i].profile_id || targets[j].session_id
                == targets[i].session_id {
                proof {
                    assert(!requests_distinct(targets@));
                }
                return Err(FleetTargetError::Invalid);
            }
        }
        let role = match &targets[i].role {
            Some(s) => Some(s.as_str()),
            None => None,
        };
        match normalized_role(role) {
            Ok(v) => roles.push(v),
            Err(e) => {
                proof {
                    assert(normalized_role_view(opt_text(targets@[i as int].role)) is None);
                }
                return Err(FleetTargetError::Invalid);
            },
        }
    }
    proof {
        assert forall|i: int| 0 <= i < targets@.len() implies #[trigger] normalized_role_view(
            opt_text(targets@[i].role),
        ) is Some by {
            assert(Some(opt_text(roles@[i])) == normalized_role_view(opt_text(targets@[i].role)));
        }
    }
    Ok(roles)
}

} // verus!
