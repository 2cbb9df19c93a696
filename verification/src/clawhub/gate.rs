//! The requirement gate: whether the host can run a skill.
//!
//! A skill may declare the operating systems it supports, binaries that must
//! all be present, alternative binaries of which one must be present, and
//! environment variables that must all be set. They are looked at in that
//! order and the first that fails is reported, so the same skill on the same
//! host is always refused for the same reason.

use crate::clawhub::types::{Requires, SkillMeta};
use crate::text::{contains_name, texts};
use vstd::prelude::*;

verus! {

/// Whether a skill may be installed on a host.
#[derive(Debug, Clone, PartialEq, Eq)]
pub enum GateDecision {
    Allowed,
    Blocked { reason: String },
}

/// A [`GateDecision`] as plain values.
pub enum GateModel {
    Allowed,
    Blocked { reason: Seq<char> },
}

impl View for GateDecision {
    type V = GateModel;

    open spec fn view(&self) -> GateModel {
        match *self {
            GateDecision::Allowed => GateModel::Allowed,
            GateDecision::Blocked { reason } => GateModel::Blocked { reason: reason@ },
        }
    }
}

/// What a skill asks of the host. An empty list asks nothing.
pub struct Constraints {
    pub os: Seq<Seq<char>>,
    pub bins: Seq<Seq<char>>,
    pub any_bins: Seq<Seq<char>>,
    pub env: Seq<Seq<char>>,
}

/// The three lists of a `requires` block; all empty where there is none.
pub open spec fn required(block: Option<Requires>) -> (Seq<Seq<char>>, Seq<Seq<char>>, Seq<
    Seq<char>,
>) {
    match block {
        Some(r) => (texts(r.bins@), texts(r.any_bins@), texts(r.env@)),
        None => (Seq::empty(), Seq::empty(), Seq::empty()),
    }
}

/// The constraints that apply to a skill: those of its `openclaw` block where
/// it has one, else those of its `clawdbot` block, else none.
pub open spec fn constraints_of(meta: SkillMeta) -> Constraints {
    match meta.metadata.openclaw {
        Some(block) => Constraints {
            os: texts(block.os@),
            bins: required(block.requires).0,
            any_bins: required(block.requires).1,
            env: required(block.requires).2,
        },
        None => match meta.metadata.clawdbot {
            Some(block) => Constraints {
                os: texts(block.os@),
                bins: required(block.requires).0,
                any_bins: required(block.requires).1,
                env: required(block.requires).2,
            },
            None => Constraints {
                os: Seq::empty(),
                bins: Seq::empty(),
                any_bins: Seq::empty(),
                env: Seq::empty(),
            },
        },
    }
}

/// The first of `wanted`, in list order, that `present` lacks.
pub open spec fn first_missing(wanted: Seq<Seq<char>>, present: Seq<Seq<char>>) -> Option<
    Seq<char>,
>
    decreases wanted.len(),
{
    if wanted.len() == 0 {
        None
    } else if !present.contains(wanted[0]) {
        Some(wanted[0])
    } else {
        first_missing(wanted.drop_first(), present)
    }
}

/// Whether `present` has at least one of `wanted`.
pub open spec fn any_present(wanted: Seq<Seq<char>>, present: Seq<Seq<char>>) -> bool {
    exists|i: int| 0 <= i < wanted.len() && present.contains(#[trigger] wanted[i])
}

/// The names joined by `", "`.
pub open spec fn listed(names: Seq<Seq<char>>) -> Seq<char>
    decreases names.len(),
{
    if names.len() == 0 {
        Seq::empty()
    } else if names.len() == 1 {
        names[0]
    } else {
        listed(names.drop_last()) + ", "@ + names.last()
    }
}

/// Whether a skill with the constraints `c` may be installed on a host that
/// runs `os`, has the binaries `bins` and has the environment variables `env`
/// set.
///
/// 1. A non-empty list of operating systems that lacks `os` blocks.
/// 2. The first required binary that is missing blocks, and is named.
/// 3. A non-empty list of alternatives of which none is present blocks, and
///    all of them are named.
/// 4. The first required environment variable that is missing blocks, and is
///    named.
///
/// Otherwise the skill is allowed.
pub open spec fn gate(c: Constraints, os: Seq<char>, bins: Seq<Seq<char>>, env: Seq<Seq<char>>)
    -> GateModel {
    if c.os.len() > 0 && !c.os.contains(os) {
        GateModel::Blocked { reason: "unsupported platform"@ }
    } else if first_missing(c.bins, bins) is Some {
        GateModel::Blocked {
            reason: "missing required binary: "@ + first_missing(c.bins, bins)->0,
        }
    } else if c.any_bins.len() > 0 && !any_present(c.any_bins, bins) {
        GateModel::Blocked {
            reason: "none of the alternative binaries is present: "@ + listed(c.any_bins),
        }
    } else if first_missing(c.env, env) is Some {
        GateModel::Blocked {
            reason: "missing environment variable: "@ + first_missing(c.env, env)->0,
        }
    } else {
        GateModel::Allowed
    }
}

/// The first of `wanted` that `present` lacks, if any.
fn find_missing<'a>(wanted: &'a Vec<String>, present: &Vec<String>) -> (r: Option<&'a String>)
    ensures
        match r {
            Some(name) => first_missing(texts(wanted@), texts(present@)) == Some(name@),
            None => first_missing(texts(wanted@), texts(present@)) is None,
        },
{
    let mut i: usize = 0;
    assert(texts(wanted@).skip(0) =~= texts(wanted@));
    while i < wanted.len()
        invariant
            i <= wanted.len(),
            first_missing(texts(wanted@), texts(present@)) == first_missing(
                texts(wanted@).skip(i as int),
                texts(present@),
            ),
        decreases wanted.len() - i,
    {
        let ghost rest = texts(wanted@).skip(i as int);
        assert(rest[0] == wanted@[i as int]@);
        assert(rest.drop_first() =~= texts(wanted@).skip(i + 1));
        if !contains_name(present, wanted[i].as_str()) {
            return Some(&wanted[i]);
        }
        i += 1;
    }
    None
}

/// Whether `present` has at least one of `wanted`.
fn has_any(wanted: &Vec<String>, present: &Vec<String>) -> (r: bool)
    ensures
        r == any_present(texts(wanted@), texts(present@)),
{
    let mut i: usize = 0;
    while i < wanted.len()
        invariant
            i <= wanted.len(),
            forall|k: int| 0 <= k < i ==> !texts(present@).contains(#[trigger] texts(wanted@)[k]),
        decreases wanted.len() - i,
    {
        assert(texts(wanted@)[i as int] == wanted@[i as int]@);
        if contains_name(present, wanted[i].as_str()) {
            return true;
        }
        i += 1;
    }
    false
}

/// The names joined by `", "`.
fn join_names(names: &Vec<String>) -> (r: String)
    ensures
        r@ == listed(texts(names@)),
{
    let mut out = String::new();
    let mut i: usize = 0;
    while i < names.len()
        invariant
            i <= names.len(),
            out@ == listed(texts(names@).take(i as int)),
        decreases names.len() - i,
    {
        let ghost upto = texts(names@).take(i + 1);
        assert(upto.drop_last() =~= texts(names@).take(i as int));
        assert(upto.last() == names@[i as int]@);
        if i > 0 {
            out.append(", ");
            out.append(names[i].as_str());
            assert(out@ =~= listed(upto.drop_last()) + ", "@ + upto.last());
        } else {
            out.append(names[i].as_str());
            assert(out@ =~= upto[0]);
        }
        i += 1;
    }
    assert(texts(names@).take(names@.len() as int) =~= texts(names@));
    out
}

/// Evaluates the requirement gate for `meta` on a host that runs `host_os`,
/// has the binaries `host_bins` and has the environment variables `host_env`
/// set.
pub fn evaluate(meta: &SkillMeta, host_os: &str, host_bins: &Vec<String>, host_env: &Vec<String>)
    -> (decision: GateDecision)
    ensures
        decision@ == gate(constraints_of(*meta), host_os@, texts(host_bins@), texts(host_env@)),
{
    let (os, needs): (Option<&Vec<String>>, Option<&Requires>) = match &meta.metadata.openclaw {
        Some(block) => (Some(&block.os), block.requires.as_ref()),
        None => match &meta.metadata.clawdbot {
            Some(block) => (Some(&block.os), block.requires.as_ref()),
            None => (None, None),
        },
    };
    if let Some(os) = os {
        if os.len() > 0 && !contains_name(os, host_os) {
            return GateDecision::Blocked { reason: "unsupported platform".to_owned() };
        }
    }
    if let Some(needs) = needs {
        if let Some(name) = find_missing(&needs.bins, host_bins) {
            let reason = "missing required binary: ".to_owned().concat(name.as_str());
            return GateDecision::Blocked { reason };
        }
        if needs.any_bins.len() > 0 && !has_any(&needs.any_bins, host_bins) {
            let names = join_names(&needs.any_bins);
            let reason = "none of the alternative binaries is present: ".to_owned().concat(
                names.as_str(),
            );
            return GateDecision::Blocked { reason };
        }
        if let Some(name) = find_missing(&needs.env, host_env) {
            let reason = "missing environment variable: ".to_owned().concat(name.as_str());
            return GateDecision::Blocked { reason };
        }
    }
    GateDecision::Allowed
}

/// A skill whose list of operating systems is not empty and lacks the host's
/// is refused as an unsupported platform, whatever else it requires and
/// whatever else the host lacks.
pub proof fn platform_is_checked_first(
    c: Constraints,
    os: Seq<char>,
    bins: Seq<Seq<char>>,
    env: Seq<Seq<char>>,
)
    requires
        c.os.len() > 0,
        !c.os.contains(os),
    ensures
        gate(c, os, bins, env) == (GateModel::Blocked { reason: "unsupported platform"@ }),
{
}

/// Only the requirement blocks of a skill count: two skills with the same
/// blocks fare alike on every host, whatever their scan summaries say.
pub proof fn only_requirements_count(
    a: SkillMeta,
    b: SkillMeta,
    os: Seq<char>,
    bins: Seq<Seq<char>>,
    env: Seq<Seq<char>>,
)
    requires
        a.metadata == b.metadata,
    ensures
        gate(constraints_of(a), os, bins, env) == gate(constraints_of(b), os, bins, env),
{
}

/// A skill without a requirement block, or with blocks that list nothing, is
/// allowed on every host.
pub proof fn nothing_required_is_allowed(
    c: Constraints,
    os: Seq<char>,
    bins: Seq<Seq<char>>,
    env: Seq<Seq<char>>,
)
    requires
        c.os.len() == 0,
        c.bins.len() == 0,
        c.any_bins.len() == 0,
        c.env.len() == 0,
    ensures
        gate(c, os, bins, env) == GateModel::Allowed,
{
}

} // verus!
