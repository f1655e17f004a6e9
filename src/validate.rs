use crate::model::Target;
use vstd::prelude::*;
use vstd::string::*;

verus! {

broadcast use vstd::string::to_string_from_display_ensures_for_str;

/// The reasons a target is refused, in the order in which they are checked.
pub open spec fn name_empty_msg() -> Seq<char> {
    "Name should not be empty"@
}

pub open spec fn no_source_msg() -> Seq<char> {
    "Should have at least one source"@
}

pub open spec fn unset_source_msg() -> Seq<char> {
    "All sources should have a path"@
}

pub open spec fn empty_exclude_msg() -> Seq<char> {
    "No exclude should be empty"@
}

/// Every source slot holds a path.
pub open spec fn sources_resolved(sources: Seq<Option<String>>) -> bool {
    forall|i: int| 0 <= i < sources.len() ==> (#[trigger] sources[i]).is_some()
}

/// No exclude pattern is the empty string.
pub open spec fn excludes_nonempty(excludes: Seq<String>) -> bool {
    forall|i: int| 0 <= i < excludes.len() ==> (#[trigger] excludes[i])@.len() > 0
}

/// A target may be saved: it has a name, at least one source, every source
/// slot holds a path, and no exclude pattern is empty.
pub open spec fn target_valid(t: Target) -> bool {
    &&& t.name@.len() > 0
    &&& t.sources@.len() > 0
    &&& sources_resolved(t.sources@)
    &&& excludes_nonempty(t.excludes@)
}

/// The message for the first rule that `t` breaks, checked in the order
/// name, sources present, sources resolved, excludes non-empty.
pub open spec fn target_error(t: Target) -> Option<Seq<char>> {
    if t.name@.len() == 0 {
        Some(name_empty_msg())
    } else if t.sources@.len() == 0 {
        Some(no_source_msg())
    } else if !sources_resolved(t.sources@) {
        Some(unset_source_msg())
    } else if !excludes_nonempty(t.excludes@) {
        Some(empty_exclude_msg())
    } else {
        None
    }
}

/// Checks a target before it is saved; on refusal, says why.
pub fn verify_target(target: &Target) -> (r: Result<(), String>)
    ensures
        r is Ok <==> target_valid(*target),
        match r {
            Ok(()) => target_error(*target) is None,
            Err(e) => target_error(*target) == Some(e@),
        },
{
    if target.name.as_str().is_empty() {
        return Err("Name should not be empty".to_string());
    }
    if target.sources.len() == 0 {
        return Err("Should have at least one source".to_string());
    }
    let mut i: usize = 0;
    while i < target.sources.len()
        invariant
            0 <= i <= target.sources@.len(),
            target.name@.len() > 0,
            target.sources@.len() > 0,
            forall|j: int| 0 <= j < i ==> (#[trigger] target.sources@[j]).is_some(),
        decreases target.sources@.len() - i,
    {
        if target.sources[i].is_none() {
            assert(!sources_resolved(target.sources@)) by {
                assert(target.sources@[i as int] is None);
            }
            return Err("All sources should have a path".to_string());
        }
        i = i + 1;
    }
    let mut k: usize = 0;
    while k < target.excludes.len()
        invariant
            0 <= k <= target.excludes@.len(),
            target.name@.len() > 0,
            target.sources@.len() > 0,
            sources_resolved(target.sources@),
            forall|j: int| 0 <= j < k ==> (#[trigger] target.excludes@[j])@.len() > 0,
        decreases target.excludes@.len() - k,
    {
        if target.excludes[k].as_str().is_empty() {
            assert(!excludes_nonempty(target.excludes@)) by {
                assert(target.excludes@[k as int]@.len() == 0);
            }
            return Err("No exclude should be empty".to_string());
        }
        k = k + 1;
    }
    Ok(())
}

} // verus!
