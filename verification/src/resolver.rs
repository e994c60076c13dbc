//! The room resolver: which of the joined rooms bears the target name.
//!
//! A room is known here by its position in the list of joined rooms that the
//! caller reports after a synchronisation, and by the display name that the
//! client resolved for it, if any.

use vstd::prelude::*;

verus! {

/// Whether a room with the display name `name` is the one called `target`:
/// the room has a name and the name is the target, character for character.
pub open spec fn bears(name: Option<String>, target: Seq<char>) -> bool {
    match name {
        Some(text) => text@ == target,
        None => false,
    }
}

/// The position of the first room in `names` that bears `target`.
pub open spec fn first_bearing(names: Seq<Option<String>>, target: Seq<char>) -> Option<usize>
    decreases names.len(),
{
    if names.len() == 0 {
        None
    } else if bears(names.last(), target) && first_bearing(names.drop_last(), target) is None {
        Some((names.len() - 1) as usize)
    } else {
        first_bearing(names.drop_last(), target)
    }
}

/// `first_bearing` is the least position whose room bears the target, and
/// is `None` exactly when no room does.
pub proof fn law_first_bearing_is_first(names: Seq<Option<String>>, target: Seq<char>)
    requires
        names.len() <= usize::MAX,
    ensures
        match first_bearing(names, target) {
            Some(at) => {
                &&& at < names.len()
                &&& bears(names[at as int], target)
                &&& forall|i: int| 0 <= i < at ==> !bears(names[i], target)
            },
            None => forall|i: int| 0 <= i < names.len() ==> !bears(names[i], target),
        },
    decreases names.len(),
{
    if names.len() > 0 {
        let front = names.drop_last();
        law_first_bearing_is_first(front, target);
        assert forall|i: int| 0 <= i < front.len() implies front[i] == names[i] by {}
    }
}

/// Finds the room called `target` among the joined rooms, whose display
/// names are `names` in the order in which the client lists them. The first
/// room of that name wins; a room without a name never matches.
pub fn resolve_room(names: &Vec<Option<String>>, target: &String) -> (found: Option<usize>)
    ensures
        found == first_bearing(names@, target@),
        match found {
            Some(at) => {
                &&& at < names.len()
                &&& bears(names[at as int], target@)
                &&& forall|i: int| 0 <= i < at ==> !bears(names[i], target@)
            },
            None => forall|i: int| 0 <= i < names.len() ==> !bears(names[i], target@),
        },
{
    let mut at: usize = 0;
    while at < names.len()
        invariant
            at <= names.len(),
            forall|i: int| 0 <= i < at ==> !bears(names[i], target@),
        decreases names.len() - at,
    {
        let matches = match &names[at] {
            Some(text) => *text == *target,
            None => false,
        };
        if matches {
            proof {
                law_first_bearing_is_first(names@, target@);
            }
            return Some(at);
        }
        at += 1;
    }
    proof {
        law_first_bearing_is_first(names@, target@);
    }
    None
}

} // verus!
