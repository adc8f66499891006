//! Rule groups, what makes a configuration valid, and the meaning of a scan.

use vstd::prelude::*;
use crate::text::occurs_in;
use crate::verdict::{Action, VerdictModel};

verus! {

/// An ordered set of patterns that share one action. The reason given for a
/// match is the group's reason template followed by the pattern that matched.
#[derive(Clone, Debug, PartialEq, Eq)]
pub struct RuleGroup {
    pub name: String,
    pub action: Action,
    pub reason_template: String,
    pub patterns: Vec<String>,
}

/// A rule group as a mathematical value.
pub struct GroupModel {
    pub name: Seq<char>,
    pub action: Action,
    pub reason_template: Seq<char>,
    pub patterns: Seq<Seq<char>>,
}

/// The texts of a list of strings, in order.
pub open spec fn texts(v: Seq<String>) -> Seq<Seq<char>> {
    Seq::new(v.len(), |i: int| v[i]@)
}

impl View for RuleGroup {
    type V = GroupModel;

    open spec fn view(&self) -> GroupModel {
        GroupModel {
            name: self.name@,
            action: self.action,
            reason_template: self.reason_template@,
            patterns: texts(self.patterns@),
        }
    }
}

/// The models of a list of rule groups, in order.
pub open spec fn models(v: Seq<RuleGroup>) -> Seq<GroupModel> {
    Seq::new(v.len(), |i: int| v[i]@)
}

/// A group that an engine accepts: it holds at least one pattern, and none
/// of its patterns is the empty text.
pub open spec fn sound_group(g: GroupModel) -> bool {
    &&& g.patterns.len() > 0
    &&& forall|p: int| 0 <= p < g.patterns.len() ==> (#[trigger] g.patterns[p]).len() > 0
}

/// A configuration that an engine accepts: at least one group, all of them sound.
pub open spec fn valid_config(groups: Seq<GroupModel>) -> bool {
    &&& groups.len() > 0
    &&& forall|g: int| 0 <= g < groups.len() ==> sound_group(#[trigger] groups[g])
}

/// Why a configuration was refused.
#[derive(Clone, Copy, Debug, PartialEq, Eq, Structural)]
pub enum ConfigError {
    /// The configuration holds no group.
    NoGroups,
    /// The group at this index holds no pattern.
    EmptyGroup { group: usize },
    /// The pattern at this index of this group is the empty text.
    EmptyPattern { group: usize, pattern: usize },
}

/// `err` names the first defect of `groups`: every group before the one it
/// names is sound, and an empty pattern is the first one of its group.
pub open spec fn first_defect(groups: Seq<GroupModel>, err: ConfigError) -> bool {
    match err {
        ConfigError::NoGroups => groups.len() == 0,
        ConfigError::EmptyGroup { group } => {
            &&& group < groups.len()
            &&& forall|j: int| 0 <= j < group ==> sound_group(#[trigger] groups[j])
            &&& groups[group as int].patterns.len() == 0
        },
        ConfigError::EmptyPattern { group, pattern } => {
            &&& group < groups.len()
            &&& forall|j: int| 0 <= j < group ==> sound_group(#[trigger] groups[j])
            &&& pattern < groups[group as int].patterns.len()
            &&& groups[group as int].patterns[pattern as int].len() == 0
            &&& forall|q: int|
                0 <= q < pattern ==> (#[trigger] groups[group as int].patterns[q]).len() > 0
        },
    }
}

/// The index of the first pattern at or after `from` that occurs in `text`.
pub open spec fn first_hit_from(patterns: Seq<Seq<char>>, text: Seq<char>, from: int) -> Option<int>
    decreases patterns.len() - from,
{
    if from < 0 || from >= patterns.len() {
        None
    } else if occurs_in(text, patterns[from]) {
        Some(from)
    } else {
        first_hit_from(patterns, text, from + 1)
    }
}

/// The index of the first pattern that occurs in `text`.
pub open spec fn first_hit(patterns: Seq<Seq<char>>, text: Seq<char>) -> Option<int> {
    first_hit_from(patterns, text, 0)
}

/// Some pattern of the group occurs in `text`.
pub open spec fn group_fires(g: GroupModel, text: Seq<char>) -> bool {
    exists|p: int| 0 <= p < g.patterns.len() && occurs_in(text, #[trigger] g.patterns[p])
}

/// Group `g` is the first, in priority order, that fires on `text`.
pub open spec fn first_firing(groups: Seq<GroupModel>, text: Seq<char>, g: int) -> bool {
    &&& 0 <= g < groups.len()
    &&& group_fires(groups[g], text)
    &&& forall|j: int| 0 <= j < g ==> !group_fires(#[trigger] groups[j], text)
}

/// The pattern of group `g` that decides on `text`: the first that occurs in it.
pub open spec fn deciding_pattern(groups: Seq<GroupModel>, text: Seq<char>, g: int) -> int {
    first_hit(groups[g].patterns, text)->0
}

/// No group fires on `text`: none of the configured patterns occurs in it.
pub open spec fn silent(groups: Seq<GroupModel>, text: Seq<char>) -> bool {
    forall|g: int| 0 <= g < groups.len() ==> !group_fires(#[trigger] groups[g], text)
}

/// The reason that group `g` gives when its pattern at index `p` matched:
/// the group's reason template followed by that pattern.
pub open spec fn reason_for_hit(g: GroupModel, p: int) -> Seq<char> {
    g.reason_template + g.patterns[p]
}

/// The verdict that group `g` gives when its pattern at index `p` matched.
/// A group that allows gives the plain allowing verdict.
pub open spec fn verdict_for_hit(g: GroupModel, p: int) -> VerdictModel {
    match g.action {
        Action::Allow => VerdictModel::allow(),
        Action::Drop => VerdictModel::dropped(reason_for_hit(g, p)),
        Action::Redact => VerdictModel::redacted(reason_for_hit(g, p)),
    }
}

/// The verdict of the scan that starts at group `from`.
pub open spec fn verdict_from(groups: Seq<GroupModel>, text: Seq<char>, from: int) -> VerdictModel
    decreases groups.len() - from,
{
    if from < 0 || from >= groups.len() {
        VerdictModel::allow()
    } else {
        match first_hit(groups[from].patterns, text) {
            Some(p) => verdict_for_hit(groups[from], p),
            None => verdict_from(groups, text, from + 1),
        }
    }
}

/// The verdict on an already folded text: the first group, in order, with a
/// pattern that occurs in the text decides, by the first such pattern; with
/// no such group the text is allowed.
pub open spec fn verdict_of(groups: Seq<GroupModel>, text: Seq<char>) -> VerdictModel {
    verdict_from(groups, text, 0)
}

/// The index of the first empty pattern of a group, if it has one.
fn first_empty_pattern(patterns: &Vec<String>) -> (found: Option<usize>)
    ensures
        match found {
            Some(p) => {
                &&& p < patterns@.len()
                &&& patterns@[p as int]@.len() == 0
                &&& forall|q: int| 0 <= q < p ==> (#[trigger] patterns@[q])@.len() > 0
            },
            None => forall|q: int| 0 <= q < patterns@.len() ==> (#[trigger] patterns@[q])@.len() > 0,
        },
{
    let mut p: usize = 0;
    while p < patterns.len()
        invariant
            p <= patterns@.len(),
            forall|q: int| 0 <= q < p ==> (#[trigger] patterns@[q])@.len() > 0,
        decreases patterns@.len() - p,
    {
        if patterns[p].as_str().is_empty() {
            return Some(p);
        }
        p += 1;
    }
    None
}

/// Checks a configuration. It is accepted exactly when it is valid;
/// otherwise the error names its first defect.
pub fn validate(groups: &Vec<RuleGroup>) -> (r: Result<(), ConfigError>)
    ensures
        r is Ok <==> valid_config(models(groups@)),
        r matches Err(err) ==> first_defect(models(groups@), err),
{
    if groups.len() == 0 {
        return Err(ConfigError::NoGroups);
    }
    let mut g: usize = 0;
    while g < groups.len()
        invariant
            g <= groups@.len(),
            forall|j: int| 0 <= j < g ==> sound_group(#[trigger] models(groups@)[j]),
        decreases groups@.len() - g,
    {
        let group = &groups[g];
        assert(models(groups@)[g as int] == group@);
        if group.patterns.len() == 0 {
            return Err(ConfigError::EmptyGroup { group: g });
        }
        match first_empty_pattern(&group.patterns) {
            Some(p) => {
                assert(group@.patterns[p as int] == group.patterns@[p as int]@);
                assert forall|q: int| 0 <= q < p implies (#[trigger] group@.patterns[q]).len()
                    > 0 by {
                    assert(group@.patterns[q] == group.patterns@[q]@);
                }
                return Err(ConfigError::EmptyPattern { group: g, pattern: p });
            },
            None => {
                assert forall|q: int| 0 <= q < group@.patterns.len() implies (
                #[trigger] group@.patterns[q]).len() > 0 by {
                    assert(group@.patterns[q] == group.patterns@[q]@);
                }
            },
        }
        g += 1;
    }
    Ok(())
}

} // verus!
