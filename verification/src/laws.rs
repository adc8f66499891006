//! What holds of every evaluation, proved over the meaning of a scan.

use vstd::prelude::*;
use crate::engine::standard_groups;
use crate::rules::{
    deciding_pattern, first_firing, first_hit, first_hit_from, group_fires, reason_for_hit, silent,
    valid_config, verdict_for_hit, verdict_from, verdict_of, GroupModel,
};
use crate::text::{lemma_nothing_occurs_in_empty, normalized, occurs_at, occurs_in};
use crate::verdict::{redaction_marker, Action, Verdict, VerdictModel};

verus! {

/// A scan of patterns from `from` on finds the least index at or after
/// `from` whose pattern occurs in the text, and finds none exactly when no
/// such pattern occurs.
pub proof fn lemma_first_hit_from(patterns: Seq<Seq<char>>, text: Seq<char>, from: int)
    requires
        0 <= from,
    ensures
        match first_hit_from(patterns, text, from) {
            Some(p) => {
                &&& from <= p < patterns.len()
                &&& occurs_in(text, patterns[p])
                &&& forall|q: int| from <= q < p ==> !occurs_in(text, #[trigger] patterns[q])
            },
            None => forall|q: int|
                from <= q < patterns.len() ==> !occurs_in(text, #[trigger] patterns[q]),
        },
    decreases patterns.len() - from,
{
    if from < patterns.len() && !occurs_in(text, patterns[from]) {
        lemma_first_hit_from(patterns, text, from + 1);
    }
}

/// A group fires exactly when its scan finds a pattern.
pub proof fn lemma_fires_iff_hit(g: GroupModel, text: Seq<char>)
    ensures
        group_fires(g, text) <==> first_hit(g.patterns, text) is Some,
{
    lemma_first_hit_from(g.patterns, text, 0);
}

/// Whatever the configuration and the text, the verdict is well-formed: it
/// carries a reason exactly when it does not allow, and a replacement text
/// exactly when it redacts.
pub proof fn law_verdict_well_formed(groups: Seq<GroupModel>, text: Seq<char>)
    ensures
        verdict_of(groups, text).well_formed(),
{
    lemma_scan_well_formed(groups, text, 0);
}

proof fn lemma_scan_well_formed(groups: Seq<GroupModel>, text: Seq<char>, from: int)
    requires
        0 <= from,
    ensures
        verdict_from(groups, text, from).well_formed(),
    decreases groups.len() - from,
{
    if from < groups.len() && first_hit(groups[from].patterns, text) is None {
        lemma_scan_well_formed(groups, text, from + 1);
    }
}

proof fn lemma_scan_skips_silent_groups(
    groups: Seq<GroupModel>,
    text: Seq<char>,
    from: int,
    to: int,
)
    requires
        0 <= from <= to <= groups.len(),
        forall|j: int| from <= j < to ==> !group_fires(#[trigger] groups[j], text),
    ensures
        verdict_from(groups, text, from) == verdict_from(groups, text, to),
    decreases to - from,
{
    if from < to {
        lemma_fires_iff_hit(groups[from], text);
        lemma_scan_skips_silent_groups(groups, text, from + 1, to);
    }
}

/// Every scan falls under one of the two cases that the laws below speak
/// of: either no group fires, or some group is the first to fire.
pub proof fn law_silent_or_first_firing(groups: Seq<GroupModel>, text: Seq<char>)
    ensures
        silent(groups, text) || exists|g: int| first_firing(groups, text, g),
{
    lemma_least_firing_group(groups, text, groups.len() as int);
}

proof fn lemma_least_firing_group(groups: Seq<GroupModel>, text: Seq<char>, upto: int)
    requires
        0 <= upto <= groups.len(),
    ensures
        (forall|j: int| 0 <= j < upto ==> !group_fires(#[trigger] groups[j], text)) || exists|
            g: int,
        | first_firing(groups, text, g),
    decreases upto,
{
    if upto > 0 {
        lemma_least_firing_group(groups, text, upto - 1);
        if (forall|j: int| 0 <= j < upto - 1 ==> !group_fires(#[trigger] groups[j], text))
            && group_fires(groups[upto - 1], text) {
            assert(first_firing(groups, text, upto - 1));
        }
    }
}

/// A text in which no configured pattern occurs is allowed, with no reason
/// and no replacement text.
pub proof fn law_no_match_allows(groups: Seq<GroupModel>, text: Seq<char>)
    requires
        silent(groups, text),
    ensures
        verdict_of(groups, text) == VerdictModel::allow(),
{
    lemma_scan_skips_silent_groups(groups, text, 0, groups.len() as int);
}

/// The first group that fires decides, by its first pattern that occurs in
/// the text, whatever the groups after it hold.
pub proof fn law_first_firing_group_decides(groups: Seq<GroupModel>, text: Seq<char>, g: int)
    requires
        first_firing(groups, text, g),
    ensures
        first_hit(groups[g].patterns, text) is Some,
        0 <= deciding_pattern(groups, text, g) < groups[g].patterns.len(),
        occurs_in(text, groups[g].patterns[deciding_pattern(groups, text, g)]),
        forall|q: int|
            0 <= q < deciding_pattern(groups, text, g) ==> !occurs_in(
                text,
                #[trigger] groups[g].patterns[q],
            ),
        verdict_of(groups, text) == verdict_for_hit(
            groups[g],
            deciding_pattern(groups, text, g),
        ),
{
    lemma_scan_skips_silent_groups(groups, text, 0, g);
    lemma_fires_iff_hit(groups[g], text);
    lemma_first_hit_from(groups[g].patterns, text, 0);
}

/// Where the first group that fires redacts, the verdict is `Redact`; its
/// reason is the group's template followed by the deciding pattern; and its
/// replacement text is the fixed marker, in which nothing of the payload
/// stands.
pub proof fn law_redaction(groups: Seq<GroupModel>, text: Seq<char>, g: int)
    requires
        first_firing(groups, text, g),
        groups[g].action == Action::Redact,
    ensures
        verdict_of(groups, text).action == Action::Redact,
        verdict_of(groups, text).reason == Some(
            reason_for_hit(groups[g], deciding_pattern(groups, text, g)),
        ),
        verdict_of(groups, text).sanitized_content == Some(redaction_marker()),
{
    law_first_firing_group_decides(groups, text, g);
}

/// The replacement text of a redaction does not hold the pattern that
/// decided, provided that this pattern is no part of the marker itself.
pub proof fn law_redaction_hides_pattern(groups: Seq<GroupModel>, text: Seq<char>, g: int)
    requires
        first_firing(groups, text, g),
        groups[g].action == Action::Redact,
        !occurs_in(redaction_marker(), groups[g].patterns[deciding_pattern(groups, text, g)]),
    ensures
        verdict_of(groups, text).sanitized_content is Some,
        !occurs_in(
            verdict_of(groups, text).sanitized_content->0,
            groups[g].patterns[deciding_pattern(groups, text, g)],
        ),
{
    law_redaction(groups, text, g);
}

/// Where the first group that fires drops, the verdict is `Drop`, with the
/// group's template followed by the deciding pattern as its reason and no
/// replacement text.
pub proof fn law_injection_drops(groups: Seq<GroupModel>, text: Seq<char>, g: int)
    requires
        first_firing(groups, text, g),
        groups[g].action == Action::Drop,
    ensures
        verdict_of(groups, text).action == Action::Drop,
        verdict_of(groups, text).reason == Some(
            reason_for_hit(groups[g], deciding_pattern(groups, text, g)),
        ),
        verdict_of(groups, text).sanitized_content is None,
{
    law_first_firing_group_decides(groups, text, g);
}

/// Priority: where two groups fire, and no group before the earlier one
/// does, the earlier one gives the verdict its action.
pub proof fn law_priority(groups: Seq<GroupModel>, text: Seq<char>, g: int, h: int)
    requires
        first_firing(groups, text, g),
        g < h < groups.len(),
        group_fires(groups[h], text),
    ensures
        verdict_of(groups, text).action == groups[g].action,
        verdict_of(groups, text) == verdict_for_hit(
            groups[g],
            deciding_pattern(groups, text, g),
        ),
{
    law_first_firing_group_decides(groups, text, g);
}

/// In the standard configuration redaction outranks injection: a text in
/// which a sensitive pattern occurs is redacted, whether or not an injection
/// pattern occurs in it too.
pub proof fn law_standard_redaction_outranks_injection(text: Seq<char>)
    requires
        group_fires(standard_groups()[0], text),
    ensures
        verdict_of(standard_groups(), text).action == Action::Redact,
        verdict_of(standard_groups(), text).sanitized_content == Some(redaction_marker()),
{
    law_redaction(standard_groups(), text, 0);
}

/// A text that starts with a character that the marker does not hold is no
/// part of the marker.
proof fn lemma_absent_from_marker(pattern: Seq<char>)
    requires
        pattern.len() > 0,
        forall|i: int| 0 <= i < redaction_marker().len() ==> redaction_marker()[i] != pattern[0],
    ensures
        !occurs_in(redaction_marker(), pattern),
{
    assert forall|at: int| !occurs_at(redaction_marker(), pattern, at) by {
        if occurs_at(redaction_marker(), pattern, at) {
            let part = redaction_marker().subrange(at, at + pattern.len());
            assert(part[0] == redaction_marker()[at]);
        }
    }
}

/// In the standard configuration no sensitive pattern is a part of what a
/// redaction forwards.
pub proof fn law_standard_redaction_hides_patterns(text: Seq<char>)
    requires
        group_fires(standard_groups()[0], text),
    ensures
        verdict_of(standard_groups(), text).sanitized_content is Some,
        forall|p: int|
            0 <= p < standard_groups()[0].patterns.len() ==> !occurs_in(
                verdict_of(standard_groups(), text).sanitized_content->0,
                #[trigger] standard_groups()[0].patterns[p],
            ),
{
    law_standard_redaction_outranks_injection(text);
    reveal_strlit("[REDACTED]");
    reveal_strlit("password");
    reveal_strlit("secret");
    reveal_strlit("api_key");
    reveal_strlit("credit_card");
    lemma_absent_from_marker("password"@);
    lemma_absent_from_marker("secret"@);
    lemma_absent_from_marker("api_key"@);
    lemma_absent_from_marker("credit_card"@);
}

/// In the standard configuration a text in which an injection pattern
/// occurs and no sensitive pattern does is dropped.
pub proof fn law_standard_injection_drops(text: Seq<char>)
    requires
        !group_fires(standard_groups()[0], text),
        group_fires(standard_groups()[1], text),
    ensures
        verdict_of(standard_groups(), text).action == Action::Drop,
        verdict_of(standard_groups(), text).sanitized_content is None,
        verdict_of(standard_groups(), text).reason is Some,
{
    law_injection_drops(standard_groups(), text, 1);
}

/// The empty payload is allowed by every valid configuration.
pub proof fn law_empty_payload_allowed(groups: Seq<GroupModel>)
    requires
        valid_config(groups),
    ensures
        verdict_of(groups, normalized(Seq::<char>::empty())) == VerdictModel::allow(),
{
    let text = Seq::<char>::empty();
    assert forall|g: int| 0 <= g < groups.len() implies !group_fires(
        #[trigger] groups[g],
        text,
    ) by {
        assert forall|p: int| 0 <= p < groups[g].patterns.len() implies !occurs_in(
            text,
            #[trigger] groups[g].patterns[p],
        ) by {
            lemma_nothing_occurs_in_empty(groups[g].patterns[p]);
        }
    }
    law_no_match_allows(groups, text);
}

/// Case-insensitivity: payloads with the same comparison form get the same verdict.
pub proof fn law_case_insensitive(groups: Seq<GroupModel>, a: Seq<char>, b: Seq<char>)
    requires
        normalized(a) == normalized(b),
    ensures
        verdict_of(groups, normalized(a)) == verdict_of(groups, normalized(b)),
{
}

/// Idempotence: two evaluations of one payload under one configuration give
/// verdicts that agree in action, reason and replacement text.
pub proof fn law_evaluation_idempotent(
    groups: Seq<GroupModel>,
    payload: Seq<char>,
    first: Verdict,
    second: Verdict,
)
    requires
        first@ == verdict_of(groups, normalized(payload)),
        second@ == verdict_of(groups, normalized(payload)),
    ensures
        first@ == second@,
        first@.action == second@.action,
        first@.reason == second@.reason,
        first@.sanitized_content == second@.sanitized_content,
{
}

} // verus!
