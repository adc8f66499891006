//! The inspection engine: a validated configuration and its evaluation.

use vstd::prelude::*;
use vstd::string::StringExecFns;
use crate::laws::{
    law_empty_payload_allowed, law_first_firing_group_decides, law_no_match_allows,
    law_verdict_well_formed,
};
use crate::rules::{
    deciding_pattern, first_defect, first_firing, first_hit, first_hit_from, models, silent, texts,
    valid_config, validate, verdict_for_hit, verdict_from, verdict_of, ConfigError, GroupModel,
    RuleGroup,
};
use crate::text::{chars_of, contains, normalize, normalized, occurs_in};
use crate::verdict::{Action, Verdict, VerdictModel};

verus! {

/// The texts of a list of character vectors, in order.
pub open spec fn needle_texts(v: Seq<Vec<char>>) -> Seq<Seq<char>> {
    Seq::new(v.len(), |i: int| v[i]@)
}

/// The patterns of a group as character vectors, ready for the search.
fn compile(patterns: &Vec<String>) -> (needles: Vec<Vec<char>>)
    ensures
        needle_texts(needles@) == texts(patterns@),
{
    let mut needles: Vec<Vec<char>> = Vec::new();
    let mut p: usize = 0;
    while p < patterns.len()
        invariant
            p <= patterns@.len(),
            needles@.len() == p,
            forall|q: int| 0 <= q < p ==> (#[trigger] needles@[q])@ == patterns@[q]@,
        decreases patterns@.len() - p,
    {
        needles.push(chars_of(patterns[p].as_str()));
        p += 1;
    }
    assert(needle_texts(needles@) =~= texts(patterns@));
    needles
}

/// The index of the first needle that occurs in `hay`, if any does.
pub fn first_match(needles: &Vec<Vec<char>>, hay: &[char]) -> (hit: Option<usize>)
    ensures
        match hit {
            Some(p) => {
                &&& p < needles@.len()
                &&& first_hit(needle_texts(needles@), hay@) == Some(p as int)
                &&& occurs_in(hay@, needles@[p as int]@)
                &&& forall|q: int| 0 <= q < p ==> !occurs_in(hay@, (#[trigger] needles@[q])@)
            },
            None => {
                &&& first_hit(needle_texts(needles@), hay@) is None
                &&& forall|q: int|
                    0 <= q < needles@.len() ==> !occurs_in(hay@, (#[trigger] needles@[q])@)
            },
        },
{
    let mut p: usize = 0;
    while p < needles.len()
        invariant
            p <= needles@.len(),
            first_hit(needle_texts(needles@), hay@) == first_hit_from(
                needle_texts(needles@),
                hay@,
                p as int,
            ),
            forall|q: int| 0 <= q < p ==> !occurs_in(hay@, (#[trigger] needles@[q])@),
        decreases needles@.len() - p,
    {
        assert(needle_texts(needles@)[p as int] == needles@[p as int]@);
        if contains(hay, needles[p].as_slice()) {
            return Some(p);
        }
        p += 1;
    }
    None
}

/// The configuration that guards against leaked credentials first and
/// against prompt injection second.
pub open spec fn standard_groups() -> Seq<GroupModel> {
    seq![
        GroupModel {
            name: "sensitive"@,
            action: Action::Redact,
            reason_template: "Contains sensitive pattern: "@,
            patterns: seq!["password"@, "secret"@, "api_key"@, "credit_card"@],
        },
        GroupModel {
            name: "injection"@,
            action: Action::Drop,
            reason_template: "Potential prompt injection: "@,
            patterns: seq![
                "ignore previous"@,
                "disregard above"@,
                "new instructions"@,
                "system prompt"@,
            ],
        },
    ]
}

/// An inspection engine. Its rule groups are fixed at construction and are
/// scanned in order at each evaluation.
#[derive(Debug)]
pub struct Engine {
    groups: Vec<RuleGroup>,
    needles: Vec<Vec<Vec<char>>>,
}

impl View for Engine {
    type V = Seq<GroupModel>;

    closed spec fn view(&self) -> Seq<GroupModel> {
        models(self.groups@)
    }
}

impl Engine {
    /// The configuration is valid, and each pattern is held a second time
    /// as characters.
    #[verifier::type_invariant]
    closed spec fn inv(&self) -> bool {
        &&& valid_config(models(self.groups@))
        &&& self.needles@.len() == self.groups@.len()
        &&& forall|g: int|
            0 <= g < self.groups@.len() ==> needle_texts((#[trigger] self.needles@[g])@) == texts(
                self.groups@[g].patterns@,
            )
    }

    fn assemble(groups: Vec<RuleGroup>) -> (e: Engine)
        requires
            valid_config(models(groups@)),
        ensures
            e@ == models(groups@),
    {
        let mut needles: Vec<Vec<Vec<char>>> = Vec::new();
        let mut g: usize = 0;
        while g < groups.len()
            invariant
                g <= groups@.len(),
                needles@.len() == g,
                forall|j: int|
                    0 <= j < g ==> needle_texts((#[trigger] needles@[j])@) == texts(
                        groups@[j].patterns@,
                    ),
            decreases groups@.len() - g,
        {
            needles.push(compile(&groups[g].patterns));
            g += 1;
        }
        Engine { groups, needles }
    }

    /// Builds an engine from an ordered list of rule groups, the group of
    /// highest priority first. The list is accepted exactly when it is a
    /// valid configuration; otherwise the error names its first defect.
    pub fn new(groups: Vec<RuleGroup>) -> (r: Result<Engine, ConfigError>)
        ensures
            r is Ok <==> valid_config(models(groups@)),
            r matches Ok(e) ==> e@ == models(groups@),
            r matches Err(err) ==> first_defect(models(groups@), err),
    {
        match validate(&groups) {
            Ok(()) => Ok(Engine::assemble(groups)),
            Err(err) => Err(err),
        }
    }

    /// The engine with the standard configuration.
    pub fn standard() -> (e: Engine)
        ensures
            e@ == standard_groups(),
    {
        let sensitive = RuleGroup {
            name: "sensitive".to_owned(),
            action: Action::Redact,
            reason_template: "Contains sensitive pattern: ".to_owned(),
            patterns: vec![
                "password".to_owned(),
                "secret".to_owned(),
                "api_key".to_owned(),
                "credit_card".to_owned(),
            ],
        };
        let injection = RuleGroup {
            name: "injection".to_owned(),
            action: Action::Drop,
            reason_template: "Potential prompt injection: ".to_owned(),
            patterns: vec![
                "ignore previous".to_owned(),
                "disregard above".to_owned(),
                "new instructions".to_owned(),
                "system prompt".to_owned(),
            ],
        };
        proof {
            assert(texts(sensitive.patterns@) =~= standard_groups()[0].patterns);
            assert(texts(injection.patterns@) =~= standard_groups()[1].patterns);
            assert(sensitive@ == standard_groups()[0]);
            assert(injection@ == standard_groups()[1]);
        }
        let groups = vec![sensitive, injection];
        proof {
            assert(models(groups@) =~= standard_groups());
            lemma_standard_groups_valid();
        }
        Engine::assemble(groups)
    }

    /// The rule groups of the engine, in priority order. They form a valid
    /// configuration.
    pub fn groups(&self) -> (groups: &Vec<RuleGroup>)
        ensures
            models(groups@) == self@,
            valid_config(self@),
    {
        proof {
            use_type_invariant(self);
        }
        &self.groups
    }

    /// Evaluates a text that is already in comparison form: the first
    /// pattern that occurs in it, in group order and then in the order within
    /// the group, decides; a text in which none occurs is allowed.
    pub fn evaluate_normalized(&self, text: &str) -> (v: Verdict)
        ensures
            v@ == verdict_of(self@, text@),
            v@.well_formed(),
            silent(self@, text@) ==> v@ == VerdictModel::allow(),
            forall|g: int|
                first_firing(self@, text@, g) ==> v@ == verdict_for_hit(
                    self@[g],
                    deciding_pattern(self@, text@, g),
                ),
    {
        proof {
            law_verdict_well_formed(self@, text@);
            if silent(self@, text@) {
                law_no_match_allows(self@, text@);
            }
            assert forall|g: int| first_firing(self@, text@, g) implies verdict_of(self@, text@)
                == verdict_for_hit(self@[g], deciding_pattern(self@, text@, g)) by {
                law_first_firing_group_decides(self@, text@, g);
            }
        }
        self.scan(text)
    }

    /// The scan itself: group by group, pattern by pattern, to the first match.
    fn scan(&self, text: &str) -> (v: Verdict)
        ensures
            v@ == verdict_of(self@, text@),
    {
        proof {
            use_type_invariant(self);
        }
        let hay = chars_of(text);
        let mut g: usize = 0;
        while g < self.groups.len()
            invariant
                self.inv(),
                hay@ == text@,
                g <= self.groups@.len(),
                verdict_of(self@, text@) == verdict_from(self@, text@, g as int),
            decreases self.groups@.len() - g,
        {
            let group = &self.groups[g];
            assert(self@[g as int] == group@);
            match first_match(&self.needles[g], hay.as_slice()) {
                Some(p) => {
                    assert(texts(group.patterns@).len() == self.needles@[g as int]@.len());
                    assert(group@.patterns[p as int] == group.patterns@[p as int]@);
                    return match group.action {
                        Action::Allow => Verdict::allow(),
                        Action::Drop => Verdict::dropped(
                            reason(&group.reason_template, &group.patterns[p]),
                        ),
                        Action::Redact => Verdict::redacted(
                            reason(&group.reason_template, &group.patterns[p]),
                        ),
                    };
                },
                None => {},
            }
            g += 1;
        }
        Verdict::allow()
    }

    /// Evaluates a payload: folds its case once, then lets the first pattern
    /// that occurs in the folded text, in group order and then in the order
    /// within the group, decide. The empty payload is allowed.
    pub fn evaluate(&self, payload: &str) -> (v: Verdict)
        ensures
            v@ == verdict_of(self@, normalized(payload@)),
            v@.well_formed(),
            payload@.len() == 0 ==> v@ == VerdictModel::allow(),
            silent(self@, normalized(payload@)) ==> v@ == VerdictModel::allow(),
            forall|g: int|
                first_firing(self@, normalized(payload@), g) ==> v@ == verdict_for_hit(
                    self@[g],
                    deciding_pattern(self@, normalized(payload@), g),
                ),
    {
        proof {
            use_type_invariant(self);
            if payload@.len() == 0 {
                assert(payload@ =~= Seq::<char>::empty());
                law_empty_payload_allowed(self@);
            }
        }
        let folded = normalize(payload);
        self.evaluate_normalized(folded.as_str())
    }
}

/// The reason for a match: the template followed by the pattern.
fn reason(template: &String, pattern: &String) -> (r: String)
    ensures
        r@ == template@ + pattern@,
{
    let mut r = template.clone();
    r.append(pattern.as_str());
    r
}

/// The standard configuration is valid.
pub proof fn lemma_standard_groups_valid()
    ensures
        valid_config(standard_groups()),
{
    reveal_strlit("password");
    reveal_strlit("secret");
    reveal_strlit("api_key");
    reveal_strlit("credit_card");
    reveal_strlit("ignore previous");
    reveal_strlit("disregard above");
    reveal_strlit("new instructions");
    reveal_strlit("system prompt");
}

/// Evaluates `content` with the standard configuration: redaction where a
/// sensitive pattern occurs in the folded content, else suppression where an
/// injection pattern does, else allowance.
pub fn inspect_message(content: &str) -> (v: Verdict)
    ensures
        v@ == verdict_of(standard_groups(), normalized(content@)),
        v@.well_formed(),
        content@.len() == 0 ==> v@ == VerdictModel::allow(),
        silent(standard_groups(), normalized(content@)) ==> v@ == VerdictModel::allow(),
        forall|g: int|
            first_firing(standard_groups(), normalized(content@), g) ==> v@ == verdict_for_hit(
                standard_groups()[g],
                deciding_pattern(standard_groups(), normalized(content@), g),
            ),
{
    Engine::standard().evaluate(content)
}

} // verus!
