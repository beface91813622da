//! The catalogue of tools the server offers, and the recommendation of
//! tools for a problem description by the words that occur in it.
use vstd::prelude::*;
use crate::text::{chars_of, contains_word, lowercase_of, occurs_in, to_lowercase};

verus! {

/// A tool of the server.
#[derive(Clone, Copy, PartialEq, Eq, Debug, Structural)]
pub enum Tool {
    SelectMentalModels,
    AnalyzeOodaLoop,
    ApplyFirstPrinciples,
    ExecuteSixHats,
    AnalyzePareto,
    RunRootCause,
    EvaluateOccamsRazor,
    ApplyRule5x5,
}

/// The tools in the order in which the server lists them.
pub open spec fn catalogue() -> Seq<Tool> {
    seq![
        Tool::SelectMentalModels,
        Tool::AnalyzeOodaLoop,
        Tool::ApplyFirstPrinciples,
        Tool::ExecuteSixHats,
        Tool::AnalyzePareto,
        Tool::RunRootCause,
        Tool::EvaluateOccamsRazor,
        Tool::ApplyRule5x5,
    ]
}

impl Tool {
    /// The name under which the tool is listed and called.
    pub open spec fn name_model(self) -> Seq<char> {
        match self {
            Tool::SelectMentalModels => "select_mental_models"@,
            Tool::AnalyzeOodaLoop => "analyze_ooda_loop"@,
            Tool::ApplyFirstPrinciples => "apply_first_principles"@,
            Tool::ExecuteSixHats => "execute_six_hats"@,
            Tool::AnalyzePareto => "analyze_pareto"@,
            Tool::RunRootCause => "run_root_cause"@,
            Tool::EvaluateOccamsRazor => "evaluate_occams_razor"@,
            Tool::ApplyRule5x5 => "apply_rule_5x5"@,
        }
    }

    /// The description the tool is listed with.
    pub open spec fn description_model(self) -> Seq<char> {
        match self {
            Tool::SelectMentalModels => "Evaluates the context and returns an array of relevant mental models to use."@,
            Tool::AnalyzeOodaLoop => "Applies the OODA Loop framework to the context."@,
            Tool::ApplyFirstPrinciples => "Applies First Principles Thinking to deconstruct the problem context."@,
            Tool::ExecuteSixHats => "Applies De Bono's Six Thinking Hats to the context simultaneously."@,
            Tool::AnalyzePareto => "Applies the Pareto 80/20 principle to deduce and isolate key drivers."@,
            Tool::RunRootCause => "Runs Root Cause Analysis using 5 Whys, Fishbone, or Fault-Tree frameworks."@,
            Tool::EvaluateOccamsRazor => "Applies Occam's Razor to prioritize the simplest explanation."@,
            Tool::ApplyRule5x5 => "Applies the 5x5 rule to filter tactical setbacks."@,
        }
    }

    /// The name under which the tool is listed and called.
    pub fn name(&self) -> (r: &'static str)
        ensures
            r@ == self.name_model(),
    {
        match self {
            Tool::SelectMentalModels => "select_mental_models",
            Tool::AnalyzeOodaLoop => "analyze_ooda_loop",
            Tool::ApplyFirstPrinciples => "apply_first_principles",
            Tool::ExecuteSixHats => "execute_six_hats",
            Tool::AnalyzePareto => "analyze_pareto",
            Tool::RunRootCause => "run_root_cause",
            Tool::EvaluateOccamsRazor => "evaluate_occams_razor",
            Tool::ApplyRule5x5 => "apply_rule_5x5",
        }
    }

    /// The description the tool is listed with.
    pub fn description(&self) -> (r: &'static str)
        ensures
            r@ == self.description_model(),
    {
        match self {
            Tool::SelectMentalModels => "Evaluates the context and returns an array of relevant mental models to use.",
            Tool::AnalyzeOodaLoop => "Applies the OODA Loop framework to the context.",
            Tool::ApplyFirstPrinciples => "Applies First Principles Thinking to deconstruct the problem context.",
            Tool::ExecuteSixHats => "Applies De Bono's Six Thinking Hats to the context simultaneously.",
            Tool::AnalyzePareto => "Applies the Pareto 80/20 principle to deduce and isolate key drivers.",
            Tool::RunRootCause => "Runs Root Cause Analysis using 5 Whys, Fishbone, or Fault-Tree frameworks.",
            Tool::EvaluateOccamsRazor => "Applies Occam's Razor to prioritize the simplest explanation.",
            Tool::ApplyRule5x5 => "Applies the 5x5 rule to filter tactical setbacks.",
        }
    }
}

/// The tools in the order in which the server lists them.
pub fn catalogue_tools() -> (r: Vec<Tool>)
    ensures
        r@ == catalogue(),
{
    let mut v: Vec<Tool> = Vec::new();
    v.push(Tool::SelectMentalModels);
    v.push(Tool::AnalyzeOodaLoop);
    v.push(Tool::ApplyFirstPrinciples);
    v.push(Tool::ExecuteSixHats);
    v.push(Tool::AnalyzePareto);
    v.push(Tool::RunRootCause);
    v.push(Tool::EvaluateOccamsRazor);
    v.push(Tool::ApplyRule5x5);
    assert(v@ =~= catalogue());
    v
}

/// `s` without the elements that repeat the one before them (what
/// `Vec::dedup` leaves).
pub open spec fn dedup_adjacent<T>(s: Seq<T>) -> Seq<T>
    decreases s.len(),
{
    if s.len() == 0 {
        s
    } else if s.len() >= 2 && s[s.len() - 2] == s.last() {
        dedup_adjacent(s.drop_last())
    } else {
        dedup_adjacent(s.drop_last()).push(s.last())
    }
}

/// The last element survives `dedup_adjacent`.
pub proof fn lemma_dedup_adjacent_last<T>(s: Seq<T>)
    requires
        s.len() > 0,
    ensures
        dedup_adjacent(s).len() > 0,
        dedup_adjacent(s).last() == s.last(),
    decreases s.len(),
{
    if s.len() >= 2 && s[s.len() - 2] == s.last() {
        lemma_dedup_adjacent_last(s.drop_last());
    }
}

/// Removes the tools that repeat the one before them (`Vec::dedup`).
pub fn dedup(v: &mut Vec<Tool>)
    ensures
        final(v)@ == dedup_adjacent(old(v)@),
{
    let ghost orig = v@;
    let mut out: Vec<Tool> = Vec::new();
    let mut i: usize = 0;
    while i < v.len()
        invariant
            v@ == orig,
            i <= orig.len(),
            out@ == dedup_adjacent(orig.take(i as int)),
        decreases orig.len() - i,
    {
        let x = v[i];
        proof {
            assert(orig.take(i + 1).drop_last() =~= orig.take(i as int));
            if i > 0 {
                lemma_dedup_adjacent_last(orig.take(i as int));
            }
        }
        if out.len() == 0 || out[out.len() - 1] != x {
            out.push(x);
        }
        i = i + 1;
    }
    assert(orig.take(orig.len() as int) =~= orig);
    *v = out;
}

/// Words that point to a failure.
pub open spec fn names_failure(s: Seq<char>) -> bool {
    occurs_in(s, "fail"@) || occurs_in(s, "bug"@) || occurs_in(s, "error"@) || occurs_in(s, "crash"@)
}

/// Words that point to a question of priorities.
pub open spec fn names_priorities(s: Seq<char>) -> bool {
    occurs_in(s, "optimize"@) || occurs_in(s, "prioritize"@) || occurs_in(s, "backlog"@)
        || occurs_in(s, "heavy"@)
}

/// Words that point to a choice of design.
pub open spec fn names_design(s: Seq<char>) -> bool {
    occurs_in(s, "architecture"@) || occurs_in(s, "design"@) || occurs_in(s, "choose"@)
        || occurs_in(s, "versus"@)
}

/// Words that point to a crisis.
pub open spec fn names_crisis(s: Seq<char>) -> bool {
    occurs_in(s, "crisis"@) || occurs_in(s, "incident"@) || occurs_in(s, "rapid"@)
}

/// Words that point to people in disagreement.
pub open spec fn names_conflict(s: Seq<char>) -> bool {
    occurs_in(s, "conflict"@) || occurs_in(s, "bias"@) || occurs_in(s, "team"@)
}

/// Words that point to everyday stress.
pub open spec fn names_stress(s: Seq<char>) -> bool {
    occurs_in(s, "stress"@) || occurs_in(s, "annoyed"@) || occurs_in(s, "slack"@) || occurs_in(
        s,
        "email"@,
    )
}

/// The tools whose words occur in a lowercase description, group by group.
pub open spec fn candidate_tools(lower: Seq<char>) -> Seq<Tool> {
    (if names_failure(lower) { seq![Tool::RunRootCause] } else { seq![] })
    + (if names_priorities(lower) { seq![Tool::AnalyzePareto] } else { seq![] })
    + (if names_design(lower) { seq![Tool::EvaluateOccamsRazor, Tool::ApplyFirstPrinciples] } else { seq![] })
    + (if names_crisis(lower) { seq![Tool::AnalyzeOodaLoop] } else { seq![] })
    + (if names_conflict(lower) { seq![Tool::ExecuteSixHats] } else { seq![] })
    + (if names_stress(lower) { seq![Tool::ApplyRule5x5] } else { seq![] })
}

/// The tools recommended for a lowercase description: the candidates, or,
/// where no word occurs, first principles and the six hats; repeats of
/// the tool before are dropped.
pub open spec fn recommended_tools(lower: Seq<char>) -> Seq<Tool> {
    let c = candidate_tools(lower);
    dedup_adjacent(
        if c.len() == 0 {
            seq![Tool::ApplyFirstPrinciples, Tool::ExecuteSixHats]
        } else {
            c
        },
    )
}

/// The tools recommended for a description already in lowercase.
pub fn recommend(lower: &str) -> (r: Vec<Tool>)
    ensures
        r@ == recommended_tools(lower@),
{
    let s = chars_of(lower);
    let ghost l = lower@;
    let mut selected: Vec<Tool> = Vec::new();
    if contains_word(&s, "fail") || contains_word(&s, "bug") || contains_word(&s, "error")
        || contains_word(&s, "crash") {
        selected.push(Tool::RunRootCause);
    }
    assert(selected@ =~= (if names_failure(l) { seq![Tool::RunRootCause] } else { seq![] }));
    let ghost g1 = selected@;
    if contains_word(&s, "optimize") || contains_word(&s, "prioritize") || contains_word(
        &s,
        "backlog",
    ) || contains_word(&s, "heavy") {
        selected.push(Tool::AnalyzePareto);
    }
    assert(selected@ =~= g1 + (if names_priorities(l) { seq![Tool::AnalyzePareto] } else { seq![] }));
    let ghost g2 = selected@;
    if contains_word(&s, "architecture") || contains_word(&s, "design") || contains_word(
        &s,
        "choose",
    ) || contains_word(&s, "versus") {
        selected.push(Tool::EvaluateOccamsRazor);
        selected.push(Tool::ApplyFirstPrinciples);
    }
    assert(selected@ =~= g2 + (if names_design(l) {
        seq![Tool::EvaluateOccamsRazor, Tool::ApplyFirstPrinciples]
    } else {
        seq![]
    }));
    let ghost g3 = selected@;
    if contains_word(&s, "crisis") || contains_word(&s, "incident") || contains_word(&s, "rapid") {
        selected.push(Tool::AnalyzeOodaLoop);
    }
    assert(selected@ =~= g3 + (if names_crisis(l) { seq![Tool::AnalyzeOodaLoop] } else { seq![] }));
    let ghost g4 = selected@;
    if contains_word(&s, "conflict") || contains_word(&s, "bias") || contains_word(&s, "team") {
        selected.push(Tool::ExecuteSixHats);
    }
    assert(selected@ =~= g4 + (if names_conflict(l) { seq![Tool::ExecuteSixHats] } else { seq![] }));
    let ghost g5 = selected@;
    if contains_word(&s, "stress") || contains_word(&s, "annoyed") || contains_word(&s, "slack")
        || contains_word(&s, "email") {
        selected.push(Tool::ApplyRule5x5);
    }
    assert(selected@ =~= g5 + (if names_stress(l) { seq![Tool::ApplyRule5x5] } else { seq![] }));
    assert(selected@ =~= candidate_tools(l));
    if selected.len() == 0 {
        selected.push(Tool::ApplyFirstPrinciples);
        selected.push(Tool::ExecuteSixHats);
        assert(selected@ =~= seq![Tool::ApplyFirstPrinciples, Tool::ExecuteSixHats]);
    }
    dedup(&mut selected);
    selected
}

/// A name in double quotes.
pub open spec fn quoted(n: Seq<char>) -> Seq<char> {
    "\""@ + n + "\""@
}

/// The quoted names of the tools, separated by a comma and a space.
pub open spec fn listed_names(ts: Seq<Tool>) -> Seq<char>
    decreases ts.len(),
{
    if ts.len() == 0 {
        Seq::empty()
    } else if ts.len() == 1 {
        quoted(ts[0].name_model())
    } else {
        listed_names(ts.drop_last()) + ", "@ + quoted(ts.last().name_model())
    }
}

/// The answer that recommends the tools: their names as a debug-printed
/// list, such as `Recommended tools: ["run_root_cause", "analyze_pareto"]`.
pub open spec fn recommendation_text_model(ts: Seq<Tool>) -> Seq<char> {
    "Recommended tools: ["@ + listed_names(ts) + "]"@
}

/// The answer that recommends the given tools.
pub fn recommendation_text(tools: &Vec<Tool>) -> (r: String)
    ensures
        r@ == recommendation_text_model(tools@),
{
    let mut out = String::from_str("Recommended tools: [");
    let mut i: usize = 0;
    while i < tools.len()
        invariant
            i <= tools@.len(),
            out@ == "Recommended tools: ["@ + listed_names(tools@.take(i as int)),
        decreases tools@.len() - i,
    {
        let ghost before = out@;
        if i > 0 {
            out.append(", ");
        }
        out.append("\"");
        out.append(tools[i].name());
        out.append("\"");
        proof {
            let t = tools@.take(i + 1);
            assert(t.drop_last() =~= tools@.take(i as int));
            assert(t.last() == tools@[i as int]);
            if i == 0 {
                assert(out@ =~= "Recommended tools: ["@ + listed_names(t));
            } else {
                assert(out@ =~= "Recommended tools: ["@ + listed_names(t));
            }
        }
        i = i + 1;
    }
    out.append("]");
    assert(tools@.take(tools@.len() as int) =~= tools@);
    out
}

/// The answer of the `select_mental_models` tool for a description: the
/// tools recommended for its lowercase form.
pub fn select_mental_models(context: &str) -> (r: String)
    ensures
        r@ == recommendation_text_model(recommended_tools(lowercase_of(context@))),
{
    let lower = to_lowercase(context);
    let tools = recommend(lower.as_str());
    recommendation_text(&tools)
}

} // verus!
