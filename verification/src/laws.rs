//! Properties of the server that span its functions.
use vstd::prelude::*;
use crate::json::{field, member_lookup, text_of, JsonModel};
use crate::rpc::{
    initialize_result, method_not_found_result, request_result, tool_call_result, tools_list_result,
};
use crate::prompts::{
    prompt, root_cause_text_model, tool_text_model, FAULT_TREE_HEAD, FAULT_TREE_TAIL,
    FIRST_PRINCIPLES_HEAD, FIRST_PRINCIPLES_TAIL, FISHBONE_HEAD, FISHBONE_TAIL, FIVE_WHYS_HEAD,
    FIVE_WHYS_TAIL, MANDATE, OCCAMS_RAZOR_HEAD, OCCAMS_RAZOR_TAIL, OODA_LOOP_HEAD, OODA_LOOP_TAIL,
    PARETO_HEAD, PARETO_TAIL, RULE_5X5_HEAD, RULE_5X5_TAIL, SIX_HATS_HEAD, SIX_HATS_TAIL,
};
use crate::text::{lowercase_of, occurs_in};
use crate::tools::{
    candidate_tools, catalogue, dedup_adjacent, listed_names, names_conflict, names_crisis, names_design,
    names_failure, names_priorities, names_stress, recommendation_text_model, recommended_tools,
    Tool,
};

verus! {

/// The place of a tool in the order in which recommendations are made.
spec fn rank(t: Tool) -> int {
    match t {
        Tool::RunRootCause => 0,
        Tool::AnalyzePareto => 1,
        Tool::EvaluateOccamsRazor => 2,
        Tool::ApplyFirstPrinciples => 3,
        Tool::AnalyzeOodaLoop => 4,
        Tool::ExecuteSixHats => 5,
        Tool::ApplyRule5x5 => 6,
        Tool::SelectMentalModels => 7,
    }
}

/// The tools of `s` come in strictly increasing rank, all of them in `[lo, hi)`.
spec fn ranked_within(s: Seq<Tool>, lo: int, hi: int) -> bool {
    &&& forall|i: int, j: int| 0 <= i < j < s.len() ==> rank(#[trigger] s[i]) < rank(#[trigger] s[j])
    &&& forall|i: int| 0 <= i < s.len() ==> lo <= #[trigger] rank(s[i]) < hi
}

proof fn lemma_ranked_concat(a: Seq<Tool>, b: Seq<Tool>, lo: int, mid: int, hi: int)
    requires
        lo <= mid <= hi,
        ranked_within(a, lo, mid),
        ranked_within(b, mid, hi),
    ensures
        ranked_within(a + b, lo, hi),
{
    assert forall|i: int, j: int| 0 <= i < j < (a + b).len() implies rank(#[trigger] (a + b)[i])
        < rank(#[trigger] (a + b)[j]) by {
        if j < a.len() {
            assert((a + b)[i] == a[i] && (a + b)[j] == a[j]);
        } else if i >= a.len() {
            assert((a + b)[i] == b[i - a.len()] && (a + b)[j] == b[j - a.len()]);
        } else {
            assert((a + b)[i] == a[i] && (a + b)[j] == b[j - a.len()]);
        }
    }
    assert forall|i: int| 0 <= i < (a + b).len() implies lo <= #[trigger] rank((a + b)[i]) < hi by {
        if i < a.len() {
            assert((a + b)[i] == a[i]);
        } else {
            assert((a + b)[i] == b[i - a.len()]);
        }
    }
}

/// A sequence with no element equal to the one before it is left whole by
/// `dedup_adjacent`.
proof fn lemma_dedup_no_repeats(s: Seq<Tool>)
    requires
        forall|i: int| 0 < i < s.len() ==> #[trigger] s[i] != s[i - 1],
    ensures
        dedup_adjacent(s) == s,
    decreases s.len(),
{
    if s.len() > 0 {
        let d = s.drop_last();
        assert forall|i: int| 0 < i < d.len() implies #[trigger] d[i] != d[i - 1] by {
            assert(d[i] == s[i] && d[i - 1] == s[i - 1]);
        }
        lemma_dedup_no_repeats(d);
        if s.len() >= 2 {
            assert(s[s.len() - 1] != s[s.len() - 2]);
        }
        assert(d.push(s.last()) =~= s);
    }
}

/// The candidates of each group, for the given answers of the word tests.
spec fn grouped(f: bool, p: bool, d: bool, c: bool, k: bool, t: bool) -> Seq<Tool> {
    (if f { seq![Tool::RunRootCause] } else { seq![] })
    + (if p { seq![Tool::AnalyzePareto] } else { seq![] })
    + (if d { seq![Tool::EvaluateOccamsRazor, Tool::ApplyFirstPrinciples] } else { seq![] })
    + (if c { seq![Tool::AnalyzeOodaLoop] } else { seq![] })
    + (if k { seq![Tool::ExecuteSixHats] } else { seq![] })
    + (if t { seq![Tool::ApplyRule5x5] } else { seq![] })
}

proof fn lemma_grouped_ranked(f: bool, p: bool, d: bool, c: bool, k: bool, t: bool)
    ensures
        ranked_within(grouped(f, p, d, c, k, t), 0, 7),
{
    let g1: Seq<Tool> = if f { seq![Tool::RunRootCause] } else { seq![] };
    let g2: Seq<Tool> = if p { seq![Tool::AnalyzePareto] } else { seq![] };
    let g3: Seq<Tool> = if d {
        seq![Tool::EvaluateOccamsRazor, Tool::ApplyFirstPrinciples]
    } else {
        seq![]
    };
    let g4: Seq<Tool> = if c { seq![Tool::AnalyzeOodaLoop] } else { seq![] };
    let g5: Seq<Tool> = if k { seq![Tool::ExecuteSixHats] } else { seq![] };
    let g6: Seq<Tool> = if t { seq![Tool::ApplyRule5x5] } else { seq![] };
    assert(ranked_within(g1, 0, 1));
    assert(ranked_within(g2, 1, 2));
    assert(ranked_within(g3, 2, 4));
    assert(ranked_within(g4, 4, 5));
    assert(ranked_within(g5, 5, 6));
    assert(ranked_within(g6, 6, 7));
    lemma_ranked_concat(g1, g2, 0, 1, 2);
    lemma_ranked_concat(g1 + g2, g3, 0, 2, 4);
    lemma_ranked_concat(g1 + g2 + g3, g4, 0, 4, 5);
    lemma_ranked_concat(g1 + g2 + g3 + g4, g5, 0, 5, 6);
    lemma_ranked_concat(g1 + g2 + g3 + g4 + g5, g6, 0, 6, 7);
}

/// A sequence of tools in strictly increasing rank is what it recommends.
proof fn lemma_ranked_recommendation(s: Seq<Tool>)
    requires
        ranked_within(s, 0, 7),
    ensures
        dedup_adjacent(s) == s,
        forall|i: int, j: int| 0 <= i < j < s.len() ==> #[trigger] s[i] != #[trigger] s[j],
        forall|i: int|
            0 <= i < s.len() ==> #[trigger] s[i] != Tool::SelectMentalModels && catalogue().contains(
                s[i],
            ),
{
    assert forall|i: int| 0 < i < s.len() implies #[trigger] s[i] != s[i - 1] by {
        assert(rank(s[i - 1]) < rank(s[i]));
    }
    lemma_dedup_no_repeats(s);
    assert forall|i: int, j: int| 0 <= i < j < s.len() implies #[trigger] s[i] != #[trigger] s[j] by {
        assert(rank(s[i]) < rank(s[j]));
    }
    assert forall|i: int| 0 <= i < s.len() implies #[trigger] s[i] != Tool::SelectMentalModels
        && catalogue().contains(s[i]) by {
        assert(rank(s[i]) < 7);
        let t = s[i];
        let k: int = match t {
            Tool::SelectMentalModels => 0,
            Tool::AnalyzeOodaLoop => 1,
            Tool::ApplyFirstPrinciples => 2,
            Tool::ExecuteSixHats => 3,
            Tool::AnalyzePareto => 4,
            Tool::RunRootCause => 5,
            Tool::EvaluateOccamsRazor => 6,
            Tool::ApplyRule5x5 => 7,
        };
        assert(catalogue()[k] == t);
    }
}

/// The tools that `select_mental_models` recommends: at least one, none
/// of them twice, never `select_mental_models` itself, each one a tool
/// of the catalogue.
pub proof fn lemma_recommendations_distinct(lower: Seq<char>)
    ensures
        recommended_tools(lower).len() > 0,
        forall|i: int, j: int|
            0 <= i < j < recommended_tools(lower).len() ==> #[trigger] recommended_tools(lower)[i]
                != #[trigger] recommended_tools(lower)[j],
        forall|i: int|
            0 <= i < recommended_tools(lower).len() ==> #[trigger] recommended_tools(lower)[i]
                != Tool::SelectMentalModels && catalogue().contains(recommended_tools(lower)[i]),
{
    let c = candidate_tools(lower);
    let g = grouped(
        names_failure(lower),
        names_priorities(lower),
        names_design(lower),
        names_crisis(lower),
        names_conflict(lower),
        names_stress(lower),
    );
    assert(c == g);
    lemma_grouped_ranked(
        names_failure(lower),
        names_priorities(lower),
        names_design(lower),
        names_crisis(lower),
        names_conflict(lower),
        names_stress(lower),
    );
    let s = if c.len() == 0 {
        seq![Tool::ApplyFirstPrinciples, Tool::ExecuteSixHats]
    } else {
        c
    };
    assert(ranked_within(s, 0, 7));
    lemma_ranked_recommendation(s);
}

/// The recommendation of `select_mental_models` does not depend on the
/// case of letters: two descriptions with the same lowercase form get the
/// same answer.
pub proof fn lemma_recommendation_ignores_case(c1: Seq<char>, c2: Seq<char>, m1: Seq<char>, m2: Seq<char>)
    requires
        lowercase_of(c1) == lowercase_of(c2),
    ensures
        tool_text_model("select_mental_models"@, c1, m1) == tool_text_model(
            "select_mental_models"@,
            c2,
            m2,
        ),
{
}

/// The head and the tail of the prompt that a tool other than
/// `select_mental_models` answers with.
spec fn framework_of(t: Tool, method: Seq<char>) -> (Seq<char>, Seq<char>) {
    match t {
        Tool::AnalyzeOodaLoop => (OODA_LOOP_HEAD@, OODA_LOOP_TAIL@),
        Tool::ApplyFirstPrinciples => (FIRST_PRINCIPLES_HEAD@, FIRST_PRINCIPLES_TAIL@),
        Tool::ExecuteSixHats => (SIX_HATS_HEAD@, SIX_HATS_TAIL@),
        Tool::AnalyzePareto => (PARETO_HEAD@, PARETO_TAIL@),
        Tool::RunRootCause => if method == "fishbone"@ {
            (FISHBONE_HEAD@, FISHBONE_TAIL@)
        } else if method == "fault_tree"@ {
            (FAULT_TREE_HEAD@, FAULT_TREE_TAIL@)
        } else {
            (FIVE_WHYS_HEAD@, FIVE_WHYS_TAIL@)
        },
        Tool::EvaluateOccamsRazor => (OCCAMS_RAZOR_HEAD@, OCCAMS_RAZOR_TAIL@),
        Tool::ApplyRule5x5 => (RULE_5X5_HEAD@, RULE_5X5_TAIL@),
        Tool::SelectMentalModels => (Seq::empty(), Seq::empty()),
    }
}

/// Every prompt opens with `MANDATE: ` and holds the description verbatim.
proof fn lemma_prompt_shape(head: Seq<char>, context: Seq<char>, tail: Seq<char>)
    ensures
        prompt(head, context, tail).subrange(0, MANDATE@.len() as int) == MANDATE@,
        occurs_in(prompt(head, context, tail), context),
{
    let p = prompt(head, context, tail);
    let start: int = (MANDATE@.len() + head.len()) as int;
    assert(p.subrange(0, MANDATE@.len() as int) =~= MANDATE@);
    assert(p.subrange(start, start + context.len() as int) =~= context);
}

/// The lengths and some characters of the names and texts that the
/// dispatch compares or returns.
proof fn lemma_texts_apart()
    ensures
        "select_mental_models"@.len() == 20,
        "select_mental_models"@[0] == 's',
        "select_mental_models"@[1] == 'e',
        "select_mental_models"@[6] == '_',
        "analyze_ooda_loop"@.len() == 17,
        "analyze_ooda_loop"@[0] == 'a',
        "analyze_ooda_loop"@[1] == 'n',
        "analyze_ooda_loop"@[6] == 'e',
        "apply_first_principles"@.len() == 22,
        "apply_first_principles"@[0] == 'a',
        "apply_first_principles"@[1] == 'p',
        "apply_first_principles"@[6] == 'f',
        "execute_six_hats"@.len() == 16,
        "execute_six_hats"@[0] == 'e',
        "execute_six_hats"@[1] == 'x',
        "execute_six_hats"@[6] == 'e',
        "analyze_pareto"@.len() == 14,
        "analyze_pareto"@[0] == 'a',
        "analyze_pareto"@[1] == 'n',
        "analyze_pareto"@[6] == 'e',
        "run_root_cause"@.len() == 14,
        "run_root_cause"@[0] == 'r',
        "run_root_cause"@[1] == 'u',
        "run_root_cause"@[6] == 'o',
        "evaluate_occams_razor"@.len() == 21,
        "evaluate_occams_razor"@[0] == 'e',
        "evaluate_occams_razor"@[1] == 'v',
        "evaluate_occams_razor"@[6] == 't',
        "version"@.len() == 7,
        "version"@[0] == 'v',
        "version"@[1] == 'e',
        "version"@[6] == 'n',
        "apply_rule_5x5"@.len() == 14,
        "apply_rule_5x5"@[0] == 'a',
        "apply_rule_5x5"@[1] == 'p',
        "apply_rule_5x5"@[6] == 'r',
        "Tool not implemented."@.len() == 21,
        "Tool not implemented."@[0] == 'T',
        "Tool not implemented."@[1] == 'o',
        "Tool not implemented."@[6] == 'o',
        "MANDATE: "@.len() == 9,
        "MANDATE: "@[0] == 'M',
        "MANDATE: "@[1] == 'A',
        "MANDATE: "@[6] == 'E',
        "Recommended tools: ["@.len() == 20,
        "Recommended tools: ["@[0] == 'R',
        "Recommended tools: ["@[1] == 'e',
        "Recommended tools: ["@[6] == 'e',
        "5_whys"@.len() == 6,
        "5_whys"@[0] == '5',
        "5_whys"@[1] == '_',
        "fishbone"@.len() == 8,
        "fishbone"@[0] == 'f',
        "fishbone"@[1] == 'i',
        "fishbone"@[6] == 'n',
        "fault_tree"@.len() == 10,
        "fault_tree"@[0] == 'f',
        "fault_tree"@[1] == 'a',
        "fault_tree"@[6] == 't',
        "tools"@.len() == 5,
        "tools"@[0] == 't',
        "tools"@[1] == 'o',
        "error"@.len() == 5,
        "error"@[0] == 'e',
        "error"@[1] == 'r',
        "content"@.len() == 7,
        "content"@[0] == 'c',
        "content"@[1] == 'o',
        "content"@[6] == 't',
        "text"@.len() == 4,
        "text"@[0] == 't',
        "text"@[1] == 'e',
        "type"@.len() == 4,
        "type"@[0] == 't',
        "type"@[1] == 'y',
        "initialize"@.len() == 10,
        "initialize"@[0] == 'i',
        "initialize"@[1] == 'n',
        "initialize"@[6] == 'l',
        "tools/list"@.len() == 10,
        "tools/list"@[0] == 't',
        "tools/list"@[1] == 'o',
        "tools/list"@[6] == 'l',
        "tools/call"@.len() == 10,
        "tools/call"@[0] == 't',
        "tools/call"@[1] == 'o',
        "tools/call"@[6] == 'c',
        "name"@.len() == 4,
        "name"@[0] == 'n',
        "name"@[1] == 'a',
        "description"@.len() == 11,
        "description"@[0] == 'd',
        "description"@[1] == 'e',
        "description"@[6] == 'p',
        "inputSchema"@.len() == 11,
        "inputSchema"@[0] == 'i',
        "inputSchema"@[1] == 'n',
        "inputSchema"@[6] == 'c',
        "protocolVersion"@.len() == 15,
        "protocolVersion"@[0] == 'p',
        "protocolVersion"@[1] == 'r',
        "protocolVersion"@[6] == 'o',
        "capabilities"@.len() == 12,
        "capabilities"@[0] == 'c',
        "capabilities"@[1] == 'a',
        "capabilities"@[6] == 'l',
        "serverInfo"@.len() == 10,
        "serverInfo"@[0] == 's',
        "serverInfo"@[1] == 'e',
        "serverInfo"@[6] == 'I',
{
    reveal_strlit("select_mental_models");
    reveal_strlit("analyze_ooda_loop");
    reveal_strlit("apply_first_principles");
    reveal_strlit("execute_six_hats");
    reveal_strlit("analyze_pareto");
    reveal_strlit("run_root_cause");
    reveal_strlit("evaluate_occams_razor");
    reveal_strlit("version");
    reveal_strlit("apply_rule_5x5");
    reveal_strlit("Tool not implemented.");
    reveal_strlit("MANDATE: ");
    reveal_strlit("Recommended tools: [");
    reveal_strlit("5_whys");
    reveal_strlit("fishbone");
    reveal_strlit("fault_tree");
    reveal_strlit("tools");
    reveal_strlit("error");
    reveal_strlit("content");
    reveal_strlit("text");
    reveal_strlit("type");
    reveal_strlit("initialize");
    reveal_strlit("tools/list");
    reveal_strlit("tools/call");
    reveal_strlit("name");
    reveal_strlit("description");
    reveal_strlit("inputSchema");
    reveal_strlit("protocolVersion");
    reveal_strlit("capabilities");
    reveal_strlit("serverInfo");
}

/// The names under which tools are listed: one per tool, none twice.
pub proof fn lemma_catalogue_names_distinct()
    ensures
        forall|i: int, j: int|
            0 <= i < j < catalogue().len() ==> (#[trigger] catalogue()[i]).name_model() != (
            #[trigger] catalogue()[j]).name_model(),
{
    lemma_texts_apart();
}

/// Every tool of the catalogue answers a call with a framework prompt
/// (for all but `select_mental_models`) that opens with `MANDATE: ` and
/// holds the description verbatim, or with the recommendation of tools;
/// never with the notice that the tool is not implemented.
pub proof fn lemma_listed_tools_answer(t: Tool, context: Seq<char>, method: Seq<char>)
    ensures
        tool_text_model(t.name_model(), context, method) != "Tool not implemented."@,
        t != Tool::SelectMentalModels ==> tool_text_model(t.name_model(), context, method).subrange(
            0,
            MANDATE@.len() as int,
        ) == MANDATE@,
        t != Tool::SelectMentalModels ==> occurs_in(
            tool_text_model(t.name_model(), context, method),
            context,
        ),
        t == Tool::SelectMentalModels ==> tool_text_model(t.name_model(), context, method)
            == recommendation_text_model(recommended_tools(lowercase_of(context))),
{
    lemma_texts_apart();
    let text = tool_text_model(t.name_model(), context, method);
    if t == Tool::SelectMentalModels {
        assert(text[0] == 'R');
    } else {
        let (head, tail) = framework_of(t, method);
        assert(text == prompt(head, context, tail));
        lemma_prompt_shape(head, context, tail);
        assert(text[0] == text.subrange(0, MANDATE@.len() as int)[0]);
        assert(text[0] == 'M');
    }
}

/// `run_root_cause` with a method other than `fishbone` and `fault_tree`
/// (a missing method included, which a call reads as `5_whys`) answers
/// with the 5 whys.
pub proof fn lemma_root_cause_default(context: Seq<char>, method: Seq<char>)
    requires
        method != "fishbone"@,
        method != "fault_tree"@,
    ensures
        root_cause_text_model(context, method) == root_cause_text_model(context, "5_whys"@),
{
    lemma_texts_apart();
}

/// The version that `initialize` reports for the server is the answer of
/// the `version` tool, whatever the description and method.
pub proof fn lemma_reported_version(context: Seq<char>, method: Seq<char>)
    ensures
        match field(initialize_result(), "serverInfo"@) {
            Some(info) => field(info, "version"@) == Some(
                JsonModel::Str(tool_text_model("version"@, context, method)),
            ),
            None => false,
        },
{
    lemma_texts_apart();
    let ms = seq![
        ("protocolVersion"@, JsonModel::Str("2024-11-05"@)),
        ("capabilities"@, JsonModel::Object(seq![])),
    ];
    let info = JsonModel::Object(
        seq![
            ("name"@, JsonModel::Str("mcp-promax-problem-solving"@)),
            ("version"@, JsonModel::Str("0.1.0"@)),
        ],
    );
    lemma_field_of_last_member(ms, "serverInfo"@, info);
    lemma_field_of_last_member(
        seq![("name"@, JsonModel::Str("mcp-promax-problem-solving"@))],
        "version"@,
        JsonModel::Str("0.1.0"@),
    );
    assert(ms.push(("serverInfo"@, info)) =~= seq![
        ("protocolVersion"@, JsonModel::Str("2024-11-05"@)),
        ("capabilities"@, JsonModel::Object(seq![])),
        ("serverInfo"@, info),
    ]);
}

/// Reading a member back: in an object whose last member has key `k`,
/// `get(k)` gives that member's value.
pub proof fn lemma_field_of_last_member(ms: Seq<(Seq<char>, JsonModel)>, k: Seq<char>, v: JsonModel)
    ensures
        field(JsonModel::Object(ms.push((k, v))), k) == Some(v),
{
    assert(ms.push((k, v)).last() == (k, v));
}

/// Adding a member with another key leaves what `get(k)` gives unchanged.
pub proof fn lemma_field_other_member(
    ms: Seq<(Seq<char>, JsonModel)>,
    k: Seq<char>,
    k2: Seq<char>,
    v: JsonModel,
)
    requires
        k != k2,
    ensures
        field(JsonModel::Object(ms.push((k2, v))), k) == field(JsonModel::Object(ms), k),
{
    assert(ms.push((k2, v)).drop_last() =~= ms);
    assert(member_lookup(ms.push((k2, v)), k) == member_lookup(ms, k));
}

} // verus!

verus! {

/// The description names a failure: `fail`, `bug`, `error` or `crash`.
pub open spec fn says_failure(s: Seq<char>) -> bool {
    occurs_in(s, "fail"@) || occurs_in(s, "bug"@) || occurs_in(s, "error"@) || occurs_in(s, "crash"@)
}

/// The description names priorities: `optimize`, `prioritize`, `backlog` or `heavy`.
pub open spec fn says_priorities(s: Seq<char>) -> bool {
    occurs_in(s, "optimize"@) || occurs_in(s, "prioritize"@) || occurs_in(s, "backlog"@)
        || occurs_in(s, "heavy"@)
}

/// The description names a design choice: `architecture`, `design`, `choose` or `versus`.
pub open spec fn says_design(s: Seq<char>) -> bool {
    occurs_in(s, "architecture"@) || occurs_in(s, "design"@) || occurs_in(s, "choose"@)
        || occurs_in(s, "versus"@)
}

/// The description names a crisis: `crisis`, `incident` or `rapid`.
pub open spec fn says_crisis(s: Seq<char>) -> bool {
    occurs_in(s, "crisis"@) || occurs_in(s, "incident"@) || occurs_in(s, "rapid"@)
}

/// The description names a conflict: `conflict`, `bias` or `team`.
pub open spec fn says_conflict(s: Seq<char>) -> bool {
    occurs_in(s, "conflict"@) || occurs_in(s, "bias"@) || occurs_in(s, "team"@)
}

/// The description names stress: `stress`, `annoyed`, `slack` or `email`.
pub open spec fn says_stress(s: Seq<char>) -> bool {
    occurs_in(s, "stress"@) || occurs_in(s, "annoyed"@) || occurs_in(s, "slack"@)
        || occurs_in(s, "email"@)
}

/// The description names none of the words that select a tool.
pub open spec fn says_nothing(s: Seq<char>) -> bool {
    !says_failure(s) && !says_priorities(s) && !says_design(s) && !says_crisis(s)
        && !says_conflict(s) && !says_stress(s)
}

/// The order in which recommended tools are listed.
pub open spec fn recommendation_order(t: Tool) -> int {
    match t {
        Tool::RunRootCause => 0,
        Tool::AnalyzePareto => 1,
        Tool::EvaluateOccamsRazor => 2,
        Tool::ApplyFirstPrinciples => 3,
        Tool::AnalyzeOodaLoop => 4,
        Tool::ExecuteSixHats => 5,
        Tool::ApplyRule5x5 => 6,
        Tool::SelectMentalModels => 7,
    }
}

proof fn lemma_concat_contains(a: Seq<Tool>, b: Seq<Tool>, x: Tool)
    ensures
        (a + b).contains(x) <==> a.contains(x) || b.contains(x),
{
    if a.contains(x) {
        let i = choose|i: int| 0 <= i < a.len() && a[i] == x;
        assert((a + b)[i] == x);
    }
    if b.contains(x) {
        let i = choose|i: int| 0 <= i < b.len() && b[i] == x;
        assert((a + b)[a.len() + i] == x);
    }
    if (a + b).contains(x) {
        let i = choose|i: int| 0 <= i < (a + b).len() && (a + b)[i] == x;
        if i < a.len() {
            assert(a[i] == x);
        } else {
            assert(b[i - a.len()] == x);
        }
    }
}

proof fn lemma_single_contains(a: Tool, x: Tool)
    ensures
        seq![a].contains(x) <==> a == x,
        !Seq::<Tool>::empty().contains(x),
{
    assert(seq![a][0] == a);
}

proof fn lemma_pair_contains(a: Tool, b: Tool, x: Tool)
    ensures
        seq![a, b].contains(x) <==> a == x || b == x,
{
    assert(seq![a, b][0] == a);
    assert(seq![a, b][1] == b);
}

#[verifier::spinoff_prover]
#[verifier::rlimit(40)]
proof fn lemma_grouped_contains(f: bool, p: bool, d: bool, c: bool, k: bool, t: bool, x: Tool)
    ensures
        grouped(f, p, d, c, k, t).contains(x) <==> match x {
            Tool::RunRootCause => f,
            Tool::AnalyzePareto => p,
            Tool::EvaluateOccamsRazor => d,
            Tool::ApplyFirstPrinciples => d,
            Tool::AnalyzeOodaLoop => c,
            Tool::ExecuteSixHats => k,
            Tool::ApplyRule5x5 => t,
            Tool::SelectMentalModels => false,
        },
        grouped(f, p, d, c, k, t).len() == 0 <==> !(f || p || d || c || k || t),
{
    let g1: Seq<Tool> = if f { seq![Tool::RunRootCause] } else { seq![] };
    let g2: Seq<Tool> = if p { seq![Tool::AnalyzePareto] } else { seq![] };
    let g3: Seq<Tool> = if d {
        seq![Tool::EvaluateOccamsRazor, Tool::ApplyFirstPrinciples]
    } else {
        seq![]
    };
    let g4: Seq<Tool> = if c { seq![Tool::AnalyzeOodaLoop] } else { seq![] };
    let g5: Seq<Tool> = if k { seq![Tool::ExecuteSixHats] } else { seq![] };
    let g6: Seq<Tool> = if t { seq![Tool::ApplyRule5x5] } else { seq![] };
    lemma_single_contains(Tool::RunRootCause, x);
    lemma_single_contains(Tool::AnalyzePareto, x);
    lemma_pair_contains(Tool::EvaluateOccamsRazor, Tool::ApplyFirstPrinciples, x);
    lemma_single_contains(Tool::AnalyzeOodaLoop, x);
    lemma_single_contains(Tool::ExecuteSixHats, x);
    lemma_single_contains(Tool::ApplyRule5x5, x);
    lemma_concat_contains(g1, g2, x);
    lemma_concat_contains(g1 + g2, g3, x);
    lemma_concat_contains(g1 + g2 + g3, g4, x);
    lemma_concat_contains(g1 + g2 + g3 + g4, g5, x);
    lemma_concat_contains(g1 + g2 + g3 + g4 + g5, g6, x);
}

/// Which tools `select_mental_models` recommends for a lowercase
/// description, and in which order: root cause analysis exactly when it
/// names a failure, Pareto exactly when it names priorities, Occam's
/// razor exactly when it names a design choice, first principles when it
/// names a design choice or none of the words at all, the OODA loop
/// exactly when it names a crisis, the six hats when it names a conflict
/// or none of the words, the 5x5 rule exactly when it names stress; never
/// `select_mental_models`; listed in the order of `recommendation_order`.
pub proof fn lemma_recommendation_membership(lower: Seq<char>)
    ensures
        recommended_tools(lower).contains(Tool::RunRootCause) <==> says_failure(lower),
        recommended_tools(lower).contains(Tool::AnalyzePareto) <==> says_priorities(lower),
        recommended_tools(lower).contains(Tool::EvaluateOccamsRazor) <==> says_design(lower),
        recommended_tools(lower).contains(Tool::ApplyFirstPrinciples) <==> says_design(lower)
            || says_nothing(lower),
        recommended_tools(lower).contains(Tool::AnalyzeOodaLoop) <==> says_crisis(lower),
        recommended_tools(lower).contains(Tool::ExecuteSixHats) <==> says_conflict(lower)
            || says_nothing(lower),
        recommended_tools(lower).contains(Tool::ApplyRule5x5) <==> says_stress(lower),
        !recommended_tools(lower).contains(Tool::SelectMentalModels),
        forall|i: int, j: int|
            0 <= i < j < recommended_tools(lower).len() ==> recommendation_order(
                #[trigger] recommended_tools(lower)[i],
            ) < recommendation_order(#[trigger] recommended_tools(lower)[j]),
{
    let f = says_failure(lower);
    let p = says_priorities(lower);
    let d = says_design(lower);
    let c = says_crisis(lower);
    let k = says_conflict(lower);
    let t = says_stress(lower);
    let g = grouped(f, p, d, c, k, t);
    assert(candidate_tools(lower) == g);
    lemma_grouped_ranked(f, p, d, c, k, t);
    let fallback = seq![Tool::ApplyFirstPrinciples, Tool::ExecuteSixHats];
    let s = if g.len() == 0 {
        fallback
    } else {
        g
    };
    assert(ranked_within(s, 0, 7));
    lemma_ranked_recommendation(s);
    let r = recommended_tools(lower);
    assert(r == s);
    assert forall|x: Tool| #![auto] r.contains(x) <==> match x {
        Tool::RunRootCause => f,
        Tool::AnalyzePareto => p,
        Tool::EvaluateOccamsRazor => d,
        Tool::ApplyFirstPrinciples => d || says_nothing(lower),
        Tool::AnalyzeOodaLoop => c,
        Tool::ExecuteSixHats => k || says_nothing(lower),
        Tool::ApplyRule5x5 => t,
        Tool::SelectMentalModels => false,
    } by {
        lemma_grouped_contains(f, p, d, c, k, t, x);
        lemma_pair_contains(Tool::ApplyFirstPrinciples, Tool::ExecuteSixHats, x);
    }
    assert forall|i: int, j: int| 0 <= i < j < r.len() implies recommendation_order(#[trigger] r[i])
        < recommendation_order(#[trigger] r[j]) by {
        assert(rank(r[i]) < rank(r[j]));
    }
}

/// A description that names a failure (`fail`, `bug`, `error` or `crash`)
/// gets root cause analysis as its first recommended tool.
pub proof fn lemma_failure_recommends_root_cause_first(lower: Seq<char>)
    requires
        says_failure(lower),
    ensures
        recommended_tools(lower).len() > 0,
        recommended_tools(lower)[0] == Tool::RunRootCause,
{
    lemma_recommendation_membership(lower);
    let r = recommended_tools(lower);
    let i = choose|i: int| 0 <= i < r.len() && r[i] == Tool::RunRootCause;
    if i > 0 {
        assert(recommendation_order(r[0]) < recommendation_order(r[i]));
    }
}

} // verus!

verus! {

/// The recommendation text lists the tool names in order, each in double
/// quotes, separated by a comma and a space, between `Recommended tools: [`
/// and `]`: the empty list, a list of one, and each longer list built from
/// the shorter one by adding one name before the closing bracket.
pub proof fn lemma_recommendation_text_shape(ts: Seq<Tool>, t: Tool)
    ensures
        recommendation_text_model(seq![]) == "Recommended tools: []"@,
        recommendation_text_model(seq![t]) == "Recommended tools: [\""@ + t.name_model() + "\"]"@,
        ts.len() > 0 ==> recommendation_text_model(ts.push(t)) == recommendation_text_model(
            ts,
        ).drop_last() + ", \""@ + t.name_model() + "\"]"@,
{
    reveal_strlit("Recommended tools: []");
    reveal_strlit("Recommended tools: [\"");
    reveal_strlit("Recommended tools: [");
    reveal_strlit("]");
    reveal_strlit("\"]");
    reveal_strlit("\"");
    reveal_strlit(", \"");
    reveal_strlit(", ");
    assert(recommendation_text_model(seq![]) =~= "Recommended tools: []"@);
    assert(recommendation_text_model(seq![t]) =~= "Recommended tools: [\""@ + t.name_model()
        + "\"]"@);
    if ts.len() > 0 {
        assert(ts.push(t).drop_last() =~= ts);
        let before = "Recommended tools: ["@ + listed_names(ts);
        assert(recommendation_text_model(ts).drop_last() =~= before);
        assert(recommendation_text_model(ts.push(t)) =~= before + ", \""@ + t.name_model()
            + "\"]"@);
    }
}

/// The names under which the tools are listed and called.
pub proof fn lemma_tool_names()
    ensures
        Tool::SelectMentalModels.name_model() == "select_mental_models"@,
        Tool::AnalyzeOodaLoop.name_model() == "analyze_ooda_loop"@,
        Tool::ApplyFirstPrinciples.name_model() == "apply_first_principles"@,
        Tool::ExecuteSixHats.name_model() == "execute_six_hats"@,
        Tool::AnalyzePareto.name_model() == "analyze_pareto"@,
        Tool::RunRootCause.name_model() == "run_root_cause"@,
        Tool::EvaluateOccamsRazor.name_model() == "evaluate_occams_razor"@,
        Tool::ApplyRule5x5.name_model() == "apply_rule_5x5"@,
{
}

/// A prompt is exactly `MANDATE: `, the head of its framework, the whole
/// description and the tail of the framework, whatever characters the
/// description holds; in particular it ends with the tail.
pub proof fn lemma_prompt_exact(head: Seq<char>, context: Seq<char>, tail: Seq<char>)
    ensures
        prompt(head, context, tail) == "MANDATE: "@ + head + context + tail,
        prompt(head, context, tail).len() == 9 + head.len() + context.len() + tail.len(),
        prompt(head, context, tail).subrange(
            prompt(head, context, tail).len() - tail.len(),
            prompt(head, context, tail).len() as int,
        ) == tail,
{
    lemma_texts_apart();
    let p = prompt(head, context, tail);
    assert(p.subrange(p.len() - tail.len(), p.len() as int) =~= tail);
}

/// Each framework tool answers with its own prompt around the whole
/// description; `run_root_cause` picks the fishbone diagram, the fault
/// tree or (for any other method) the 5 whys.
pub proof fn lemma_framework_prompts(context: Seq<char>, method: Seq<char>)
    ensures
        tool_text_model("analyze_ooda_loop"@, context, method) == "MANDATE: "@ + OODA_LOOP_HEAD@
            + context + OODA_LOOP_TAIL@,
        tool_text_model("apply_first_principles"@, context, method) == "MANDATE: "@
            + FIRST_PRINCIPLES_HEAD@ + context + FIRST_PRINCIPLES_TAIL@,
        tool_text_model("execute_six_hats"@, context, method) == "MANDATE: "@ + SIX_HATS_HEAD@
            + context + SIX_HATS_TAIL@,
        tool_text_model("analyze_pareto"@, context, method) == "MANDATE: "@ + PARETO_HEAD@ + context
            + PARETO_TAIL@,
        tool_text_model("evaluate_occams_razor"@, context, method) == "MANDATE: "@
            + OCCAMS_RAZOR_HEAD@ + context + OCCAMS_RAZOR_TAIL@,
        tool_text_model("apply_rule_5x5"@, context, method) == "MANDATE: "@ + RULE_5X5_HEAD@
            + context + RULE_5X5_TAIL@,
        tool_text_model("run_root_cause"@, context, "fishbone"@) == "MANDATE: "@ + FISHBONE_HEAD@
            + context + FISHBONE_TAIL@,
        tool_text_model("run_root_cause"@, context, "fault_tree"@) == "MANDATE: "@
            + FAULT_TREE_HEAD@ + context + FAULT_TREE_TAIL@,
        method != "fishbone"@ && method != "fault_tree"@ ==> tool_text_model(
            "run_root_cause"@,
            context,
            method,
        ) == "MANDATE: "@ + FIVE_WHYS_HEAD@ + context + FIVE_WHYS_TAIL@,
        tool_text_model("version"@, context, method) == "0.1.0"@,
{
    lemma_texts_apart();
    lemma_prompt_exact(OODA_LOOP_HEAD@, context, OODA_LOOP_TAIL@);
    lemma_prompt_exact(FIRST_PRINCIPLES_HEAD@, context, FIRST_PRINCIPLES_TAIL@);
    lemma_prompt_exact(SIX_HATS_HEAD@, context, SIX_HATS_TAIL@);
    lemma_prompt_exact(PARETO_HEAD@, context, PARETO_TAIL@);
    lemma_prompt_exact(OCCAMS_RAZOR_HEAD@, context, OCCAMS_RAZOR_TAIL@);
    lemma_prompt_exact(RULE_5X5_HEAD@, context, RULE_5X5_TAIL@);
    lemma_prompt_exact(FISHBONE_HEAD@, context, FISHBONE_TAIL@);
    lemma_prompt_exact(FAULT_TREE_HEAD@, context, FAULT_TREE_TAIL@);
    lemma_prompt_exact(FIVE_WHYS_HEAD@, context, FIVE_WHYS_TAIL@);
}

} // verus!

verus! {

/// The text of a tool's answer: the `text` of the one item under `content`.
pub open spec fn answer_text(result: JsonModel) -> Option<Seq<char>> {
    match field(result, "content"@) {
        Some(JsonModel::Array(items)) => if items.len() == 1 {
            text_of(field(items[0], "text"@))
        } else {
            None
        },
        _ => None,
    }
}

/// What a request gets as its result: `initialize` and `tools/list` their
/// fixed answers whatever the parameters (absent, null or any value),
/// `tools/call` the answer of the tool call; outside `tools/call` the
/// parameters make no difference; the "method not found" error comes
/// exactly for a method that is none of the three.
pub proof fn lemma_result_by_method(method: Seq<char>, params: JsonModel, other: JsonModel)
    ensures
        request_result("initialize"@, params) == initialize_result(),
        request_result("tools/list"@, params) == tools_list_result(),
        request_result("tools/call"@, params) == tool_call_result(params),
        method != "tools/call"@ ==> request_result(method, params) == request_result(method, other),
        request_result(method, params) == method_not_found_result() <==> (method != "initialize"@
            && method != "tools/list"@ && method != "tools/call"@),
{
    lemma_texts_apart();
    let e = method_not_found_result();
    if let JsonModel::Object(ms) = e {
        assert(ms.len() == 1);
        assert(ms[0].0 == "error"@);
    }
    if let JsonModel::Object(ms) = initialize_result() {
        assert(ms.len() == 3);
    }
    if let JsonModel::Object(ms) = tools_list_result() {
        assert(ms.len() == 1);
        assert(ms[0].0 == "tools"@);
        assert(ms[0].0[0] != "error"@[0]);
    }
    if let JsonModel::Object(ms) = tool_call_result(params) {
        assert(ms.len() == 1);
        assert(ms[0].0 == "content"@);
        assert(ms[0].0.len() != "error"@.len());
    }
}

/// `initialize` reports protocol version `2024-11-05` and the server's
/// name `mcp-promax-problem-solving`.
pub proof fn lemma_initialize_fields()
    ensures
        field(initialize_result(), "protocolVersion"@) == Some(JsonModel::Str("2024-11-05"@)),
        match field(initialize_result(), "serverInfo"@) {
            Some(info) => field(info, "name"@) == Some(JsonModel::Str("mcp-promax-problem-solving"@)),
            None => false,
        },
{
    lemma_texts_apart();
    let pv = ("protocolVersion"@, JsonModel::Str("2024-11-05"@));
    let caps = JsonModel::Object(seq![]);
    let name = ("name"@, JsonModel::Str("mcp-promax-problem-solving"@));
    let info = JsonModel::Object(seq![name, ("version"@, JsonModel::Str("0.1.0"@))]);
    assert(seq![name, ("version"@, JsonModel::Str("0.1.0"@))] =~= seq![name].push(
        ("version"@, JsonModel::Str("0.1.0"@)),
    ));
    assert(seq![pv, ("capabilities"@, caps)] =~= seq![pv].push(("capabilities"@, caps)));
    assert(seq![pv, ("capabilities"@, caps), ("serverInfo"@, info)] =~= seq![
        pv,
        ("capabilities"@, caps),
    ].push(("serverInfo"@, info)));
    lemma_field_other_member(seq![pv, ("capabilities"@, caps)], "protocolVersion"@, "serverInfo"@, info);
    lemma_field_other_member(seq![pv], "protocolVersion"@, "capabilities"@, caps);
    lemma_field_of_last_member(seq![], "protocolVersion"@, JsonModel::Str("2024-11-05"@));
    lemma_field_of_last_member(seq![pv, ("capabilities"@, caps)], "serverInfo"@, info);
    lemma_field_other_member(seq![name], "name"@, "version"@, JsonModel::Str("0.1.0"@));
    lemma_field_of_last_member(seq![], "name"@, JsonModel::Str("mcp-promax-problem-solving"@));
}

/// A tool call reads its tool from the string `name` of the parameters,
/// and gives that tool the whole string `context` of the `arguments`, of
/// any length, and the string `method` there (or `5_whys` where there is
/// none): its answer is one text item with the tool's answer for them.
/// For any tool but `select_mental_models` that answer holds the
/// description verbatim.
pub proof fn lemma_tool_call_reads_arguments(
    params: JsonModel,
    name: Seq<char>,
    args: JsonModel,
    context: Seq<char>,
    method: Seq<char>,
)
    requires
        field(params, "name"@) == Some(JsonModel::Str(name)),
        field(params, "arguments"@) == Some(args),
        field(args, "context"@) == Some(JsonModel::Str(context)),
        field(args, "method"@) == Some(JsonModel::Str(method)) || (!(text_of(
            field(args, "method"@),
        ) is Some) && method == "5_whys"@),
    ensures
        answer_text(tool_call_result(params)) == Some(tool_text_model(name, context, method)),
        match field(tool_call_result(params), "content"@) {
            Some(JsonModel::Array(items)) => items.len() == 1 && field(items[0], "type"@) == Some(
                JsonModel::Str("text"@),
            ),
            _ => false,
        },
        name != "select_mental_models"@ && name != "version"@ && (exists|t: Tool|
            #[trigger] t.name_model() == name) ==> occurs_in(
            tool_text_model(name, context, method),
            context,
        ),
{
    lemma_texts_apart();
    let text = tool_text_model(name, context, method);
    let r = tool_call_result(params);
    let item = JsonModel::Object(
        seq![("type"@, JsonModel::Str("text"@)), ("text"@, JsonModel::Str(text))],
    );
    assert(field(r, "content"@) == Some(JsonModel::Array(seq![item])));
    assert(seq![item][0] == item);
    assert(field(item, "text"@) == Some(JsonModel::Str(text)));
    assert(seq![("type"@, JsonModel::Str("text"@)), ("text"@, JsonModel::Str(text))] =~= seq![
        ("type"@, JsonModel::Str("text"@)),
    ].push(("text"@, JsonModel::Str(text))));
    lemma_field_other_member(seq![("type"@, JsonModel::Str("text"@))], "type"@, "text"@, JsonModel::Str(text));
    lemma_field_of_last_member(seq![], "type"@, JsonModel::Str("text"@));
    if name != "select_mental_models"@ && name != "version"@ && (exists|t: Tool|
        #[trigger] t.name_model() == name) {
        let t = choose|t: Tool| #[trigger] t.name_model() == name;
        lemma_listed_tools_answer(t, context, method);
    }
}

/// A tool call whose `arguments` hold no string `context` (or that has no
/// `arguments`) gives its tool the empty description.
pub proof fn lemma_tool_call_without_context(params: JsonModel, name: Seq<char>)
    requires
        field(params, "name"@) == Some(JsonModel::Str(name)),
        match field(params, "arguments"@) {
            Some(args) => !(text_of(field(args, "context"@)) is Some) && field(args, "method"@) is None,
            None => true,
        },
    ensures
        answer_text(tool_call_result(params)) == Some(tool_text_model(name, ""@, "5_whys"@)),
{
    lemma_texts_apart();
    let text = tool_text_model(name, ""@, "5_whys"@);
    let item = JsonModel::Object(
        seq![("type"@, JsonModel::Str("text"@)), ("text"@, JsonModel::Str(text))],
    );
    assert(seq![item][0] == item);
}

/// `tools/list` lists eight tools, with these names in this order, and
/// each with an input schema that requires `context`.
pub proof fn lemma_tools_list_names()
    ensures
        match field(tools_list_result(), "tools"@) {
            Some(JsonModel::Array(es)) => {
                &&& es.len() == 8
                &&& forall|i: int|
                    0 <= i < 8 ==> field(#[trigger] es[i], "name"@) == Some(
                        JsonModel::Str(
                            seq![
                                "select_mental_models"@,
                                "analyze_ooda_loop"@,
                                "apply_first_principles"@,
                                "execute_six_hats"@,
                                "analyze_pareto"@,
                                "run_root_cause"@,
                                "evaluate_occams_razor"@,
                                "apply_rule_5x5"@,
                            ][i],
                        ),
                    )
                &&& forall|i: int|
                    0 <= i < 8 ==> match field(#[trigger] es[i], "inputSchema"@) {
                        Some(schema) => field(schema, "required"@) == Some(
                            JsonModel::Array(seq![JsonModel::Str("context"@)]),
                        ),
                        None => false,
                    }
            },
            _ => false,
        },
{
    lemma_texts_apart();
    reveal_strlit("required");
    reveal_strlit("properties");
    let es = catalogue().map_values(|t: Tool| crate::rpc::tool_entry(t));
    assert(field(tools_list_result(), "tools"@) == Some(JsonModel::Array(es)));
    assert forall|i: int| 0 <= i < 8 implies field(#[trigger] es[i], "name"@) == Some(
        JsonModel::Str(
            seq![
                "select_mental_models"@,
                "analyze_ooda_loop"@,
                "apply_first_principles"@,
                "execute_six_hats"@,
                "analyze_pareto"@,
                "run_root_cause"@,
                "evaluate_occams_razor"@,
                "apply_rule_5x5"@,
            ][i],
        ),
    ) && match field(es[i], "inputSchema"@) {
        Some(schema) => field(schema, "required"@) == Some(
            JsonModel::Array(seq![JsonModel::Str("context"@)]),
        ),
        None => false,
    } by {
        let t = catalogue()[i];
        let nm = ("name"@, JsonModel::Str(t.name_model()));
        let ds = ("description"@, JsonModel::Str(t.description_model()));
        let schema = crate::rpc::input_schema(t);
        assert(es[i] == crate::rpc::tool_entry(t));
        assert(seq![nm, ds] =~= seq![nm].push(ds));
        assert(seq![nm, ds, ("inputSchema"@, schema)] =~= seq![nm, ds].push(("inputSchema"@, schema)));
        lemma_field_other_member(seq![nm, ds], "name"@, "inputSchema"@, schema);
        lemma_field_other_member(seq![nm], "name"@, "description"@, JsonModel::Str(t.description_model()));
        lemma_field_of_last_member(seq![], "name"@, JsonModel::Str(t.name_model()));
        lemma_field_of_last_member(seq![nm, ds], "inputSchema"@, schema);
        let props = if t == Tool::RunRootCause {
            seq![("context"@, crate::rpc::string_schema()), ("method"@, crate::rpc::method_schema())]
        } else {
            seq![("context"@, crate::rpc::string_schema())]
        };
        let ty = ("type"@, JsonModel::Str("object"@));
        let pr = ("properties"@, JsonModel::Object(props));
        let rq = ("required"@, JsonModel::Array(seq![JsonModel::Str("context"@)]));
        assert(seq![ty, pr, rq] =~= seq![ty, pr].push(rq));
        lemma_field_of_last_member(
            seq![ty, pr],
            "required"@,
            JsonModel::Array(seq![JsonModel::Str("context"@)]),
        );
        lemma_tool_names();
    }
}

/// A word occurs in a text exactly when the text is some text, the word,
/// and some more text.
pub proof fn lemma_occurs_in_split(a: Seq<char>, w: Seq<char>, b: Seq<char>, s: Seq<char>)
    ensures
        occurs_in(a + w + b, w),
        occurs_in(s, w) ==> exists|x: Seq<char>, y: Seq<char>| s == x + w + y,
{
    let t = a + w + b;
    assert(t.subrange(a.len() as int, (a.len() + w.len()) as int) =~= w);
    if occurs_in(s, w) {
        let i = choose|i: int| 0 <= i <= s.len() - w.len() && #[trigger] s.subrange(i, i + w.len()) == w;
        let x = s.subrange(0, i);
        let y = s.subrange(i + w.len(), s.len() as int);
        assert(s =~= x + w + y);
    }
}

/// The answer to an unknown method: error code -32601 with the message
/// "Method not found".
pub proof fn lemma_method_not_found_fields()
    ensures
        match field(method_not_found_result(), "error"@) {
            Some(e) => field(e, "code"@) == Some(JsonModel::Number("-32601"@)) && field(e, "message"@)
                == Some(JsonModel::Str("Method not found"@)),
            None => false,
        },
{
    lemma_texts_apart();
    reveal_strlit("code");
    reveal_strlit("message");
    assert("code"@.len() == 4 && "message"@.len() == 7);
    let c = ("code"@, JsonModel::Number("-32601"@));
    let m = ("message"@, JsonModel::Str("Method not found"@));
    assert(seq![c, m] =~= seq![c].push(m));
    lemma_field_other_member(seq![c], "code"@, "message"@, JsonModel::Str("Method not found"@));
    lemma_field_of_last_member(seq![], "code"@, JsonModel::Number("-32601"@));
    lemma_field_of_last_member(seq![c], "message"@, JsonModel::Str("Method not found"@));
    lemma_field_of_last_member(seq![], "error"@, JsonModel::Object(seq![c, m]));
}

/// A response carries the request's id, or null for a request without one.
pub proof fn lemma_response_id(v: crate::json::JsonValue)
    ensures
        crate::rpc::model_or_null(Some(v)) == v@,
        crate::rpc::model_or_null(None) == JsonModel::Null,
{
}

/// A tool name that is none of the known ones gets the notice that the
/// tool is not implemented.
pub proof fn lemma_unknown_tool(name: Seq<char>, context: Seq<char>, method: Seq<char>)
    requires
        name != "select_mental_models"@,
        name != "analyze_ooda_loop"@,
        name != "apply_first_principles"@,
        name != "execute_six_hats"@,
        name != "analyze_pareto"@,
        name != "run_root_cause"@,
        name != "evaluate_occams_razor"@,
        name != "version"@,
        name != "apply_rule_5x5"@,
    ensures
        tool_text_model(name, context, method) == "Tool not implemented."@,
{
}

} // verus!
