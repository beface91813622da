use mcp_promax_problem_solving::json::JsonValue;
use mcp_promax_problem_solving::rpc::{handle_request, handle_tool_call, JsonRpcRequest};
use serde_json::Value;

fn to_serde(v: &JsonValue) -> Value {
    match v {
        JsonValue::Null => Value::Null,
        JsonValue::Bool(b) => Value::Bool(*b),
        JsonValue::Number(n) => serde_json::from_str(n).unwrap(),
        JsonValue::Str(s) => Value::String(s.clone()),
        JsonValue::Array(items) => Value::Array(items.iter().map(to_serde).collect()),
        JsonValue::Object(members) => {
            let mut m = serde_json::Map::new();
            for (k, x) in members {
                m.insert(k.clone(), to_serde(x));
            }
            Value::Object(m)
        }
    }
}

fn from_serde(v: &Value) -> JsonValue {
    match v {
        Value::Null => JsonValue::Null,
        Value::Bool(b) => JsonValue::Bool(*b),
        Value::Number(n) => JsonValue::Number(n.to_string()),
        Value::String(s) => JsonValue::Str(s.clone()),
        Value::Array(items) => JsonValue::Array(items.iter().map(from_serde).collect()),
        Value::Object(m) => {
            JsonValue::Object(m.iter().map(|(k, x)| (k.clone(), from_serde(x))).collect())
        }
    }
}

fn parse(text: &str) -> JsonValue {
    from_serde(&serde_json::from_str::<Value>(text).unwrap())
}

fn request(id: Option<&str>, method: &str, params: Option<&str>) -> JsonRpcRequest {
    JsonRpcRequest {
        jsonrpc: "2.0".to_string(),
        id: id.map(parse),
        method: method.to_string(),
        params: params.map(parse),
    }
}

/// The text of the single content item of a tool's answer.
fn answer_text(result: &JsonValue) -> String {
    let v = to_serde(result);
    let content = v["content"].as_array().unwrap();
    assert_eq!(content.len(), 1);
    assert_eq!(content[0]["type"], Value::String("text".to_string()));
    content[0]["text"].as_str().unwrap().to_string()
}

fn call(name: &str, arguments: Value) -> String {
    let mut params = serde_json::Map::new();
    params.insert("name".to_string(), Value::String(name.to_string()));
    params.insert("arguments".to_string(), arguments);
    answer_text(&handle_tool_call(from_serde(&Value::Object(params))))
}

fn context_args(context: &str) -> Value {
    let mut m = serde_json::Map::new();
    m.insert("context".to_string(), Value::String(context.to_string()));
    Value::Object(m)
}

const INITIALIZE_RESULT: &str = r#"{"protocolVersion": "2024-11-05", "capabilities": {}, "serverInfo": {"name": "mcp-promax-problem-solving", "version": "0.1.0"}}"#;

const TOOLS_LIST_RESULT: &str = r#"{"tools": [{"name": "select_mental_models", "description": "Evaluates the context and returns an array of relevant mental models to use.", "inputSchema": {"type": "object", "properties": {"context": {"type": "string"}}, "required": ["context"]}}, {"name": "analyze_ooda_loop", "description": "Applies the OODA Loop framework to the context.", "inputSchema": {"type": "object", "properties": {"context": {"type": "string"}}, "required": ["context"]}}, {"name": "apply_first_principles", "description": "Applies First Principles Thinking to deconstruct the problem context.", "inputSchema": {"type": "object", "properties": {"context": {"type": "string"}}, "required": ["context"]}}, {"name": "execute_six_hats", "description": "Applies De Bono's Six Thinking Hats to the context simultaneously.", "inputSchema": {"type": "object", "properties": {"context": {"type": "string"}}, "required": ["context"]}}, {"name": "analyze_pareto", "description": "Applies the Pareto 80/20 principle to deduce and isolate key drivers.", "inputSchema": {"type": "object", "properties": {"context": {"type": "string"}}, "required": ["context"]}}, {"name": "run_root_cause", "description": "Runs Root Cause Analysis using 5 Whys, Fishbone, or Fault-Tree frameworks.", "inputSchema": {"type": "object", "properties": {"context": {"type": "string"}, "method": {"type": "string", "enum": ["5_whys", "fishbone", "fault_tree"]}}, "required": ["context"]}}, {"name": "evaluate_occams_razor", "description": "Applies Occam's Razor to prioritize the simplest explanation.", "inputSchema": {"type": "object", "properties": {"context": {"type": "string"}}, "required": ["context"]}}, {"name": "apply_rule_5x5", "description": "Applies the 5x5 rule to filter tactical setbacks.", "inputSchema": {"type": "object", "properties": {"context": {"type": "string"}}, "required": ["context"]}}]}"#;

fn expected_ooda(context: &str) -> String {
    format!(
        "MANDATE: You must analyze the following scenario using the OODA Loop framework.\n\
        Context: {}\n\n\
        Execute your response using strict Markdown headers for each phase, adhering to these criteria:\n\n\
        ### 1. OBSERVE\n\
        - Isolate raw, verified facts, telemetry data, and objective environmental signals from the context.\n\
        - Explicitly separate confirmed data from subjective interpretations or hearsay.\n\
        - Identify critical missing information or active blind spots that remain unknown.\n\n\
        ### 2. ORIENT\n\
        - Map out technical dependencies, architectural constraints, and legacy paradigms shaping the problem.\n\
        - Analyze underlying biases, systemic habits, or flawed assumptions embedded in the context.\n\
        - Explain how the current system state mismatches expected mental or operational models.\n\n\
        ### 3. DECIDE\n\
        - Formulate at least two distinct, competing solution vectors to resolve the core issue.\n\
        - Contrast both options using a clear risk-reward matrix or engineering tradeoffs.\n\
        - Explicitly select the optimal immediate path forward and justify the choice.\n\n\
        ### 4. ACT\n\
        - Define a concrete, minimal, and measurable test sequence to validate the chosen hypothesis.\n\
        - Establish clear success metrics to observe in production or operation.\n\
        - Define an immediate rollback trigger or failure boundary condition.",
        context
    )
}

fn expected_first_principles(context: &str) -> String {
    format!(
        "MANDATE: You must analyze the following scenario using First Principles Thinking.\n\
        Context: {}\n\n\
        Execute your response using strict Markdown headers for each phase, adhering to these criteria:\n\n\
        ### 1. IDENTIFY CURRENT ASSUMPTIONS\n\
        - Surface all implicit assumptions, hand-wavy axioms, and industry 'best practices' accepted within the context.\n\
        - Highlight legacy constraints, resource limitations, or operational behaviors currently treated as unchangeable.\n\
        - Document the exact rationale or historical reason behind why the current solution is framed this way.\n\
        - Identify emotional or cognitive biases driving the insistence on the current approach.\n\n\
        ### 2. CHALLENGE AND DECONSTRUCT\n\
        - Systematically audit every identified assumption and question its absolute validity.\n\
        - Separate true foundational laws (hard physical limits, basic programming constraints, raw system data) from arbitrary conventions.\n\
        - Boil the situation down to its fundamental truths, the core facts that remain indisputably true even if all legacy architecture is stripped away.\n\n\
        ### 3. REBUILD FROM SCRATCH\n\
        - Synthesize a novel solution vector built exclusively from the isolated fundamental truths.\n\
        - Intentionally avoid importing any legacy patterns, tools, or workflows challenged in the previous phase.\n\
        - Demonstrate how this bottom-up architecture resolves the core problem more efficiently than traditional incremental fixes.\n\
        - Trace the lineage of the new solution back to a validated axiom to prove its logical soundness.\n\
        - Define the first actionable architectural step required to prototype this new foundation.",
        context
    )
}

fn expected_six_hats(context: &str) -> String {
    format!(
        "MANDATE: Execute an exhaustive parallel-thinking evaluation using Edward de Bono's Six Thinking Hats.\n\
        Context: {}\n\n\
        Generate your full evaluation by separating perspectives into these precise blocks using strict Markdown headers:\n\n\
        ### WHITE HAT\n\
        - Compile all objective metrics, verified data points, configuration states, and hard telemetry found in the context.\n\
        - Explicitly list information gaps, unverified claims, or data points that are currently missing.\n\n\
        ### RED HAT\n\
        - Document immediate gut reactions, underlying anxieties, and unspoken psychological friction points within the context.\n\
        - Capture the raw emotional or visceral impact of the situation on team velocity or stakeholder trust without providing logical justifications.\n\n\
        ### BLACK HAT\n\
        - Conduct an aggressive risk assessment, exposing systemic vulnerabilities, fatal architectural flaws, and compliance risks.\n\
        - Analyze worst-case scenarios, compounding dependency failures, and explicit reasons why proposed directions will fail.\n\
        - Challenge optimistic assumptions by enforcing strict security bounds, technical constraints, and operational overheads.\n\n\
        ### YELLOW HAT\n\
        - Identify immediate value propositions, structural efficiencies, and high-probability operational benefits under a lens of logical optimism.\n\
        - Explore how this specific challenge can be leveraged as a catalyst for architecture cleanup or strategic optimization.\n\n\
        ### GREEN HAT\n\
        - Generate unconstrained architectural workarounds and lateral technical solutions.\n\
        - Introduce structural provocations to break away from traditional linear troubleshooting patterns.\n\
        - Propose micro-experiments or proof-of-concepts that completely route around the active constraint.\n\n\
        ### BLUE HAT\n\
        - Synthesize the conflicting constraints, risks, and creative opportunities discovered across all previous hats.\n\
        - Enforce process control by mapping out the definitive step-by-step orchestration sequence for execution.\n\
        - Establish explicit success metrics, priority thresholds, and governance guidelines for the next phase of work.",
        context
    )
}

fn expected_pareto(context: &str) -> String {
    format!(
        "MANDATE: Run a rigorous Pareto 80/20 Optimization Analysis on the provided scenario.\n\
        Context: {}\n\n\
        Execute your response using strict Markdown headers for each phase, adhering to these criteria:\n\n\
        ### 1. DEDUCE COMPONENT VARIABLES\n\
        - Isolate and list every distinct activity, structural bottleneck, bug, or operational input implied in the context.\n\
        - Deconstruct compound problems into atomic, trackable components of effort, failure, or resource expenditure.\n\n\
        ### 2. QUANTIFY IMPACT AND LEVERAGE\n\
        - Assign a logical weight, operational cost, or blast-radius metric to each deduced variable based on the text.\n\
        - Explicitly distinguish high-frequency/low-leverage operational noise from low-frequency/high-severity systemic risks.\n\
        - Map out the exact downstream dependencies showing how certain inputs disproportionately compound friction.\n\n\
        ### 3. ISOLATE THE VITAL FEW (THE 20%)\n\
        - Explicitly name the exact 20% core drivers that logically dictate 80% of the negative friction or potential strategic upside.\n\
        - Provide a detailed engineering or logical justification for why resolving these specific nodes yields maximum systemic leverage.\n\n\
        ### 4. STRATEGIC FOCUS ON LEVERAGE\n\
        - Outline an aggressive action plan to concentrate immediate engineering bandwidth and technical resources exclusively on the isolated 20% core.\n\n\
        ### 5. MITIGATION OF THE TRIVIAL MANY (THE 80%)\n\
        - Define strict, uncompromising heuristics to eliminate, automate, or delegate the remaining 80% low-leverage variables.\n\
        - Establish firm architectural boundaries or policy thresholds to guarantee these secondary tasks cannot bleed into active focus or derail velocity.",
        context
    )
}

fn expected_fishbone(context: &str) -> String {
    format!(
        "MANDATE: Run a comprehensive Fishbone Diagram (Ishikawa) Root Cause Analysis.\n\
        Context: {}\n\n\
        Organize your investigative tracing into these precise structural categories using strict Markdown headers:\n\n\
        ### 1. ENVIRONMENT AND INFRASTRUCTURE\n\
        - Analyze cloud infrastructure configurations, network topology bottlenecks, third-party service availability, or regional outages.\n\
        - Identify compute resource starvation, memory ceiling limits, or external hardware conditions impacting execution metrics.\n\n\
        ### 2. PROCESS AND PIPELINES\n\
        - Audit deployment sequences, version control workflows, automated code-testing gates, and build pipelines.\n\
        - Evaluate operational runbooks, manual error-prone human intervention steps, or gaps in staging-to-production parity.\n\n\
        ### 3. CODE AND ARCHITECTURE\n\
        - Inspect for runtime exceptions, unhandled logic branches, improper asynchronous state synchronization, or severe race conditions.\n\
        - Evaluate deep dependency conflicts, algorithmic complexity scaling flaws, execution blocks, or bad loop patterns.\n\n\
        ### 4. DATA AND STORAGE\n\
        - Review persistence states, cascading database locks, transaction timeouts, connection pool saturation, or missing index layouts.\n\
        - Trace corrupted payloads, invalid client serialization formats, or unexpected schema alterations across distributed storage nodes.\n\n\
        ### 5. ROOT CAUSE CONVERGENCE\n\
        - Synthesize how these separate categories cross-contaminate or interact to trigger the macroscopic systemic failure.\n\
        - Explicitly name and defend the validated single point of origin that acts as the core bottleneck.",
        context
    )
}

fn expected_fault_tree(context: &str) -> String {
    format!(
        "MANDATE: Construct a top-down Fault-Tree Analysis to deconstruct the system failure state.\n\
        Context: {}\n\n\
        Execute your deductive failure trace by populating these exact logical nodes using strict Markdown headers:\n\n\
        ### 1. TOP EVENT\n\
        - Explicitly define the primary macro system failure, degradation pattern, or undesirable outcome recorded in the context.\n\
        - Quantify the operational impact, error rates, blast radius, and exact timeline boundaries of the incident.\n\n\
        ### 2. CONTRIBUTING CONDITIONS (LOGIC GATES)\n\
        - Map out the immediate intermediate sub-failures or dependent states that had to occur to trigger the Top Event.\n\
        - Classify whether these conditions combined via logical AND gates (requiring all to fail simultaneously) or OR gates (where any single sub-failure initiates the state).\n\
        - Pair each active intermediate node with its corresponding system logs, metric trends, or telemetry validation.\n\n\
        ### 3. PRIMARY EVENTS AND BASIC CAUSES\n\
        - Trace downward to find the basal hardware anomalies, configuration file values, or explicit code errors that initiated the cascade.\n\
        - Isolate component bugs or human execution slips that cannot be further subdivided or deconstructed.\n\
        - Define the critical absolute minimum sequence of structural failures required to reproduce this exact system behavior.",
        context
    )
}

fn expected_five_whys(context: &str) -> String {
    format!(
        "MANDATE: Execute a linear 5 Whys causal tracing procedure.\n\
        Context: {}\n\n\
        Construct a tight, chronologically sound chain of consecutive causality using strict Markdown headers:\n\n\
        ### 1. THE CAUSAL CHAIN\n\
        - WHY 1: State the direct technical trigger or immediate mechanism behind the visible surface symptom.\n\
        - WHY 2: Isolate the component behavior, dependency, or state change that allowed Why 1 to manifest.\n\
        - WHY 3: Track the configuration boundary, missing structural validation, or internal logical flaw driving Why 2.\n\
        - WHY 4: Uncover the architectural choice, legacy paradigm constraint, or testing gap that permitted Why 3 to exist undetected.\n\
        - WHY 5 (SYSTEMIC ROOT CAUSE): Target the foundational architectural pattern, systemic policy breakdown, or logic design flaw causing the sequence.\n\n\
        ### 2. REMEDIATION ENGINEERING\n\
        - Formulate a permanent technical fix engineered to target and rewrite the systemic root cause node identified in Why 5.\n\
        - Specify exact automated regression constraints, continuous integration rules, or defensive guardrails to prevent future replication.",
        context
    )
}

fn expected_occams(context: &str) -> String {
    format!(
        "MANDATE: Apply Occam's Razor to parse and resolve competing technical hypotheses or solutions.\n\
        Context: {}\n\n\
        Execute your response using strict Markdown headers for each phase, adhering to these criteria:\n\n\
        ### 1. DEFINE THE PROBLEM BOUNDARIES\n\
        - Clearly state the observed anomaly, technical mystery, or engineering choice that requires resolution.\n\
        - Isolate the precise constraints and non-negotiable requirements that any valid hypothesis must satisfy.\n\n\
        ### 2. ENUMERATE COMPETING HYPOTHESES\n\
        - List all distinct, viable explanations, architectural designs, or solutions proposed within the context.\n\
        - Map out the exact mechanism by which each hypothesis claims to solve or explain the problem.\n\n\
        ### 3. AUDIT SUBJACENT ASSUMPTIONS\n\
        - Deconstruct each hypothesis by explicitly listing its unverified assumptions, speculative dependencies, and logical leaps.\n\
        - Quantify the fragility of each option based on its reliance on external factors, unmonitored systems, or unproven behaviors.\n\n\
        ### 4. EXECUTE THE STRUCTURAL PARING\n\
        - Compare the options side-by-side and systematically eliminate hypotheses burdened by excessive or unprovable presuppositions.\n\
        - Select the simplest viable solution that completely accounts for all known facts and satisfies all technical constraints.\n\
        - Provide a rigorous justification for why this minimum-viable explanation introduces the lowest systemic risk and overhead.",
        context
    )
}

fn expected_rule_5x5(context: &str) -> String {
    format!(
        "MANDATE: Trigger the 5x5 Rule framework for immediate tactical perspective and cognitive bandwidth triage.\n\
        Context: {}\n\n\
        Execute your response using strict Markdown headers for each phase, adhering to these criteria:\n\n\
        ### 1. ISOLATE INCIDENT REALITY\n\
        - Enumerate the explicit operational, financial, or technical side effects caused by this setback.\n\
        - Separate the objective mechanical impact of the event from subjective emotional friction or psychological drag.\n\n\
        ### 2. THE 5-YEAR PROJECTION FILTER\n\
        - Evaluate this exact situation on a 5-year macro timeline: will it structurally matter to the architecture, codebase, product viability, or long-term business health?\n\
        - Provide an explicit, binary [YES/NO] determination accompanied by a clear, unvarnished logical justification.\n\n\
        ### 3. THE 5-MINUTE CEILING CONSTRAINT\n\
        - If the 5-year projection is NO, immediately initiate a hard 5-minute cognitive boundary to prevent overthinking.\n\
        - Specify a low-effort, immediate containment action (e.g., a minor patch revert, a brief neutral update, or logging a low-priority backlog ticket) to safely close the operational loop.\n\n\
        ### 4. CONTEXT SWITCH AND DIVERSION\n\
        - Define the exact high-leverage engineering task, architectural milestone, or creative solution active focus must pivot to right now.\n\
        - Establish a definitive policy constraint to block repetitive team discussions or ongoing analysis of this minor setback, protecting systemic engineering velocity.",
        context
    )
}

#[test]
fn initialize_answers_protocol_and_server_info() {
    let r = handle_request(request(Some("1"), "initialize", None));
    assert_eq!(r.jsonrpc, "2.0");
    assert_eq!(to_serde(&r.id), serde_json::from_str::<Value>("1").unwrap());
    assert_eq!(to_serde(&r.result), serde_json::from_str::<Value>(INITIALIZE_RESULT).unwrap());
}

#[test]
fn tools_list_lists_the_catalogue() {
    let r = handle_request(request(Some("\"abc\""), "tools/list", None));
    assert_eq!(to_serde(&r.id), Value::String("abc".to_string()));
    assert_eq!(to_serde(&r.result), serde_json::from_str::<Value>(TOOLS_LIST_RESULT).unwrap());
}

#[test]
fn unknown_method_is_not_found() {
    let r = handle_request(request(Some("3"), "resources/list", Some("{}")));
    assert_eq!(
        to_serde(&r.result),
        serde_json::from_str::<Value>(r#"{"error":{"code":-32601,"message":"Method not found"}}"#)
            .unwrap()
    );
}

#[test]
fn missing_id_answers_with_null_id() {
    let r = handle_request(request(None, "initialize", None));
    assert_eq!(r.jsonrpc, "2.0");
    assert_eq!(to_serde(&r.id), Value::Null);
}

#[test]
fn id_of_any_kind_is_echoed() {
    for id in ["0.5", "-7", "18446744073709551615", "[1,\"x\"]", "{\"a\":null}", "true"] {
        let r = handle_request(request(Some(id), "tools/list", None));
        assert_eq!(to_serde(&r.id), serde_json::from_str::<Value>(id).unwrap());
    }
}

#[test]
fn tools_call_through_request() {
    let r = handle_request(request(
        Some("9"),
        "tools/call",
        Some(r#"{"name":"analyze_ooda_loop","arguments":{"context":"servers down"}}"#),
    ));
    assert_eq!(answer_text(&r.result), expected_ooda("servers down"));
}

#[test]
fn tools_call_without_params_is_not_implemented() {
    let r = handle_request(request(Some("9"), "tools/call", None));
    assert_eq!(answer_text(&r.result), "Tool not implemented.");
}

#[test]
fn framework_prompts_frame_the_context() {
    let ctx = "Our deploys fail on Fridays — 50% of the time";
    assert_eq!(call("analyze_ooda_loop", context_args(ctx)), expected_ooda(ctx));
    assert_eq!(call("apply_first_principles", context_args(ctx)), expected_first_principles(ctx));
    assert_eq!(call("execute_six_hats", context_args(ctx)), expected_six_hats(ctx));
    assert_eq!(call("analyze_pareto", context_args(ctx)), expected_pareto(ctx));
    assert_eq!(call("evaluate_occams_razor", context_args(ctx)), expected_occams(ctx));
    assert_eq!(call("apply_rule_5x5", context_args(ctx)), expected_rule_5x5(ctx));
}

#[test]
fn root_cause_methods() {
    let ctx = "latency spike";
    let with_method = |m: &str| {
        let mut a = serde_json::Map::new();
        a.insert("context".to_string(), Value::String(ctx.to_string()));
        a.insert("method".to_string(), Value::String(m.to_string()));
        call("run_root_cause", Value::Object(a))
    };
    assert_eq!(with_method("fishbone"), expected_fishbone(ctx));
    assert_eq!(with_method("fault_tree"), expected_fault_tree(ctx));
    assert_eq!(with_method("5_whys"), expected_five_whys(ctx));
    assert_eq!(with_method("Fishbone"), expected_five_whys(ctx));
    assert_eq!(call("run_root_cause", context_args(ctx)), expected_five_whys(ctx));
}

#[test]
fn root_cause_method_that_is_not_a_string_counts_as_missing() {
    let args = serde_json::from_str::<Value>(r#"{"context":"x","method":3}"#).unwrap();
    assert_eq!(call("run_root_cause", args), expected_five_whys("x"));
}

#[test]
fn missing_context_is_empty() {
    assert_eq!(call("analyze_pareto", Value::Null), expected_pareto(""));
    let args = serde_json::from_str::<Value>(r#"{"context":42}"#).unwrap();
    assert_eq!(call("analyze_pareto", args), expected_pareto(""));
}

#[test]
fn version_and_unknown_tools() {
    assert_eq!(call("version", Value::Null), "0.1.0");
    assert_eq!(call("no_such_tool", context_args("x")), "Tool not implemented.");
    assert_eq!(call("", context_args("x")), "Tool not implemented.");
    let params = parse(r#"{"name": 5}"#);
    assert_eq!(answer_text(&handle_tool_call(params)), "Tool not implemented.");
    assert_eq!(answer_text(&handle_tool_call(JsonValue::Null)), "Tool not implemented.");
}

#[test]
fn select_recommends_by_keywords() {
    assert_eq!(
        call("select_mental_models", context_args("The app crashes with a bug")),
        "Recommended tools: [\"run_root_cause\"]"
    );
    assert_eq!(
        call("select_mental_models", context_args("Should we choose a new architecture? The team disagrees")),
        "Recommended tools: [\"evaluate_occams_razor\", \"apply_first_principles\", \"execute_six_hats\"]"
    );
    assert_eq!(
        call("select_mental_models", context_args("error in backlog during the incident; stress from email")),
        "Recommended tools: [\"run_root_cause\", \"analyze_pareto\", \"analyze_ooda_loop\", \"apply_rule_5x5\"]"
    );
}

#[test]
fn select_falls_back_when_no_keyword() {
    assert_eq!(
        call("select_mental_models", context_args("How do I grow tomatoes?")),
        "Recommended tools: [\"apply_first_principles\", \"execute_six_hats\"]"
    );
    assert_eq!(
        call("select_mental_models", Value::Null),
        "Recommended tools: [\"apply_first_principles\", \"execute_six_hats\"]"
    );
}

#[test]
fn select_ignores_case() {
    assert_eq!(
        call("select_mental_models", context_args("DESIGN VERSUS Rapid CRISIS")),
        "Recommended tools: [\"evaluate_occams_razor\", \"apply_first_principles\", \"analyze_ooda_loop\"]"
    );
    assert_eq!(
        call("select_mental_models", context_args("ÉRROR? no: ERROR")),
        "Recommended tools: [\"run_root_cause\"]"
    );
}

#[test]
fn select_every_group_at_once() {
    assert_eq!(
        call(
            "select_mental_models",
            context_args("fail heavy design crisis team slack")
        ),
        "Recommended tools: [\"run_root_cause\", \"analyze_pareto\", \"evaluate_occams_razor\", \"apply_first_principles\", \"analyze_ooda_loop\", \"execute_six_hats\", \"apply_rule_5x5\"]"
    );
}

#[test]
fn initialize_reports_the_version_tool_answer() {
    let r = handle_request(request(Some("1"), "initialize", None));
    let v = to_serde(&r.result);
    assert_eq!(v["serverInfo"]["version"].as_str().unwrap(), call("version", Value::Null));
}
