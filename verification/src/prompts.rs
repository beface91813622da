//! The prompt texts of the tools and the answer of a tool call.
use vstd::prelude::*;
use crate::json::same_text;
use crate::text::lowercase_of;
use crate::tools::{recommendation_text_model, recommended_tools, select_mental_models};

verus! {

/// The text of the prompt for the OODA loop after its opening word and before the context.
pub const OODA_LOOP_HEAD: &'static str = "You must analyze the following scenario using the OODA Loop framework.\n\
    Context: ";

/// The text of the prompt for the OODA loop after the context.
pub const OODA_LOOP_TAIL: &'static str = "\n\n\
    Execute your response using strict Markdown headers for each phase, adhering to these criteria:\n\n\
    ### 1. OBSERVE\n\
    - Isolate raw, verified facts, telemetry data, and objective environmental signals from the context.\n\
    - Explicitly separate confirmed data from subjective interpretations or hearsay.\n\
    - Identify critical missing information or active blind spots that remain unknown.\n\n\
    ### 2. ORIENT\n\
    - Map out technical dependencies, architectural constraints, and legacy paradigms shaping the problem.\n\
    - Analyze underlying biases, systemic habits, or flawed assumptions embedded in the context.\n\
    - Explain how the current system state mismatches expected mental or operational models.\n\n\
    ### 3. DECIDE\n\
    - Formulate at least two distinct, competing solution vectors to resolve the core issue.\n\
    - Contrast both options using a clear risk-reward matrix or engineering tradeoffs.\n\
    - Explicitly select the optimal immediate path forward and justify the choice.\n\n\
    ### 4. ACT\n\
    - Define a concrete, minimal, and measurable test sequence to validate the chosen hypothesis.\n\
    - Establish clear success metrics to observe in production or operation.\n\
    - Define an immediate rollback trigger or failure boundary condition.";

/// The text of the prompt for first principles thinking after its opening word and before the context.
pub const FIRST_PRINCIPLES_HEAD: &'static str = "You must analyze the following scenario using First Principles Thinking.\n\
    Context: ";

/// The text of the prompt for first principles thinking after the context.
pub const FIRST_PRINCIPLES_TAIL: &'static str = "\n\n\
    Execute your response using strict Markdown headers for each phase, adhering to these criteria:\n\n\
    ### 1. IDENTIFY CURRENT ASSUMPTIONS\n\
    - Surface all implicit assumptions, hand-wavy axioms, and industry 'best practices' accepted within the context.\n\
    - Highlight legacy constraints, resource limitations, or operational behaviors currently treated as unchangeable.\n\
    - Document the exact rationale or historical reason behind why the current solution is framed this way.\n\
    - Identify emotional or cognitive biases driving the insistence on the current approach.\n\n\
    ### 2. CHALLENGE AND DECONSTRUCT\n\
    - Systematically audit every identified assumption and question its absolute validity.\n\
    - Separate true foundational laws (hard physical limits, basic programming constraints, raw system data) from arbitrary conventions.\n\
    - Boil the situation down to its fundamental truths, the core facts that remain indisputably true even if all legacy architecture is stripped away.\n\n\
    ### 3. REBUILD FROM SCRATCH\n\
    - Synthesize a novel solution vector built exclusively from the isolated fundamental truths.\n\
    - Intentionally avoid importing any legacy patterns, tools, or workflows challenged in the previous phase.\n\
    - Demonstrate how this bottom-up architecture resolves the core problem more efficiently than traditional incremental fixes.\n\
    - Trace the lineage of the new solution back to a validated axiom to prove its logical soundness.\n\
    - Define the first actionable architectural step required to prototype this new foundation.";

/// The text of the prompt for the six thinking hats after its opening word and before the context.
pub const SIX_HATS_HEAD: &'static str = "Execute an exhaustive parallel-thinking evaluation using Edward de Bono's Six Thinking Hats.\n\
    Context: ";

/// The text of the prompt for the six thinking hats after the context.
pub const SIX_HATS_TAIL: &'static str = "\n\n\
    Generate your full evaluation by separating perspectives into these precise blocks using strict Markdown headers:\n\n\
    ### WHITE HAT\n\
    - Compile all objective metrics, verified data points, configuration states, and hard telemetry found in the context.\n\
    - Explicitly list information gaps, unverified claims, or data points that are currently missing.\n\n\
    ### RED HAT\n\
    - Document immediate gut reactions, underlying anxieties, and unspoken psychological friction points within the context.\n\
    - Capture the raw emotional or visceral impact of the situation on team velocity or stakeholder trust without providing logical justifications.\n\n\
    ### BLACK HAT\n\
    - Conduct an aggressive risk assessment, exposing systemic vulnerabilities, fatal architectural flaws, and compliance risks.\n\
    - Analyze worst-case scenarios, compounding dependency failures, and explicit reasons why proposed directions will fail.\n\
    - Challenge optimistic assumptions by enforcing strict security bounds, technical constraints, and operational overheads.\n\n\
    ### YELLOW HAT\n\
    - Identify immediate value propositions, structural efficiencies, and high-probability operational benefits under a lens of logical optimism.\n\
    - Explore how this specific challenge can be leveraged as a catalyst for architecture cleanup or strategic optimization.\n\n\
    ### GREEN HAT\n\
    - Generate unconstrained architectural workarounds and lateral technical solutions.\n\
    - Introduce structural provocations to break away from traditional linear troubleshooting patterns.\n\
    - Propose micro-experiments or proof-of-concepts that completely route around the active constraint.\n\n\
    ### BLUE HAT\n\
    - Synthesize the conflicting constraints, risks, and creative opportunities discovered across all previous hats.\n\
    - Enforce process control by mapping out the definitive step-by-step orchestration sequence for execution.\n\
    - Establish explicit success metrics, priority thresholds, and governance guidelines for the next phase of work.";

/// The text of the prompt for the Pareto 80/20 analysis after its opening word and before the context.
pub const PARETO_HEAD: &'static str = "Run a rigorous Pareto 80/20 Optimization Analysis on the provided scenario.\n\
    Context: ";

/// The text of the prompt for the Pareto 80/20 analysis after the context.
pub const PARETO_TAIL: &'static str = "\n\n\
    Execute your response using strict Markdown headers for each phase, adhering to these criteria:\n\n\
    ### 1. DEDUCE COMPONENT VARIABLES\n\
    - Isolate and list every distinct activity, structural bottleneck, bug, or operational input implied in the context.\n\
    - Deconstruct compound problems into atomic, trackable components of effort, failure, or resource expenditure.\n\n\
    ### 2. QUANTIFY IMPACT AND LEVERAGE\n\
    - Assign a logical weight, operational cost, or blast-radius metric to each deduced variable based on the text.\n\
    - Explicitly distinguish high-frequency/low-leverage operational noise from low-frequency/high-severity systemic risks.\n\
    - Map out the exact downstream dependencies showing how certain inputs disproportionately compound friction.\n\n\
    ### 3. ISOLATE THE VITAL FEW (THE 20%)\n\
    - Explicitly name the exact 20% core drivers that logically dictate 80% of the negative friction or potential strategic upside.\n\
    - Provide a detailed engineering or logical justification for why resolving these specific nodes yields maximum systemic leverage.\n\n\
    ### 4. STRATEGIC FOCUS ON LEVERAGE\n\
    - Outline an aggressive action plan to concentrate immediate engineering bandwidth and technical resources exclusively on the isolated 20% core.\n\n\
    ### 5. MITIGATION OF THE TRIVIAL MANY (THE 80%)\n\
    - Define strict, uncompromising heuristics to eliminate, automate, or delegate the remaining 80% low-leverage variables.\n\
    - Establish firm architectural boundaries or policy thresholds to guarantee these secondary tasks cannot bleed into active focus or derail velocity.";

/// The text of the prompt for the fishbone root cause analysis after its opening word and before the context.
pub const FISHBONE_HEAD: &'static str = "Run a comprehensive Fishbone Diagram (Ishikawa) Root Cause Analysis.\n\
    Context: ";

/// The text of the prompt for the fishbone root cause analysis after the context.
pub const FISHBONE_TAIL: &'static str = "\n\n\
    Organize your investigative tracing into these precise structural categories using strict Markdown headers:\n\n\
    ### 1. ENVIRONMENT AND INFRASTRUCTURE\n\
    - Analyze cloud infrastructure configurations, network topology bottlenecks, third-party service availability, or regional outages.\n\
    - Identify compute resource starvation, memory ceiling limits, or external hardware conditions impacting execution metrics.\n\n\
    ### 2. PROCESS AND PIPELINES\n\
    - Audit deployment sequences, version control workflows, automated code-testing gates, and build pipelines.\n\
    - Evaluate operational runbooks, manual error-prone human intervention steps, or gaps in staging-to-production parity.\n\n\
    ### 3. CODE AND ARCHITECTURE\n\
    - Inspect for runtime exceptions, unhandled logic branches, improper asynchronous state synchronization, or severe race conditions.\n\
    - Evaluate deep dependency conflicts, algorithmic complexity scaling flaws, execution blocks, or bad loop patterns.\n\n\
    ### 4. DATA AND STORAGE\n\
    - Review persistence states, cascading database locks, transaction timeouts, connection pool saturation, or missing index layouts.\n\
    - Trace corrupted payloads, invalid client serialization formats, or unexpected schema alterations across distributed storage nodes.\n\n\
    ### 5. ROOT CAUSE CONVERGENCE\n\
    - Synthesize how these separate categories cross-contaminate or interact to trigger the macroscopic systemic failure.\n\
    - Explicitly name and defend the validated single point of origin that acts as the core bottleneck.";

/// The text of the prompt for the fault-tree root cause analysis after its opening word and before the context.
pub const FAULT_TREE_HEAD: &'static str = "Construct a top-down Fault-Tree Analysis to deconstruct the system failure state.\n\
    Context: ";

/// The text of the prompt for the fault-tree root cause analysis after the context.
pub const FAULT_TREE_TAIL: &'static str = "\n\n\
    Execute your deductive failure trace by populating these exact logical nodes using strict Markdown headers:\n\n\
    ### 1. TOP EVENT\n\
    - Explicitly define the primary macro system failure, degradation pattern, or undesirable outcome recorded in the context.\n\
    - Quantify the operational impact, error rates, blast radius, and exact timeline boundaries of the incident.\n\n\
    ### 2. CONTRIBUTING CONDITIONS (LOGIC GATES)\n\
    - Map out the immediate intermediate sub-failures or dependent states that had to occur to trigger the Top Event.\n\
    - Classify whether these conditions combined via logical AND gates (requiring all to fail simultaneously) or OR gates (where any single sub-failure initiates the state).\n\
    - Pair each active intermediate node with its corresponding system logs, metric trends, or telemetry validation.\n\n\
    ### 3. PRIMARY EVENTS AND BASIC CAUSES\n\
    - Trace downward to find the basal hardware anomalies, configuration file values, or explicit code errors that initiated the cascade.\n\
    - Isolate component bugs or human execution slips that cannot be further subdivided or deconstructed.\n\
    - Define the critical absolute minimum sequence of structural failures required to reproduce this exact system behavior.";

/// The text of the prompt for the 5 whys root cause analysis after its opening word and before the context.
pub const FIVE_WHYS_HEAD: &'static str = "Execute a linear 5 Whys causal tracing procedure.\n\
    Context: ";

/// The text of the prompt for the 5 whys root cause analysis after the context.
pub const FIVE_WHYS_TAIL: &'static str = "\n\n\
    Construct a tight, chronologically sound chain of consecutive causality using strict Markdown headers:\n\n\
    ### 1. THE CAUSAL CHAIN\n\
    - WHY 1: State the direct technical trigger or immediate mechanism behind the visible surface symptom.\n\
    - WHY 2: Isolate the component behavior, dependency, or state change that allowed Why 1 to manifest.\n\
    - WHY 3: Track the configuration boundary, missing structural validation, or internal logical flaw driving Why 2.\n\
    - WHY 4: Uncover the architectural choice, legacy paradigm constraint, or testing gap that permitted Why 3 to exist undetected.\n\
    - WHY 5 (SYSTEMIC ROOT CAUSE): Target the foundational architectural pattern, systemic policy breakdown, or logic design flaw causing the sequence.\n\n\
    ### 2. REMEDIATION ENGINEERING\n\
    - Formulate a permanent technical fix engineered to target and rewrite the systemic root cause node identified in Why 5.\n\
    - Specify exact automated regression constraints, continuous integration rules, or defensive guardrails to prevent future replication.";

/// The text of the prompt for Occam's razor after its opening word and before the context.
pub const OCCAMS_RAZOR_HEAD: &'static str = "Apply Occam's Razor to parse and resolve competing technical hypotheses or solutions.\n\
    Context: ";

/// The text of the prompt for Occam's razor after the context.
pub const OCCAMS_RAZOR_TAIL: &'static str = "\n\n\
    Execute your response using strict Markdown headers for each phase, adhering to these criteria:\n\n\
    ### 1. DEFINE THE PROBLEM BOUNDARIES\n\
    - Clearly state the observed anomaly, technical mystery, or engineering choice that requires resolution.\n\
    - Isolate the precise constraints and non-negotiable requirements that any valid hypothesis must satisfy.\n\n\
    ### 2. ENUMERATE COMPETING HYPOTHESES\n\
    - List all distinct, viable explanations, architectural designs, or solutions proposed within the context.\n\
    - Map out the exact mechanism by which each hypothesis claims to solve or explain the problem.\n\n\
    ### 3. AUDIT SUBJACENT ASSUMPTIONS\n\
    - Deconstruct each hypothesis by explicitly listing its unverified assumptions, speculative dependencies, and logical leaps.\n\
    - Quantify the fragility of each option based on its reliance on external factors, unmonitored systems, or unproven behaviors.\n\n\
    ### 4. EXECUTE THE STRUCTURAL PARING\n\
    - Compare the options side-by-side and systematically eliminate hypotheses burdened by excessive or unprovable presuppositions.\n\
    - Select the simplest viable solution that completely accounts for all known facts and satisfies all technical constraints.\n\
    - Provide a rigorous justification for why this minimum-viable explanation introduces the lowest systemic risk and overhead.";

/// The text of the prompt for the 5x5 rule after its opening word and before the context.
pub const RULE_5X5_HEAD: &'static str = "Trigger the 5x5 Rule framework for immediate tactical perspective and cognitive bandwidth triage.\n\
    Context: ";

/// The text of the prompt for the 5x5 rule after the context.
pub const RULE_5X5_TAIL: &'static str = "\n\n\
    Execute your response using strict Markdown headers for each phase, adhering to these criteria:\n\n\
    ### 1. ISOLATE INCIDENT REALITY\n\
    - Enumerate the explicit operational, financial, or technical side effects caused by this setback.\n\
    - Separate the objective mechanical impact of the event from subjective emotional friction or psychological drag.\n\n\
    ### 2. THE 5-YEAR PROJECTION FILTER\n\
    - Evaluate this exact situation on a 5-year macro timeline: will it structurally matter to the architecture, codebase, product viability, or long-term business health?\n\
    - Provide an explicit, binary [YES/NO] determination accompanied by a clear, unvarnished logical justification.\n\n\
    ### 3. THE 5-MINUTE CEILING CONSTRAINT\n\
    - If the 5-year projection is NO, immediately initiate a hard 5-minute cognitive boundary to prevent overthinking.\n\
    - Specify a low-effort, immediate containment action (e.g., a minor patch revert, a brief neutral update, or logging a low-priority backlog ticket) to safely close the operational loop.\n\n\
    ### 4. CONTEXT SWITCH AND DIVERSION\n\
    - Define the exact high-leverage engineering task, architectural milestone, or creative solution active focus must pivot to right now.\n\
    - Establish a definitive policy constraint to block repetitive team discussions or ongoing analysis of this minor setback, protecting systemic engineering velocity.";

/// The answer of the tool with the given name for a description
/// (`context`) and a root cause method (`method`, which only
/// `run_root_cause` reads): a prompt that frames the description, the
/// recommendation of tools, the version, or a notice that there is no
/// such tool.
pub open spec fn tool_text_model(name: Seq<char>, context: Seq<char>, method: Seq<char>) -> Seq<char> {
    if name == "select_mental_models"@ {
        recommendation_text_model(recommended_tools(lowercase_of(context)))
    } else if name == "analyze_ooda_loop"@ {
        prompt(OODA_LOOP_HEAD@, context, OODA_LOOP_TAIL@)
    } else if name == "apply_first_principles"@ {
        prompt(FIRST_PRINCIPLES_HEAD@, context, FIRST_PRINCIPLES_TAIL@)
    } else if name == "execute_six_hats"@ {
        prompt(SIX_HATS_HEAD@, context, SIX_HATS_TAIL@)
    } else if name == "analyze_pareto"@ {
        prompt(PARETO_HEAD@, context, PARETO_TAIL@)
    } else if name == "run_root_cause"@ {
        root_cause_text_model(context, method)
    } else if name == "evaluate_occams_razor"@ {
        prompt(OCCAMS_RAZOR_HEAD@, context, OCCAMS_RAZOR_TAIL@)
    } else if name == "version"@ {
        "0.1.0"@
    } else if name == "apply_rule_5x5"@ {
        prompt(RULE_5X5_HEAD@, context, RULE_5X5_TAIL@)
    } else {
        "Tool not implemented."@
    }
}

/// The root cause prompt for a method: the fishbone diagram, the fault
/// tree, or, for any other method, the 5 whys.
pub open spec fn root_cause_text_model(context: Seq<char>, method: Seq<char>) -> Seq<char> {
    if method == "fishbone"@ {
        prompt(FISHBONE_HEAD@, context, FISHBONE_TAIL@)
    } else if method == "fault_tree"@ {
        prompt(FAULT_TREE_HEAD@, context, FAULT_TREE_TAIL@)
    } else {
        prompt(FIVE_WHYS_HEAD@, context, FIVE_WHYS_TAIL@)
    }
}

/// The word that opens every prompt.
pub const MANDATE: &'static str = "MANDATE: ";

/// A prompt: the opening word, the head of a framework, the description
/// and the tail of the framework.
pub open spec fn prompt(head: Seq<char>, context: Seq<char>, tail: Seq<char>) -> Seq<char> {
    MANDATE@ + head + context + tail
}

/// The prompt of a framework for a description.
pub fn framed(head: &str, context: &str, tail: &str) -> (r: String)
    ensures
        r@ == prompt(head@, context@, tail@),
{
    let mut out = String::from_str(MANDATE);
    out.append(head);
    out.append(context);
    out.append(tail);
    out
}

/// The root cause prompt for a description and a method.
pub fn root_cause_text(context: &str, method: &str) -> (r: String)
    ensures
        r@ == root_cause_text_model(context@, method@),
{
    if same_text(method, "fishbone") {
        framed(FISHBONE_HEAD, context, FISHBONE_TAIL)
    } else if same_text(method, "fault_tree") {
        framed(FAULT_TREE_HEAD, context, FAULT_TREE_TAIL)
    } else {
        framed(FIVE_WHYS_HEAD, context, FIVE_WHYS_TAIL)
    }
}

/// The answer of the tool with the given name for a description and a
/// root cause method.
pub fn tool_text(name: &str, context: &str, method: &str) -> (r: String)
    ensures
        r@ == tool_text_model(name@, context@, method@),
{
    if same_text(name, "select_mental_models") {
        select_mental_models(context)
    } else if same_text(name, "analyze_ooda_loop") {
        framed(OODA_LOOP_HEAD, context, OODA_LOOP_TAIL)
    } else if same_text(name, "apply_first_principles") {
        framed(FIRST_PRINCIPLES_HEAD, context, FIRST_PRINCIPLES_TAIL)
    } else if same_text(name, "execute_six_hats") {
        framed(SIX_HATS_HEAD, context, SIX_HATS_TAIL)
    } else if same_text(name, "analyze_pareto") {
        framed(PARETO_HEAD, context, PARETO_TAIL)
    } else if same_text(name, "run_root_cause") {
        root_cause_text(context, method)
    } else if same_text(name, "evaluate_occams_razor") {
        framed(OCCAMS_RAZOR_HEAD, context, OCCAMS_RAZOR_TAIL)
    } else if same_text(name, "version") {
        String::from_str("0.1.0")
    } else if same_text(name, "apply_rule_5x5") {
        framed(RULE_5X5_HEAD, context, RULE_5X5_TAIL)
    } else {
        String::from_str("Tool not implemented.")
    }
}

} // verus!
