//! The composition state machine: parsing a `compose!`-style chain of
//! tokens into pipeline nodes, and the emission decisions made from the
//! generated metadata — which invocation form each step uses and whether
//! the folded chain is asynchronous.

use vstd::prelude::*;

use crate::sig::StepInfo;
use crate::strings::async_probe_name;
use crate::strings::lifted_fn_name;
use crate::strings::retry_fn_name;
use crate::strings::retryable_probe_name;

verus! {

/// One token of a composition chain
/// `name[.provide(expr)]* ( -> name[.provide(expr)]* )* -> with_args(expr)`.
/// Argument expressions are referenced by opaque identifiers; the state
/// machine never looks inside them.
#[derive(Debug)]
pub enum PipeToken {
    /// A step's function name.
    Name(String),
    /// `.provide(expr)`: inject the expression as the current rightmost
    /// parameter of the step to the left.
    Provide(usize),
    /// `->`: fold the chain so far with the next step.
    Arrow,
    /// `with_args(expr)`: invoke the folded chain on the expression.
    WithArgs(usize),
}

/// A parsed step: the function it names, the deterministic names of the
/// generated artifacts consulted for it, and the injected argument
/// expressions in source order.  Exists only between parsing and
/// emission; it has no runtime counterpart.
#[derive(Debug)]
pub struct PipelineNode {
    /// Whether this is the designated head of the chain.
    pub initial: bool,
    /// The declared function's name.
    pub function: String,
    /// The generated lifter's name.
    pub lifted_fn: String,
    /// The generated asynchrony probe's name.
    pub async_probe: String,
    /// The generated retryability probe's name.
    pub retry_probe: String,
    /// Injected argument expressions, in source order (each binds the
    /// then-rightmost parameter).
    pub provided: Vec<usize>,
}

/// A whole parsed chain: its nodes in order and the terminal
/// `with_args` expression.
#[derive(Debug)]
pub struct PipelinePlan {
    pub nodes: Vec<PipelineNode>,
    pub terminal_args: usize,
}

/// A malformed chain, rejected before anything executes.
#[derive(Clone, Copy, PartialEq, Eq, Structural, Debug)]
pub enum ComposeParseError {
    /// A token other than a function name where a step must start.
    ExpectedFunctionName,
    /// A token other than `.provide` or `->` after a step.
    ExpectedProvideOrArrow,
    /// A token other than a name or `with_args` after `->`.
    ExpectedStepOrWithArgs,
    /// A token after the terminal `with_args`.
    TokenAfterTerminal,
    /// The chain ended without reaching `with_args`.
    MissingWithArgs,
}

/// The states of the composition state machine.
#[derive(Clone, Copy, PartialEq, Eq, Structural, Debug)]
pub enum ParseState {
    /// At the very start: the head step's name must come.
    ExpectFunctionName,
    /// Inside a step: `.provide` may continue it, `->` closes it.
    OptionalProvideChain,
    /// After `->`: a further step or the terminal `with_args`.
    ArrowSeen,
    /// After `with_args`: nothing more may come.
    Done,
}

/// Whether the state machine, started in `state`, accepts `tokens`.
pub open spec fn spec_accepts_from(state: ParseState, tokens: Seq<PipeToken>) -> bool
    decreases tokens.len(),
{
    if tokens.len() == 0 {
        state == ParseState::Done
    } else {
        let rest = tokens.drop_first();
        match state {
            ParseState::ExpectFunctionName => tokens[0] is Name && spec_accepts_from(
                ParseState::OptionalProvideChain,
                rest,
            ),
            ParseState::OptionalProvideChain => {
                ||| (tokens[0] is Provide && spec_accepts_from(
                    ParseState::OptionalProvideChain,
                    rest,
                ))
                ||| (tokens[0] is Arrow && spec_accepts_from(ParseState::ArrowSeen, rest))
            },
            ParseState::ArrowSeen => {
                ||| (tokens[0] is Name && spec_accepts_from(ParseState::OptionalProvideChain, rest))
                ||| (tokens[0] is WithArgs && spec_accepts_from(ParseState::Done, rest))
            },
            ParseState::Done => false,
        }
    }
}

/// Whether `tokens` form a well-formed composition chain.
pub open spec fn spec_accepts(tokens: Seq<PipeToken>) -> bool {
    spec_accepts_from(ParseState::ExpectFunctionName, tokens)
}

/// The tokens a single parsed step stands for.
pub open spec fn spec_render_node(n: PipelineNode) -> Seq<PipeToken> {
    seq![PipeToken::Name(n.function)] + n.provided@.map_values(|id: usize| PipeToken::Provide(id))
}

/// The tokens a sequence of parsed steps stands for, each closed by an
/// arrow.
pub open spec fn spec_render_nodes(nodes: Seq<PipelineNode>) -> Seq<PipeToken>
    decreases nodes.len(),
{
    if nodes.len() == 0 {
        Seq::<PipeToken>::empty()
    } else {
        spec_render_node(nodes[0]) + seq![PipeToken::Arrow] + spec_render_nodes(nodes.drop_first())
    }
}

/// The tokens a whole parsed plan stands for.
pub open spec fn spec_render(plan: PipelinePlan) -> Seq<PipeToken> {
    spec_render_nodes(plan.nodes@) + seq![PipeToken::WithArgs(plan.terminal_args)]
}

proof fn lemma_render_nodes_push(nodes: Seq<PipelineNode>, n: PipelineNode)
    ensures
        spec_render_nodes(nodes.push(n)) == spec_render_nodes(nodes) + spec_render_node(n) + seq![
            PipeToken::Arrow,
        ],
    decreases nodes.len(),
{
    if nodes.len() == 0 {
        assert(nodes.push(n).drop_first() =~= Seq::<PipelineNode>::empty());
        assert(spec_render_nodes(Seq::<PipelineNode>::empty()) == Seq::<PipeToken>::empty());
        assert(spec_render_nodes(nodes.push(n)) == spec_render_node(n) + seq![PipeToken::Arrow]
            + spec_render_nodes(Seq::<PipelineNode>::empty()));
        assert(spec_render_nodes(nodes.push(n)) =~= spec_render_nodes(nodes) + spec_render_node(n)
            + seq![PipeToken::Arrow]);
    } else {
        assert(nodes.push(n).drop_first() =~= nodes.drop_first().push(n));
        assert(nodes.push(n)[0] == nodes[0]);
        lemma_render_nodes_push(nodes.drop_first(), n);
        assert(spec_render_nodes(nodes.push(n)) =~= spec_render_nodes(nodes) + spec_render_node(n)
            + seq![PipeToken::Arrow]);
    }
}

/// The generated artifact names a node must carry for its function.
pub open spec fn spec_node_names_consistent(n: PipelineNode) -> bool {
    &&& n.lifted_fn@ == "fn_composer__"@ + "lifted_fn_"@ + n.function@
    &&& n.async_probe@ == "fn_composer__"@ + "is_async_"@ + n.function@
    &&& n.retry_probe@ == "fn_composer__"@ + "is_retryable_"@ + n.function@
}

/// A well-formed parse result: at least one step, exactly the first one
/// marked as the head, every node carrying its generated names, and the
/// whole plan standing for precisely the input tokens.
pub open spec fn spec_plan_ok(plan: PipelinePlan, tokens: Seq<PipeToken>) -> bool {
    &&& plan.nodes@.len() >= 1
    &&& plan.nodes@[0].initial
    &&& forall|j: int| 1 <= j < plan.nodes@.len() ==> !(#[trigger] plan.nodes@[j]).initial
    &&& forall|j: int|
        0 <= j < plan.nodes@.len() ==> spec_node_names_consistent(#[trigger] plan.nodes@[j])
    &&& spec_render(plan) == tokens
}

/// Runs the composition state machine over `tokens`.  Accepts exactly
/// the well-formed chains, returning the parsed steps and the terminal
/// argument; each rejection names the state the machine was in.
pub fn parse_compose(tokens: &Vec<PipeToken>) -> (r: Result<PipelinePlan, ComposeParseError>)
    ensures
        r is Ok <==> spec_accepts(tokens@),
        r is Ok ==> spec_plan_ok(r->Ok_0, tokens@),
{
    let ghost all = tokens@;
    let mut nodes: Vec<PipelineNode> = Vec::new();
    let mut terminal_args: usize = 0;
    let mut state = ParseState::ExpectFunctionName;
    let mut i: usize = 0;
    proof {
        assert(all.skip(0) =~= all);
    }
    while i < tokens.len()
        invariant
            all == tokens@,
            i <= tokens@.len(),
            spec_accepts(all) <==> spec_accepts_from(state, all.skip(i as int)),
            state == ParseState::ExpectFunctionName ==> i == 0 && nodes@.len() == 0,
            state == ParseState::OptionalProvideChain ==> nodes@.len() >= 1 && all.take(i as int)
                == spec_render_nodes(nodes@.drop_last()) + spec_render_node(nodes@.last()),
            state == ParseState::ArrowSeen ==> nodes@.len() >= 1 && all.take(i as int)
                == spec_render_nodes(nodes@),
            state == ParseState::Done ==> nodes@.len() >= 1 && all.take(i as int)
                == spec_render_nodes(nodes@) + seq![PipeToken::WithArgs(terminal_args as usize)],
            nodes@.len() >= 1 ==> nodes@[0].initial,
            forall|j: int| 1 <= j < nodes@.len() ==> !(#[trigger] nodes@[j]).initial,
            forall|j: int|
                0 <= j < nodes@.len() ==> spec_node_names_consistent(#[trigger] nodes@[j]),
        decreases tokens@.len() - i,
    {
        proof {
            assert(all.skip(i as int).drop_first() =~= all.skip(i as int + 1));
            assert(all.skip(i as int)[0] == all[i as int]);
            assert(all.take(i as int + 1) =~= all.take(i as int).push(all[i as int]));
        }
        let token = &tokens[i];
        match state {
            ParseState::ExpectFunctionName => {
                match token {
                    PipeToken::Name(name) => {
                        let node = PipelineNode {
                            initial: true,
                            function: name.clone(),
                            lifted_fn: lifted_fn_name(name.as_str()),
                            async_probe: async_probe_name(name.as_str()),
                            retry_probe: retryable_probe_name(name.as_str()),
                            provided: Vec::new(),
                        };
                        proof {
                            assert(spec_render_node(node) =~= seq![
                                PipeToken::Name(node.function),
                            ]);
                        }
                        nodes.push(node);
                        state = ParseState::OptionalProvideChain;
                        proof {
                            assert(nodes@.drop_last() =~= Seq::<PipelineNode>::empty());
                            assert(all.take(i as int + 1) =~= spec_render_nodes(
                                nodes@.drop_last(),
                            ) + spec_render_node(nodes@.last()));
                        }
                    },
                    _ => {
                        return Result::Err(ComposeParseError::ExpectedFunctionName);
                    },
                }
            },
            ParseState::OptionalProvideChain => {
                match token {
                    PipeToken::Provide(id) => {
                        let ghost old_nodes = nodes@;
                        let n = nodes.len();
                        let last = &mut nodes[n - 1];
                        last.provided.push(*id);
                        proof {
                            assert(nodes@.drop_last() =~= old_nodes.drop_last());
                            assert(nodes@.last().provided@ =~= old_nodes.last().provided@.push(
                                id as usize,
                            ));
                            assert(nodes@.last().provided@.map_values(
                                |x: usize| PipeToken::Provide(x),
                            ) =~= old_nodes.last().provided@.map_values(
                                |x: usize| PipeToken::Provide(x),
                            ).push(PipeToken::Provide(id as usize)));
                            assert(spec_render_node(nodes@.last()) =~= spec_render_node(
                                old_nodes.last(),
                            ).push(PipeToken::Provide(id as usize)));
                            assert(all.take(i as int + 1) =~= spec_render_nodes(
                                nodes@.drop_last(),
                            ) + spec_render_node(nodes@.last()));
                        }
                    },
                    PipeToken::Arrow => {
                        state = ParseState::ArrowSeen;
                        proof {
                            lemma_render_nodes_push(nodes@.drop_last(), nodes@.last());
                            assert(nodes@.drop_last().push(nodes@.last()) =~= nodes@);
                            assert(all.take(i as int + 1) =~= spec_render_nodes(nodes@));
                        }
                    },
                    _ => {
                        return Result::Err(ComposeParseError::ExpectedProvideOrArrow);
                    },
                }
            },
            ParseState::ArrowSeen => {
                match token {
                    PipeToken::Name(name) => {
                        let ghost old_nodes = nodes@;
                        let node = PipelineNode {
                            initial: false,
                            function: name.clone(),
                            lifted_fn: lifted_fn_name(name.as_str()),
                            async_probe: async_probe_name(name.as_str()),
                            retry_probe: retryable_probe_name(name.as_str()),
                            provided: Vec::new(),
                        };
                        proof {
                            assert(spec_render_node(node) =~= seq![
                                PipeToken::Name(node.function),
                            ]);
                        }
                        nodes.push(node);
                        state = ParseState::OptionalProvideChain;
                        proof {
                            assert(nodes@.drop_last() =~= old_nodes);
                            assert(all.take(i as int + 1) =~= spec_render_nodes(
                                nodes@.drop_last(),
                            ) + spec_render_node(nodes@.last()));
                        }
                    },
                    PipeToken::WithArgs(id) => {
                        terminal_args = *id;
                        state = ParseState::Done;
                        proof {
                            assert(all.take(i as int + 1) =~= spec_render_nodes(nodes@) + seq![
                                PipeToken::WithArgs(terminal_args as usize),
                            ]);
                        }
                    },
                    _ => {
                        return Result::Err(ComposeParseError::ExpectedStepOrWithArgs);
                    },
                }
            },
            ParseState::Done => {
                return Result::Err(ComposeParseError::TokenAfterTerminal);
            },
        }
        i = i + 1;
    }
    proof {
        assert(all.skip(all.len() as int) =~= Seq::<PipeToken>::empty());
    }
    if matches!(state, ParseState::Done) {
        let plan = PipelinePlan { nodes, terminal_args };
        proof {
            assert(all.take(all.len() as int) =~= all);
            assert(spec_render(plan) == all);
        }
        Result::Ok(plan)
    } else {
        Result::Err(ComposeParseError::MissingWithArgs)
    }
}

/// A registry of analyzed declarations: the metadata the probes of each
/// declared function report, keyed by function name.
pub struct StepRegistry {
    pub entries: Vec<(String, StepInfo)>,
}

/// The metadata registered for `name`: the first entry carrying it.
pub open spec fn spec_lookup(entries: Seq<(String, StepInfo)>, name: Seq<char>) -> Option<StepInfo>
    decreases entries.len(),
{
    if entries.len() == 0 {
        Option::None
    } else if entries[0].0@ == name {
        Option::Some(entries[0].1)
    } else {
        spec_lookup(entries.drop_first(), name)
    }
}

impl StepRegistry {
    /// An empty registry.
    pub fn new() -> (r: StepRegistry)
        ensures
            r.entries@.len() == 0,
    {
        StepRegistry { entries: Vec::new() }
    }

    /// Registers the metadata derived for a declared function.
    pub fn register(&mut self, name: String, info: StepInfo)
        ensures
            final(self).entries@ == old(self).entries@.push((name, info)),
    {
        self.entries.push((name, info));
    }

    /// Finds the metadata registered for `name`.
    pub fn lookup(&self, name: &String) -> (r: Option<&StepInfo>)
        ensures
            match r {
                Option::Some(info) => spec_lookup(self.entries@, name@) == Option::Some(*info),
                Option::None => spec_lookup(self.entries@, name@) is None,
            },
    {
        let mut i: usize = 0;
        proof {
            assert(self.entries@.skip(0) =~= self.entries@);
        }
        while i < self.entries.len()
            invariant
                i <= self.entries@.len(),
                spec_lookup(self.entries@, name@) == spec_lookup(
                    self.entries@.skip(i as int),
                    name@,
                ),
            decreases self.entries@.len() - i,
        {
            proof {
                assert(self.entries@.skip(i as int).drop_first() =~= self.entries@.skip(
                    i as int + 1,
                ));
                assert(self.entries@.skip(i as int)[0] == self.entries@[i as int]);
            }
            if self.entries[i].0 == *name {
                return Option::Some(&self.entries[i].1);
            }
            i = i + 1;
        }
        proof {
            assert(self.entries@.skip(self.entries@.len() as int) =~= Seq::<(
                String,
                StepInfo,
            )>::empty());
        }
        Option::None
    }
}

/// The identifier whose value a step's lifter is handed: the declared
/// function itself, or its generated retry wrapper when the
/// retryability probe reports a policy.
pub fn invocation_target(node: &PipelineNode, info: &StepInfo) -> (r: String)
    ensures
        info.is_retryable ==> r@ == "fn_composer__"@ + "retry_"@ + node.function@,
        !info.is_retryable ==> r@ == node.function@,
{
    if info.is_retryable {
        retry_fn_name(node.function.as_str())
    } else {
        node.function.clone()
    }
}

/// A plan that names a function with no registered metadata; the value
/// is the index of the offending step.
#[derive(Clone, Copy, PartialEq, Eq, Structural, Debug)]
pub struct UnknownStep {
    pub index: usize,
}

/// Whether some step of `nodes` is registered as asynchronous.
pub open spec fn spec_chain_async(
    nodes: Seq<PipelineNode>,
    entries: Seq<(String, StepInfo)>,
) -> bool {
    exists|j: int|
        0 <= j < nodes.len() && match spec_lookup(entries, (#[trigger] nodes[j]).function@) {
            Option::Some(info) => info.is_async,
            Option::None => false,
        }
}

/// Folds the asynchrony probes of a plan's steps: the chain is
/// asynchronous exactly when at least one step is — asynchrony
/// dominates.  Rejects the plan at the first step whose function has no
/// registered metadata.
pub fn chain_is_async(plan: &PipelinePlan, registry: &StepRegistry) -> (r: Result<
    bool,
    UnknownStep,
>)
    ensures
        r is Ok <==> (forall|j: int|
            0 <= j < plan.nodes@.len() ==> spec_lookup(
                registry.entries@,
                (#[trigger] plan.nodes@[j]).function@,
            ) is Some),
        r is Ok ==> (r->Ok_0 == spec_chain_async(plan.nodes@, registry.entries@)),
        r is Err ==> {
            let ix = r->Err_0.index;
            &&& 0 <= ix < plan.nodes@.len()
            &&& spec_lookup(registry.entries@, plan.nodes@[ix as int].function@) is None
        },
{
    let mut acc = false;
    let mut i: usize = 0;
    while i < plan.nodes.len()
        invariant
            i <= plan.nodes@.len(),
            forall|j: int|
                0 <= j < i ==> spec_lookup(
                    registry.entries@,
                    (#[trigger] plan.nodes@[j]).function@,
                ) is Some,
            acc == spec_chain_async(plan.nodes@.take(i as int), registry.entries@),
        decreases plan.nodes@.len() - i,
    {
        match registry.lookup(&plan.nodes[i].function) {
            Option::Some(info) => {
                let ghost prev = plan.nodes@.take(i as int);
                acc = acc || info.is_async;
                proof {
                    let cur = plan.nodes@.take(i as int + 1);
                    assert(forall|j: int| 0 <= j < i ==> cur[j] == prev[j]);
                    assert(cur[i as int] == plan.nodes@[i as int]);
                    if acc {
                        if spec_chain_async(prev, registry.entries@) {
                            let j = choose|j: int|
                                0 <= j < prev.len() && match spec_lookup(
                                    registry.entries@,
                                    (#[trigger] prev[j]).function@,
                                ) {
                                    Option::Some(info) => info.is_async,
                                    Option::None => false,
                                };
                            assert(cur[j] == prev[j]);
                            assert(spec_chain_async(cur, registry.entries@));
                        } else {
                            assert(spec_chain_async(cur, registry.entries@));
                        }
                    } else {
                        if spec_chain_async(cur, registry.entries@) {
                            let j = choose|j: int|
                                0 <= j < cur.len() && match spec_lookup(
                                    registry.entries@,
                                    (#[trigger] cur[j]).function@,
                                ) {
                                    Option::Some(info) => info.is_async,
                                    Option::None => false,
                                };
                            if j < i {
                                assert(cur[j] == prev[j]);
                                assert(spec_chain_async(prev, registry.entries@));
                            }
                            assert(false);
                        }
                    }
                }
            },
            Option::None => {
                return Result::Err(UnknownStep { index: i });
            },
        }
        i = i + 1;
    }
    proof {
        assert(plan.nodes@.take(plan.nodes@.len() as int) =~= plan.nodes@);
    }
    Result::Ok(acc)
}

/// The emission for one step of an accepted chain: the generated lifter
/// consulted, the identifier handed to it — the declared function, or
/// its retry wrapper when the retryability probe says so — and the
/// asynchrony the probe reported.
#[derive(Debug)]
pub struct StepEmission {
    pub lifted_fn: String,
    pub target: String,
    pub is_async: bool,
}

/// What the emission of one node must hold, given its registered
/// metadata.
pub open spec fn spec_step_emission(node: PipelineNode, info: StepInfo, e: StepEmission) -> bool {
    &&& e.lifted_fn == node.lifted_fn
    &&& e.is_async == info.is_async
    &&& info.is_retryable ==> e.target@ == "fn_composer__"@ + "retry_"@ + node.function@
    &&& !info.is_retryable ==> e.target@ == node.function@
}

/// Makes the per-step emission decisions of a parsed chain: for each
/// step, in order, which generated lifter is consulted, whether the
/// plain function or its retry wrapper is handed to it, and whether the
/// step is asynchronous.  Rejects the plan at the first step whose
/// function has no registered metadata.
pub fn emit_steps(plan: &PipelinePlan, registry: &StepRegistry) -> (r: Result<
    Vec<StepEmission>,
    UnknownStep,
>)
    ensures
        r is Ok <==> (forall|j: int|
            0 <= j < plan.nodes@.len() ==> spec_lookup(
                registry.entries@,
                (#[trigger] plan.nodes@[j]).function@,
            ) is Some),
        r is Ok ==> {
            let emissions = r->Ok_0@;
            &&& emissions.len() == plan.nodes@.len()
            &&& forall|j: int|
                0 <= j < plan.nodes@.len() ==> spec_step_emission(
                    plan.nodes@[j],
                    spec_lookup(registry.entries@, plan.nodes@[j].function@)->0,
                    #[trigger] emissions[j],
                )
        },
        r is Err ==> {
            let ix = r->Err_0.index;
            &&& 0 <= ix < plan.nodes@.len()
            &&& spec_lookup(registry.entries@, plan.nodes@[ix as int].function@) is None
        },
{
    let mut emissions: Vec<StepEmission> = Vec::new();
    let mut i: usize = 0;
    while i < plan.nodes.len()
        invariant
            i <= plan.nodes@.len(),
            emissions@.len() == i,
            forall|j: int|
                0 <= j < i ==> spec_lookup(
                    registry.entries@,
                    (#[trigger] plan.nodes@[j]).function@,
                ) is Some,
            forall|j: int|
                0 <= j < i ==> spec_step_emission(
                    plan.nodes@[j],
                    spec_lookup(registry.entries@, plan.nodes@[j].function@)->0,
                    #[trigger] emissions@[j],
                ),
        decreases plan.nodes@.len() - i,
    {
        let node = &plan.nodes[i];
        match registry.lookup(&node.function) {
            Option::Some(info) => {
                let target = invocation_target(node, info);
                emissions.push(StepEmission {
                    lifted_fn: node.lifted_fn.clone(),
                    target,
                    is_async: info.is_async,
                });
            },
            Option::None => {
                return Result::Err(UnknownStep { index: i });
            },
        }
        i = i + 1;
    }
    Result::Ok(emissions)
}

} // verus!
