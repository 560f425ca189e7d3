use vstd::prelude::*;

use crate::node::Node;
use crate::rng::{draw_of, next_state, LinearCongruentialGenerator, UNIT};

verus! {

/// How many draws one rule gets to produce a tree before it gives up.
pub const MAX_ATTEMPTS: u32 = 100;

/// A rule table as contracts see it: for each rule, its alternatives in
/// order, each a template and its weight in billionths.
pub type RuleTable = Seq<Seq<(Node, u32)>>;

/// Every `Rule` reference in the tree names one of the first `n` rules.
pub open spec fn refs_below(t: Node, n: nat) -> bool
    decreases t,
{
    match t {
        Node::Rule(i) => i < n,
        Node::Sqrt(a) | Node::Sin(a) | Node::Cos(a) | Node::Exp(a) => refs_below(*a, n),
        Node::Add(a, b) | Node::Mult(a, b) | Node::Div(a, b) | Node::Modulo(a, b) | Node::Gt(
            a,
            b,
        ) => refs_below(*a, n) && refs_below(*b, n),
        Node::Triple(a, b, c) => refs_below(*a, n) && refs_below(*b, n) && refs_below(*c, n),
        Node::If { cond, then_node, else_node } => refs_below(*cond, n) && refs_below(
            *then_node,
            n,
        ) && refs_below(*else_node, n),
        Node::Mix(a, b, c, d) => refs_below(*a, n) && refs_below(*b, n) && refs_below(*c, n)
            && refs_below(*d, n),
        _ => true,
    }
}

/// A rule table that generation can run on: each rule has an alternative,
/// and each template refers only to rules of the table.
pub open spec fn table_wf(table: RuleTable) -> bool {
    &&& forall|i: int| 0 <= i < table.len() ==> #[trigger] table[i].len() > 0
    &&& forall|i: int, j: int|
        0 <= i < table.len() && 0 <= j < table[i].len() ==> #[trigger] refs_below(
            table[i][j].0,
            table.len(),
        )
}

/// The walk over the alternatives from index `i` on, with `acc` the sum of
/// the weights before `i`: the first index at which the running sum reaches
/// the draw `p`.
pub open spec fn pick_from(alts: Seq<(Node, u32)>, p: nat, i: nat, acc: nat) -> Option<nat>
    decreases alts.len() - i,
{
    if i >= alts.len() {
        None
    } else if acc + alts[i as int].1 >= p {
        Some(i)
    } else {
        pick_from(alts, p, i + 1, (acc + alts[i as int].1) as nat)
    }
}

/// The alternative that draw `p` selects: the first one whose running sum
/// of weights is at least `p`, or none where the weights sum to less.
pub open spec fn selected_branch(alts: Seq<(Node, u32)>, p: nat) -> Option<nat> {
    pick_from(alts, p, 0, 0)
}

/// The number that a `Random` template becomes for draw `p`: `p / UNIT`
/// mapped from `[0, 1)` onto `[-1, 1)`, in billionths.
pub open spec fn random_number(p: nat) -> i64 {
    (2 * p - UNIT) as i64
}

/// Generation from `rule` under `depth`, starting from generator state `s`:
/// the tree, if any, and the generator state after it.
pub open spec fn generate(table: RuleTable, rule: nat, depth: nat, s: u64) -> (Option<Node>, u64)
    decreases depth, 2nat, 0nat, 0nat,
{
    if depth == 0 {
        (None, s)
    } else {
        attempts(table, rule, depth, MAX_ATTEMPTS as nat, s)
    }
}

/// The retry loop of `generate`, with `left` attempts still to go.
pub open spec fn attempts(table: RuleTable, rule: nat, depth: nat, left: nat, s: u64) -> (
    Option<Node>,
    u64,
)
    decreases depth, 1nat, left, 1nat,
{
    if left == 0 {
        (None, s)
    } else {
        let (r, s1) = attempt(table, rule, depth, s);
        if r is Some {
            (r, s1)
        } else {
            attempts(table, rule, depth, (left - 1) as nat, s1)
        }
    }
}

/// One attempt of `generate`: a draw selects an alternative of the rule,
/// whose template is expanded under `depth - 1`. A draw past the total
/// weight selects nothing, and the attempt fails.
pub open spec fn attempt(table: RuleTable, rule: nat, depth: nat, s: u64) -> (Option<Node>, u64)
    decreases depth, 1nat, 0nat, 0nat,
{
    let s1 = next_state(s);
    if depth == 0 || rule >= table.len() {
        (None, s1)
    } else {
        match selected_branch(table[rule as int], draw_of(s1)) {
            None => (None, s1),
            Some(i) => expand(table, table[rule as int][i as int].0, (depth - 1) as nat, s1),
        }
    }
}

/// The expansion of template `t` under `depth`, from generator state `s`.
pub open spec fn expand(table: RuleTable, t: Node, depth: nat, s: u64) -> (Option<Node>, u64)
    decreases depth + 1, 0nat, t.size(), 1nat,
{
    match t {
        Node::Random => {
            let s1 = next_state(s);
            (Some(Node::Number(random_number(draw_of(s1)))), s1)
        },
        Node::Rule(i) => if depth == 0 {
            (None, s)
        } else {
            generate(table, i as nat, (depth - 1) as nat, s)
        },
        Node::Sqrt(a) => {
            let (r, s1) = expand(table, *a, depth, s);
            (if r is Some { Some(Node::Sqrt(Box::new(r->0))) } else { None }, s1)
        },
        Node::Sin(a) => {
            let (r, s1) = expand(table, *a, depth, s);
            (if r is Some { Some(Node::Sin(Box::new(r->0))) } else { None }, s1)
        },
        Node::Cos(a) => {
            let (r, s1) = expand(table, *a, depth, s);
            (if r is Some { Some(Node::Cos(Box::new(r->0))) } else { None }, s1)
        },
        Node::Exp(a) => {
            let (r, s1) = expand(table, *a, depth, s);
            (if r is Some { Some(Node::Exp(Box::new(r->0))) } else { None }, s1)
        },
        Node::Add(a, b) => {
            let (r, s1) = expand_two(table, *a, *b, depth, s);
            (
                match r {
                    Some((x, y)) => Some(Node::Add(Box::new(x), Box::new(y))),
                    None => None,
                },
                s1,
            )
        },
        Node::Mult(a, b) => {
            let (r, s1) = expand_two(table, *a, *b, depth, s);
            (
                match r {
                    Some((x, y)) => Some(Node::Mult(Box::new(x), Box::new(y))),
                    None => None,
                },
                s1,
            )
        },
        Node::Div(a, b) => {
            let (r, s1) = expand_two(table, *a, *b, depth, s);
            (
                match r {
                    Some((x, y)) => Some(Node::Div(Box::new(x), Box::new(y))),
                    None => None,
                },
                s1,
            )
        },
        Node::Modulo(a, b) => {
            let (r, s1) = expand_two(table, *a, *b, depth, s);
            (
                match r {
                    Some((x, y)) => Some(Node::Modulo(Box::new(x), Box::new(y))),
                    None => None,
                },
                s1,
            )
        },
        Node::Gt(a, b) => {
            let (r, s1) = expand_two(table, *a, *b, depth, s);
            (
                match r {
                    Some((x, y)) => Some(Node::Gt(Box::new(x), Box::new(y))),
                    None => None,
                },
                s1,
            )
        },
        Node::Triple(a, b, c) => {
            let (r, s1) = expand_three(table, *a, *b, *c, depth, s);
            (
                match r {
                    Some((x, y, z)) => Some(Node::Triple(Box::new(x), Box::new(y), Box::new(z))),
                    None => None,
                },
                s1,
            )
        },
        Node::If { cond, then_node, else_node } => {
            let (r, s1) = expand_three(table, *cond, *then_node, *else_node, depth, s);
            (
                match r {
                    Some((x, y, z)) => Some(
                        Node::If {
                            cond: Box::new(x),
                            then_node: Box::new(y),
                            else_node: Box::new(z),
                        },
                    ),
                    None => None,
                },
                s1,
            )
        },
        Node::Mix(a, b, c, d) => {
            let (r, s1) = expand_four(table, *a, *b, *c, *d, depth, s);
            (
                match r {
                    Some((w, x, y, z)) => Some(
                        Node::Mix(Box::new(w), Box::new(x), Box::new(y), Box::new(z)),
                    ),
                    None => None,
                },
                s1,
            )
        },
        _ => (Some(t), s),
    }
}

/// The expansion of two operands in order; none if either fails, in which
/// case the second is not tried after the first fails.
pub open spec fn expand_two(table: RuleTable, a: Node, b: Node, depth: nat, s: u64) -> (
    Option<(Node, Node)>,
    u64,
)
    decreases depth + 1, 0nat, a.size() + b.size(), 2nat,
{
    let (ra, s1) = expand(table, a, depth, s);
    if ra is None {
        (None, s1)
    } else {
        let (rb, s2) = expand(table, b, depth, s1);
        if rb is None {
            (None, s2)
        } else {
            (Some((ra->0, rb->0)), s2)
        }
    }
}

/// The expansion of three operands in order, stopping at the first failure.
pub open spec fn expand_three(table: RuleTable, a: Node, b: Node, c: Node, depth: nat, s: u64) -> (
    Option<(Node, Node, Node)>,
    u64,
)
    decreases depth + 1, 0nat, a.size() + b.size() + c.size(), 3nat,
{
    let (ra, s1) = expand(table, a, depth, s);
    if ra is None {
        (None, s1)
    } else {
        let (rbc, s2) = expand_two(table, b, c, depth, s1);
        match rbc {
            Some((y, z)) => (Some((ra->0, y, z)), s2),
            None => (None, s2),
        }
    }
}

/// The expansion of four operands in order, stopping at the first failure.
pub open spec fn expand_four(
    table: RuleTable,
    a: Node,
    b: Node,
    c: Node,
    d: Node,
    depth: nat,
    s: u64,
) -> (Option<(Node, Node, Node, Node)>, u64)
    decreases depth + 1, 0nat, a.size() + b.size() + c.size() + d.size(), 4nat,
{
    let (ra, s1) = expand(table, a, depth, s);
    if ra is None {
        (None, s1)
    } else {
        let (rbcd, s2) = expand_three(table, b, c, d, depth, s1);
        match rbcd {
            Some((x, y, z)) => (Some((ra->0, x, y, z)), s2),
            None => (None, s2),
        }
    }
}

/// One alternative of a rule: a template and its weight, in billionths.
#[derive(Clone, Debug)]
pub struct GrammarBranch {
    pub node: Box<Node>,
    pub probability: u32,
}

/// The alternatives of one rule, in the order in which draws walk them.
#[derive(Clone, Debug)]
pub struct GrammarBranches {
    pub alternates: Vec<GrammarBranch>,
}

impl View for GrammarBranches {
    type V = Seq<(Node, u32)>;

    open spec fn view(&self) -> Seq<(Node, u32)> {
        self.alternates@.map_values(|b: GrammarBranch| (*b.node, b.probability))
    }
}

/// The rule table that a list of rules stands for.
pub open spec fn table_of(rules: Seq<GrammarBranches>) -> RuleTable {
    rules.map_values(|b: GrammarBranches| b@)
}

impl GrammarBranches {
    /// A rule without alternatives, to be filled by `add_alternate`.
    pub fn new() -> (r: Self)
        ensures
            r@ == Seq::<(Node, u32)>::empty(),
    {
        let r = GrammarBranches { alternates: Vec::new() };
        assert(r@ =~= Seq::<(Node, u32)>::empty());
        r
    }

    /// Appends an alternative after the present ones.
    pub fn add_alternate(&mut self, node: Node, probability: u32)
        ensures
            final(self)@ == old(self)@.push((node, probability)),
    {
        self.alternates.push(GrammarBranch { node: Box::new(node), probability });
        assert(final(self)@ =~= old(self)@.push((node, probability)));
    }
}

/// The alternative that draw `p` selects from `branches`.
fn select_branch(branches: &GrammarBranches, p: u64) -> (r: Option<usize>)
    requires
        p < UNIT,
    ensures
        r matches Some(i) ==> i < branches@.len() && selected_branch(branches@, p as nat) == Some(
            i as nat,
        ),
        r is None ==> selected_branch(branches@, p as nat) is None,
{
    let ghost alts = branches@;
    let mut i: usize = 0;
    let mut acc: u64 = 0;
    while i < branches.alternates.len()
        invariant
            alts == branches@,
            i <= alts.len(),
            acc <= p < UNIT,
            selected_branch(alts, p as nat) == pick_from(alts, p as nat, i as nat, acc as nat),
        decreases alts.len() - i,
    {
        acc = acc + branches.alternates[i].probability as u64;
        if acc >= p {
            return Some(i);
        }
        i = i + 1;
    }
    None
}

/// Expands template `node` under `depth`, drawing from `rng` as needed.
fn gen_node(
    rules: &Vec<GrammarBranches>,
    rng: &mut LinearCongruentialGenerator,
    node: &Node,
    depth: u32,
) -> (r: Option<Node>)
    requires
        table_wf(table_of(rules@)),
        refs_below(*node, rules@.len()),
    ensures
        (r, final(rng).state) == expand(table_of(rules@), *node, depth as nat, old(rng).state),
        r matches Some(t) ==> t.is_generated(),
    decreases depth + 1, 0nat, node.size(), 1nat,
{
    match node {
        Node::X => Some(Node::X),
        Node::Y => Some(Node::Y),
        Node::Number(v) => Some(Node::Number(*v)),
        Node::Boolean(b) => Some(Node::Boolean(*b)),
        Node::Random => {
            let p = rng.next_unit();
            Some(Node::Number(2 * (p as i64) - UNIT as i64))
        },
        Node::Rule(i) => {
            if depth == 0 {
                None
            } else {
                expand_rule(rules, rng, *i, depth - 1)
            }
        },
        Node::Sqrt(a) => match gen_node(rules, rng, a, depth) {
            Some(x) => Some(Node::Sqrt(Box::new(x))),
            None => None,
        },
        Node::Sin(a) => match gen_node(rules, rng, a, depth) {
            Some(x) => Some(Node::Sin(Box::new(x))),
            None => None,
        },
        Node::Cos(a) => match gen_node(rules, rng, a, depth) {
            Some(x) => Some(Node::Cos(Box::new(x))),
            None => None,
        },
        Node::Exp(a) => match gen_node(rules, rng, a, depth) {
            Some(x) => Some(Node::Exp(Box::new(x))),
            None => None,
        },
        Node::Add(a, b) => match gen_two(rules, rng, a, b, depth) {
            Some((x, y)) => Some(Node::Add(Box::new(x), Box::new(y))),
            None => None,
        },
        Node::Mult(a, b) => match gen_two(rules, rng, a, b, depth) {
            Some((x, y)) => Some(Node::Mult(Box::new(x), Box::new(y))),
            None => None,
        },
        Node::Div(a, b) => match gen_two(rules, rng, a, b, depth) {
            Some((x, y)) => Some(Node::Div(Box::new(x), Box::new(y))),
            None => None,
        },
        Node::Modulo(a, b) => match gen_two(rules, rng, a, b, depth) {
            Some((x, y)) => Some(Node::Modulo(Box::new(x), Box::new(y))),
            None => None,
        },
        Node::Gt(a, b) => match gen_two(rules, rng, a, b, depth) {
            Some((x, y)) => Some(Node::Gt(Box::new(x), Box::new(y))),
            None => None,
        },
        Node::Triple(a, b, c) => match gen_three(rules, rng, a, b, c, depth) {
            Some((x, y, z)) => Some(Node::Triple(Box::new(x), Box::new(y), Box::new(z))),
            None => None,
        },
        Node::If { cond, then_node, else_node } => match gen_three(
            rules,
            rng,
            cond,
            then_node,
            else_node,
            depth,
        ) {
            Some((x, y, z)) => Some(
                Node::If { cond: Box::new(x), then_node: Box::new(y), else_node: Box::new(z) },
            ),
            None => None,
        },
        Node::Mix(a, b, c, d) => match gen_four(rules, rng, a, b, c, d, depth) {
            Some((w, x, y, z)) => Some(
                Node::Mix(Box::new(w), Box::new(x), Box::new(y), Box::new(z)),
            ),
            None => None,
        },
    }
}

/// Expands two operands in order, stopping at the first failure.
fn gen_two(
    rules: &Vec<GrammarBranches>,
    rng: &mut LinearCongruentialGenerator,
    a: &Node,
    b: &Node,
    depth: u32,
) -> (r: Option<(Node, Node)>)
    requires
        table_wf(table_of(rules@)),
        refs_below(*a, rules@.len()),
        refs_below(*b, rules@.len()),
    ensures
        (r, final(rng).state) == expand_two(table_of(rules@), *a, *b, depth as nat, old(rng).state),
        r matches Some((x, y)) ==> x.is_generated() && y.is_generated(),
    decreases depth + 1, 0nat, a.size() + b.size(), 2nat,
{
    let x = match gen_node(rules, rng, a, depth) {
        Some(x) => x,
        None => return None,
    };
    let y = match gen_node(rules, rng, b, depth) {
        Some(y) => y,
        None => return None,
    };
    Some((x, y))
}

/// Expands three operands in order, stopping at the first failure.
fn gen_three(
    rules: &Vec<GrammarBranches>,
    rng: &mut LinearCongruentialGenerator,
    a: &Node,
    b: &Node,
    c: &Node,
    depth: u32,
) -> (r: Option<(Node, Node, Node)>)
    requires
        table_wf(table_of(rules@)),
        refs_below(*a, rules@.len()),
        refs_below(*b, rules@.len()),
        refs_below(*c, rules@.len()),
    ensures
        (r, final(rng).state) == expand_three(
            table_of(rules@),
            *a,
            *b,
            *c,
            depth as nat,
            old(rng).state,
        ),
        r matches Some((x, y, z)) ==> x.is_generated() && y.is_generated() && z.is_generated(),
    decreases depth + 1, 0nat, a.size() + b.size() + c.size(), 3nat,
{
    let x = match gen_node(rules, rng, a, depth) {
        Some(x) => x,
        None => return None,
    };
    match gen_two(rules, rng, b, c, depth) {
        Some((y, z)) => Some((x, y, z)),
        None => None,
    }
}

/// Expands four operands in order, stopping at the first failure.
fn gen_four(
    rules: &Vec<GrammarBranches>,
    rng: &mut LinearCongruentialGenerator,
    a: &Node,
    b: &Node,
    c: &Node,
    d: &Node,
    depth: u32,
) -> (r: Option<(Node, Node, Node, Node)>)
    requires
        table_wf(table_of(rules@)),
        refs_below(*a, rules@.len()),
        refs_below(*b, rules@.len()),
        refs_below(*c, rules@.len()),
        refs_below(*d, rules@.len()),
    ensures
        (r, final(rng).state) == expand_four(
            table_of(rules@),
            *a,
            *b,
            *c,
            *d,
            depth as nat,
            old(rng).state,
        ),
        r matches Some((w, x, y, z)) ==> w.is_generated() && x.is_generated() && y.is_generated()
            && z.is_generated(),
    decreases depth + 1, 0nat, a.size() + b.size() + c.size() + d.size(), 4nat,
{
    let w = match gen_node(rules, rng, a, depth) {
        Some(w) => w,
        None => return None,
    };
    match gen_three(rules, rng, b, c, d, depth) {
        Some((x, y, z)) => Some((w, x, y, z)),
        None => None,
    }
}

/// One attempt at rule `branches`, the rule at index `rule`: a draw, and
/// the expansion of the alternative that it selects.
fn try_once(
    rules: &Vec<GrammarBranches>,
    rng: &mut LinearCongruentialGenerator,
    rule: Ghost<nat>,
    branches: &GrammarBranches,
    depth: u32,
) -> (r: Option<Node>)
    requires
        table_wf(table_of(rules@)),
        rule < rules@.len(),
        *branches == rules@[rule@ as int],
        depth > 0,
    ensures
        (r, final(rng).state) == attempt(table_of(rules@), rule@, depth as nat, old(rng).state),
        r matches Some(t) ==> t.is_generated(),
    decreases depth, 1nat, 0nat, 0nat,
{
    let ghost table = table_of(rules@);
    assert(branches@ == table[rule@ as int]);
    let p = rng.next_unit();
    match select_branch(branches, p) {
        Some(i) => {
            assert(refs_below(table[rule@ as int][i as int].0, table.len()));
            gen_node(rules, rng, &branches.alternates[i].node, depth - 1)
        },
        None => None,
    }
}

/// Generates a tree from `rule` under `depth`: up to `MAX_ATTEMPTS` draws,
/// each selecting an alternative whose template is then expanded under
/// `depth - 1`; the first expansion that succeeds is the result.
fn expand_rule(
    rules: &Vec<GrammarBranches>,
    rng: &mut LinearCongruentialGenerator,
    rule: usize,
    depth: u32,
) -> (r: Option<Node>)
    requires
        table_wf(table_of(rules@)),
        depth > 0 ==> rule < rules@.len(),
    ensures
        (r, final(rng).state) == generate(
            table_of(rules@),
            rule as nat,
            depth as nat,
            old(rng).state,
        ),
        r matches Some(t) ==> t.is_generated(),
    decreases depth, 2nat, 0nat, 0nat,
{
    if depth == 0 {
        return None;
    }
    let ghost table = table_of(rules@);
    let ghost s0 = rng.state;
    let branches = &rules[rule];
    let mut tried: u32 = 0;
    while tried < MAX_ATTEMPTS
        invariant
            table == table_of(rules@),
            table_wf(table),
            rule < rules@.len(),
            *branches == rules@[rule as int],
            0 < depth,
            tried <= MAX_ATTEMPTS,
            s0 == old(rng).state,
            generate(table, rule as nat, depth as nat, s0) == attempts(
                table,
                rule as nat,
                depth as nat,
                (MAX_ATTEMPTS - tried) as nat,
                rng.state,
            ),
        decreases MAX_ATTEMPTS - tried,
    {
        let r = try_once(rules, rng, Ghost(rule as nat), branches, depth);
        if r.is_some() {
            assert(generate(table, rule as nat, depth as nat, s0) == (r, rng.state));
            return r;
        }
        tried = tried + 1;
    }
    None
}

/// The weight of one alternative in thirteen, in billionths.
pub const ONE_IN_THIRTEEN: u32 = 76_923_077;

/// The weight of three alternatives in thirteen, in billionths.
pub const THREE_IN_THIRTEEN: u32 = 230_769_231;

/// The weight of one alternative in three, in billionths.
pub const ONE_IN_THREE: u32 = 333_333_333;

/// The weight of the last of three alternatives, which brings the sum to one.
pub const LAST_IN_THREE: u32 = 333_333_334;

/// A reference to the colour-channel rule of the default grammar.
pub open spec fn channel() -> Box<Node> {
    Box::new(Node::Rule(1))
}

/// The default grammar, a colour program over three channel expressions:
///
/// - rule 0, the entry: `Triple(C, C, C)`;
/// - rule 1, a channel `C`: a leaf `A` (1/13), `Add(C, C)` (1/13),
///   `Mult(C, C)` (1/13), `Sin(C)` (3/13), `Cos(C)` (3/13), `Exp(C)` (1/13),
///   `Sqrt(C)` (1/13), `Div(C, C)` (1/13), `Mix(C, C, C, C)` (1/13);
/// - rule 2, a leaf `A`: `X`, `Y` or a random number, a third each.
pub open spec fn default_table() -> RuleTable {
    seq![
        seq![(Node::Triple(channel(), channel(), channel()), UNIT as u32)],
        seq![
            (Node::Rule(2), ONE_IN_THIRTEEN),
            (Node::Add(channel(), channel()), ONE_IN_THIRTEEN),
            (Node::Mult(channel(), channel()), ONE_IN_THIRTEEN),
            (Node::Sin(channel()), THREE_IN_THIRTEEN),
            (Node::Cos(channel()), THREE_IN_THIRTEEN),
            (Node::Exp(channel()), ONE_IN_THIRTEEN),
            (Node::Sqrt(channel()), ONE_IN_THIRTEEN),
            (Node::Div(channel(), channel()), ONE_IN_THIRTEEN),
            (Node::Mix(channel(), channel(), channel(), channel()), ONE_IN_THIRTEEN),
        ],
        seq![(Node::X, ONE_IN_THREE), (Node::Y, ONE_IN_THREE), (Node::Random, LAST_IN_THREE)],
    ]
}

/// A rule table and the generator that its generation draws from.
#[derive(Debug)]
pub struct Grammar {
    pub rules: Vec<GrammarBranches>,
    rng: LinearCongruentialGenerator,
}

impl Grammar {
    /// The rule table of the grammar.
    pub closed spec fn table(&self) -> RuleTable {
        table_of(self.rules@)
    }

    /// The state of the grammar's generator.
    pub closed spec fn state(&self) -> u64 {
        self.rng.state
    }

    /// The grammar can generate: see `table_wf`.
    pub open spec fn wf(&self) -> bool {
        table_wf(self.table())
    }

    fn add_rule(&mut self, branch: GrammarBranches)
        ensures
            final(self).table() == old(self).table().push(branch@),
            final(self).state() == old(self).state(),
    {
        self.rules.push(branch);
        assert(final(self).table() =~= old(self).table().push(branch@));
    }

    /// The default grammar (see `default_table`) with its generator seeded
    /// with `seed`.
    pub fn default(seed: u64) -> (r: Self)
        ensures
            r.table() == default_table(),
            r.state() == seed,
            r.wf(),
    {
        let mut grammar = Grammar {
            rules: Vec::new(),
            rng: LinearCongruentialGenerator::new(seed),
        };

        let mut entry = GrammarBranches::new();
        entry.add_alternate(
            Node::Triple(Box::new(Node::Rule(1)), Box::new(Node::Rule(1)), Box::new(Node::Rule(1))),
            UNIT as u32,
        );
        grammar.add_rule(entry);

        let mut channel_rule = GrammarBranches::new();
        channel_rule.add_alternate(Node::Rule(2), ONE_IN_THIRTEEN);
        channel_rule.add_alternate(
            Node::Add(Box::new(Node::Rule(1)), Box::new(Node::Rule(1))),
            ONE_IN_THIRTEEN,
        );
        channel_rule.add_alternate(
            Node::Mult(Box::new(Node::Rule(1)), Box::new(Node::Rule(1))),
            ONE_IN_THIRTEEN,
        );
        channel_rule.add_alternate(Node::Sin(Box::new(Node::Rule(1))), THREE_IN_THIRTEEN);
        channel_rule.add_alternate(Node::Cos(Box::new(Node::Rule(1))), THREE_IN_THIRTEEN);
        channel_rule.add_alternate(Node::Exp(Box::new(Node::Rule(1))), ONE_IN_THIRTEEN);
        channel_rule.add_alternate(Node::Sqrt(Box::new(Node::Rule(1))), ONE_IN_THIRTEEN);
        channel_rule.add_alternate(
            Node::Div(Box::new(Node::Rule(1)), Box::new(Node::Rule(1))),
            ONE_IN_THIRTEEN,
        );
        channel_rule.add_alternate(
            Node::Mix(
                Box::new(Node::Rule(1)),
                Box::new(Node::Rule(1)),
                Box::new(Node::Rule(1)),
                Box::new(Node::Rule(1)),
            ),
            ONE_IN_THIRTEEN,
        );
        grammar.add_rule(channel_rule);

        let mut leaf_rule = GrammarBranches::new();
        leaf_rule.add_alternate(Node::X, ONE_IN_THREE);
        leaf_rule.add_alternate(Node::Y, ONE_IN_THREE);
        leaf_rule.add_alternate(Node::Random, LAST_IN_THREE);
        grammar.add_rule(leaf_rule);

        proof {
            let t = default_table();
            assert(grammar.table()[0] =~= t[0]);
            assert(grammar.table()[1] =~= t[1]);
            assert(grammar.table()[2] =~= t[2]);
            assert(grammar.table() =~= t);
            lemma_default_table_wf();
        }
        grammar
    }

    /// A grammar of the given rules, with its generator seeded with `seed`.
    pub fn build(rules: Vec<GrammarBranches>, seed: u64) -> (r: Self)
        ensures
            r.table() == table_of(rules@),
            r.state() == seed,
    {
        Grammar { rules, rng: LinearCongruentialGenerator::new(seed) }
    }

    /// Generates a tree from `rule` under the depth budget `depth`; see
    /// `generate`. The rules stay as they are; the generator moves on by
    /// the draws that generation made.
    pub fn gen_rule(&mut self, rule: usize, depth: u32) -> (r: Option<Box<Node>>)
        requires
            old(self).wf(),
            depth > 0 ==> rule < old(self).table().len(),
        ensures
            final(self).table() == old(self).table(),
            generate(old(self).table(), rule as nat, depth as nat, old(self).state()) == (
                match r {
                    Some(t) => Some(*t),
                    None => None,
                },
                final(self).state(),
            ),
            r matches Some(t) ==> t.is_generated(),
            depth == 0 ==> r is None && final(self).state() == old(self).state(),
    {
        let mut rng = self.rng;
        let r = expand_rule(&self.rules, &mut rng, rule, depth);
        self.rng = rng;
        match r {
            Some(t) => Some(Box::new(t)),
            None => None,
        }
    }
}

/// The default grammar can generate.
proof fn lemma_default_table_wf()
    ensures
        table_wf(default_table()),
{
    reveal_with_fuel(refs_below, 2);
    let t = default_table();
    assert(t[0].len() > 0 && t[1].len() > 0 && t[2].len() > 0);
    assert forall|i: int, j: int| 0 <= i < t.len() && 0 <= j < t[i].len() implies
        #[trigger] refs_below(t[i][j].0, t.len()) by {
        if i == 0 {
        } else if i == 1 {
            assert(j == 0 || j == 1 || j == 2 || j == 3 || j == 4 || j == 5 || j == 6 || j == 7
                || j == 8);
        } else {
            assert(j == 0 || j == 1 || j == 2);
        }
    }
}

/// Generation is deterministic: two grammars with the same rule table and
/// the same generator state, such as two built from the same rules and
/// seed, generate the same tree from the same rule and depth budget, and
/// leave their generators in the same state.
pub proof fn lemma_generation_deterministic(g1: Grammar, g2: Grammar, rule: nat, depth: nat)
    requires
        g1.table() == g2.table(),
        g1.state() == g2.state(),
    ensures
        generate(g1.table(), rule, depth, g1.state()) == generate(
            g2.table(),
            rule,
            depth,
            g2.state(),
        ),
{
}

/// The alternative that a draw selects is the first whose running sum of
/// weights reaches the draw, and no alternative is selected only where the
/// running sums all stay below it.
pub proof fn lemma_selected_branch_is_first(alts: Seq<(Node, u32)>, p: nat)
    ensures
        selected_branch(alts, p) matches Some(i) ==> i < alts.len() && prefix_weight(alts, i + 1)
            >= p && forall|j: nat| j < i ==> #[trigger] prefix_weight(alts, j + 1) < p,
        selected_branch(alts, p) is None ==> forall|j: nat|
            j < alts.len() ==> #[trigger] prefix_weight(alts, j + 1) < p,
{
    lemma_pick_from(alts, p, 0);
}

/// The sum of the weights of the first `n` alternatives.
pub open spec fn prefix_weight(alts: Seq<(Node, u32)>, n: nat) -> nat
    decreases n,
{
    if n == 0 || n > alts.len() {
        0
    } else {
        (prefix_weight(alts, (n - 1) as nat) + alts[n - 1].1) as nat
    }
}

proof fn lemma_pick_from(alts: Seq<(Node, u32)>, p: nat, i: nat)
    requires
        i <= alts.len(),
        forall|j: nat| j < i ==> #[trigger] prefix_weight(alts, j + 1) < p,
    ensures
        pick_from(alts, p, i, prefix_weight(alts, i)) matches Some(k) ==> i <= k < alts.len()
            && prefix_weight(alts, k + 1) >= p && forall|j: nat| j < k ==> #[trigger] prefix_weight(
            alts,
            j + 1,
        ) < p,
        pick_from(alts, p, i, prefix_weight(alts, i)) is None ==> forall|j: nat|
            j < alts.len() ==> #[trigger] prefix_weight(alts, j + 1) < p,
    decreases alts.len() - i,
{
    if i < alts.len() {
        assert(prefix_weight(alts, i + 1) == prefix_weight(alts, i) + alts[i as int].1);
        if prefix_weight(alts, i + 1) < p {
            assert forall|j: nat| j < i + 1 implies #[trigger] prefix_weight(alts, j + 1) < p by {
                if j < i {
                } else {
                }
            }
            lemma_pick_from(alts, p, i + 1);
        }
    }
}

/// The entry rule of the default grammar yields colour programs: whatever
/// the depth budget and generator state, a tree that it generates is a
/// `Triple`.
pub proof fn lemma_default_entry_is_triple(depth: nat, s: u64)
    ensures
        generate(default_table(), 0, depth, s).0 matches Some(t) ==> t is Triple,
{
    if depth > 0 {
        lemma_default_entry_attempts(depth, MAX_ATTEMPTS as nat, s);
    }
}

proof fn lemma_default_entry_attempts(depth: nat, left: nat, s: u64)
    requires
        depth > 0,
    ensures
        attempts(default_table(), 0, depth, left, s).0 matches Some(t) ==> t is Triple,
    decreases left,
{
    if left > 0 {
        lemma_default_entry_attempt(depth, s);
        let s1 = attempt(default_table(), 0, depth, s).1;
        lemma_default_entry_attempts(depth, (left - 1) as nat, s1);
    }
}

proof fn lemma_default_entry_attempt(depth: nat, s: u64)
    requires
        depth > 0,
    ensures
        attempt(default_table(), 0, depth, s).0 matches Some(t) ==> t is Triple,
{
    let entry = default_table()[0];
    let p = draw_of(next_state(s));
    assert(entry.len() == 1);
    lemma_selected_branch_is_first(entry, p);
    if let Some(i) = selected_branch(entry, p) {
        let t = entry[i as int].0;
        assert(t is Triple);
        lemma_expand_triple(default_table(), t, (depth - 1) as nat, next_state(s));
    }
}

/// Expanding a `Triple` template yields a `Triple`, if anything.
proof fn lemma_expand_triple(table: RuleTable, t: Node, depth: nat, s: u64)
    requires
        t is Triple,
    ensures
        expand(table, t, depth, s).0 matches Some(r) ==> r is Triple,
{
}

} // verus!
