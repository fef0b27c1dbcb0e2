//! Which documents the sample generator can work through: a structure in which
//! every chain of nested nodes ends, and constraints that never ask it to draw from
//! an empty range. The check is conservative: a bound that only generation can
//! evaluate counts as unsafe where its value matters.
use vstd::prelude::*;

use crate::ast::{
    DocCharSetSpec, DocConstraint, DocExpression, DocNodeKind, DocPropertyTag, DocStructureNode,
};

verus! {

/// Whether `c` asks for a simple graph.
pub open spec fn is_simple_property(c: DocConstraint) -> bool {
    c matches DocConstraint::Property { tag: DocPropertyTag::Simple, .. }
}

/// Whether the arena slot `slot` holds a constraint that asks for a simple graph.
pub open spec fn slot_is_simple(slot: Option<DocConstraint>) -> bool {
    slot matches Some(c) && is_simple_property(c)
}

/// Whether some constraint of `arena` asks for a simple graph.
pub open spec fn has_simple_property(arena: Seq<Option<DocConstraint>>) -> bool {
    exists|i: int| 0 <= i < arena.len() && #[trigger] slot_is_simple(arena[i])
}

/// Whether `c` leaves the generator a nonempty range to draw from, given whether the
/// document asks for a simple graph anywhere:
/// - a character range must not end before it starts;
/// - a string length takes literal bounds, the larger of which is not 0 (a drawn
///   length runs from the lower bound, at least 1, up to the larger bound);
/// - where a simple graph is asked for, a value range has a literal, nonzero upper
///   bound (the graph's vertices run from 1 up to that bound).
pub open spec fn constraint_is_generable(c: DocConstraint, simple: bool) -> bool {
    match c {
        DocConstraint::CharSet { charset, .. } => match charset {
            DocCharSetSpec::Range(a, b) => (a as u32) <= (b as u32),
            _ => true,
        },
        DocConstraint::StringLength { min, max, .. } => match (min, max) {
            (DocExpression::Lit(x), DocExpression::Lit(y)) => (if x >= y { x } else { y }) != 0,
            _ => false,
        },
        DocConstraint::Range { upper, .. } => simple ==> (upper matches DocExpression::Lit(u)
            && u != 0),
        _ => true,
    }
}

/// Whether the arena slot `slot` is empty or holds a constraint that leaves the
/// generator a nonempty range.
pub open spec fn slot_is_generable(slot: Option<DocConstraint>, simple: bool) -> bool {
    slot matches Some(c) ==> constraint_is_generable(c, simple)
}

/// Whether every constraint of `arena` leaves the generator a nonempty range.
pub open spec fn constraints_are_generable(arena: Seq<Option<DocConstraint>>) -> bool {
    forall|i: int|
        0 <= i < arena.len() ==> #[trigger] slot_is_generable(arena[i], has_simple_property(arena))
}

/// Whether `c` asks for a simple graph.
fn asks_simple_graph(c: &DocConstraint) -> (b: bool)
    ensures
        b == is_simple_property(*c),
{
    match c {
        DocConstraint::Property { tag: DocPropertyTag::Simple, .. } => true,
        _ => false,
    }
}

/// Whether some constraint of `arena` asks for a simple graph.
pub fn any_simple_graph(arena: &Vec<Option<DocConstraint>>) -> (b: bool)
    ensures
        b == has_simple_property(arena@),
{
    let mut i: usize = 0;
    while i < arena.len()
        invariant
            i <= arena.len(),
            forall|j: int| 0 <= j < i ==> !#[trigger] slot_is_simple(arena@[j]),
        decreases arena.len() - i,
    {
        if let Some(c) = &arena[i] {
            if asks_simple_graph(c) {
                assert(slot_is_simple(arena@[i as int]));
                return true;
            }
        }
        i += 1;
    }
    false
}

/// Whether `c` leaves the generator a nonempty range, given whether the document
/// asks for a simple graph.
pub fn constraint_generable(c: &DocConstraint, simple: bool) -> (b: bool)
    ensures
        b == constraint_is_generable(*c, simple),
{
    match c {
        DocConstraint::CharSet { charset: DocCharSetSpec::Range(a, b), .. } => {
            (*a as u32) <= (*b as u32)
        },
        DocConstraint::StringLength { min: DocExpression::Lit(x), max: DocExpression::Lit(y), .. } => {
            let larger: i64 = if *x >= *y {
                *x
            } else {
                *y
            };
            larger != 0
        },
        DocConstraint::StringLength { .. } => false,
        DocConstraint::Range { upper, .. } => {
            if !simple {
                true
            } else {
                match upper {
                    DocExpression::Lit(u) => *u != 0,
                    _ => false,
                }
            }
        },
        _ => true,
    }
}

/// Whether every constraint of `arena` leaves the generator a nonempty range to
/// draw from (see `constraint_is_generable`).
pub fn constraints_generable(arena: &Vec<Option<DocConstraint>>) -> (b: bool)
    ensures
        b == constraints_are_generable(arena@),
{
    let simple = any_simple_graph(arena);
    let mut i: usize = 0;
    while i < arena.len()
        invariant
            i <= arena.len(),
            simple == has_simple_property(arena@),
            forall|j: int| 0 <= j < i ==> #[trigger] slot_is_generable(arena@[j], simple),
        decreases arena.len() - i,
    {
        if let Some(c) = &arena[i] {
            if !constraint_generable(c, simple) {
                assert(!slot_is_generable(arena@[i as int], simple));
                return false;
            }
        }
        i += 1;
    }
    true
}

/// Whether `c` is listed directly under a node of kind `kind`: in a repeat's body,
/// a tuple's elements, a sequence's children, a section's header or body, or one of
/// a choice's variants.
pub open spec fn lists_child(kind: DocNodeKind, c: u64) -> bool {
    match kind {
        DocNodeKind::Tuple { elements } => elements@.contains(c),
        DocNodeKind::Repeat { body, .. } => body@.contains(c),
        DocNodeKind::Section { header, body } => header == Some(c) || body@.contains(c),
        DocNodeKind::Sequence { children } => children@.contains(c),
        DocNodeKind::Choice { variants, .. } => exists|j: int|
            0 <= j < variants@.len() && #[trigger] variants@[j].1@.contains(c),
        _ => false,
    }
}

/// The node stored under `id`, if any.
pub open spec fn node_at(nodes: Seq<Option<DocStructureNode>>, id: u64) -> Option<DocStructureNode> {
    if id < nodes.len() {
        nodes[id as int]
    } else {
        None
    }
}

/// Whether every chain of stored nodes that starts at `id`, each listed under the
/// one before, holds at most `h` nodes.
pub open spec fn nested_within(nodes: Seq<Option<DocStructureNode>>, id: u64, h: nat) -> bool
    decreases h,
{
    match node_at(nodes, id) {
        Some(n) => if h == 0 {
            false
        } else {
            forall|c: u64| #[trigger]
                lists_child(n.kind, c) ==> nested_within(nodes, c, (h - 1) as nat)
        },
        None => true,
    }
}

/// Whether no chain of nested nodes is longer than the arena, that is, whether the
/// structure holds no cycle and walking down from any node ends.
pub open spec fn structure_is_finite(nodes: Seq<Option<DocStructureNode>>) -> bool {
    forall|id: u64| #[trigger] nested_within(nodes, id, nodes.len())
}

/// Whether the generator can work through the document with structure arena
/// `nodes` and constraint arena `constraints`.
pub open spec fn generation_is_safe_spec(
    nodes: Seq<Option<DocStructureNode>>,
    constraints: Seq<Option<DocConstraint>>,
) -> bool {
    structure_is_finite(nodes) && constraints_are_generable(constraints)
}

/// Whether `c` lies beyond `level` or has the entry `true` there.
pub open spec fn child_settled(level: Seq<bool>, c: u64) -> bool {
    c >= level.len() || level[c as int]
}

/// Whether `c` lies beyond `level` or has the entry `true` there.
fn settled(level: &Vec<bool>, c: u64) -> (b: bool)
    ensures
        b == child_settled(level@, c),
{
    if c < level.len() as u64 {
        level[c as usize]
    } else {
        true
    }
}

/// Whether every id of `ids` is settled in `level`.
fn ids_settled(ids: &Vec<u64>, level: &Vec<bool>) -> (b: bool)
    ensures
        b == (forall|c: u64| ids@.contains(c) ==> #[trigger] child_settled(level@, c)),
{
    let mut i: usize = 0;
    while i < ids.len()
        invariant
            i <= ids.len(),
            forall|j: int| 0 <= j < i ==> child_settled(level@, #[trigger] ids@[j]),
        decreases ids.len() - i,
    {
        if !settled(level, ids[i]) {
            assert(ids@.contains(ids@[i as int]));
            return false;
        }
        i += 1;
    }
    true
}

/// Whether every node listed directly under a node of kind `kind` is settled in
/// `level`.
fn kind_settled(kind: &DocNodeKind, level: &Vec<bool>) -> (b: bool)
    ensures
        b == (forall|c: u64| lists_child(*kind, c) ==> #[trigger] child_settled(level@, c)),
{
    match kind {
        DocNodeKind::Tuple { elements } => ids_settled(elements, level),
        DocNodeKind::Repeat { body, .. } => ids_settled(body, level),
        DocNodeKind::Sequence { children } => ids_settled(children, level),
        DocNodeKind::Section { header, body } => {
            let header_ok = match header {
                Some(h) => settled(level, *h),
                None => true,
            };
            header_ok && ids_settled(body, level)
        },
        DocNodeKind::Choice { variants, .. } => {
            let mut i: usize = 0;
            while i < variants.len()
                invariant
                    i <= variants.len(),
                    *kind is Choice,
                    (*kind)->variants == *variants,
                    forall|j: int, c: u64|
                        0 <= j < i && #[trigger] variants@[j].1@.contains(c) ==> child_settled(
                            level@,
                            c,
                        ),
                decreases variants.len() - i,
            {
                if !ids_settled(&variants[i].1, level) {
                    let ghost c = choose|c: u64|
                        variants@[i as int].1@.contains(c) && !child_settled(level@, c);
                    assert(variants@[i as int].1@.contains(c));
                    assert(lists_child(*kind, c));
                    return false;
                }
                i += 1;
            }
            true
        },
        _ => true,
    }
}

/// One entry per slot of `nodes`: whether every chain that starts there holds at
/// most one node more than `level` allows.
fn next_level(nodes: &Vec<Option<DocStructureNode>>, level: &Vec<bool>, Ghost(h): Ghost<nat>) -> (r:
    Vec<bool>)
    requires
        level@.len() == nodes@.len(),
        forall|id: u64|
            #![trigger nested_within(nodes@, id, h)]
            #![trigger child_settled(level@, id)]
            nested_within(nodes@, id, h) == child_settled(level@, id),
    ensures
        r@.len() == nodes@.len(),
        forall|id: u64|
            #![trigger nested_within(nodes@, id, h + 1)]
            #![trigger child_settled(r@, id)]
            nested_within(nodes@, id, h + 1) == child_settled(r@, id),
{
    let mut r: Vec<bool> = Vec::new();
    let mut i: usize = 0;
    while i < nodes.len()
        invariant
            i <= nodes.len(),
            r@.len() == i,
            level@.len() == nodes@.len(),
            forall|id: u64|
                #![trigger nested_within(nodes@, id, h)]
                #![trigger child_settled(level@, id)]
                nested_within(nodes@, id, h) == child_settled(level@, id),
            forall|j: int| 0 <= j < i ==> #[trigger] r@[j] == nested_within(nodes@, j as u64, h + 1),
        decreases nodes.len() - i,
    {
        let ok = match &nodes[i] {
            Some(n) => kind_settled(&n.kind, level),
            None => true,
        };
        proof {
            let id = i as u64;
            assert(node_at(nodes@, id) == nodes@[i as int]);
            if let Some(n) = nodes@[i as int] {
                assert(ok == (forall|c: u64| #[trigger]
                    lists_child(n.kind, c) ==> nested_within(nodes@, c, h)));
            }
        }
        r.push(ok);
        i += 1;
    }
    assert forall|id: u64| #![auto] nested_within(nodes@, id, h + 1) == child_settled(r@, id) by {
        if id < nodes@.len() {
            assert(r@[id as int] == nested_within(nodes@, (id as int) as u64, h + 1));
        }
    }
    r
}

/// Whether every chain of nested nodes in `nodes` is no longer than the arena, that
/// is, whether walking the structure down from any node ends.
pub fn structure_nesting_is_finite(nodes: &Vec<Option<DocStructureNode>>) -> (b: bool)
    ensures
        b == structure_is_finite(nodes@),
{
    let mut level: Vec<bool> = Vec::new();
    let mut i: usize = 0;
    while i < nodes.len()
        invariant
            i <= nodes.len(),
            level@.len() == i,
            forall|j: int| 0 <= j < i ==> #[trigger] level@[j] == (nodes@[j] is None),
        decreases nodes.len() - i,
    {
        level.push(nodes[i].is_none());
        i += 1;
    }
    assert forall|id: u64| #![auto] nested_within(nodes@, id, 0) == child_settled(level@, id) by {
        if id < nodes@.len() {
            assert(level@[id as int] == (nodes@[id as int] is None));
        }
    }
    let mut k: usize = 0;
    while k < nodes.len()
        invariant
            k <= nodes.len(),
            level@.len() == nodes@.len(),
            forall|id: u64|
                #![trigger nested_within(nodes@, id, k as nat)]
                #![trigger child_settled(level@, id)]
                nested_within(nodes@, id, k as nat) == child_settled(level@, id),
        decreases nodes.len() - k,
    {
        level = next_level(nodes, &level, Ghost(k as nat));
        k += 1;
    }
    let mut j: usize = 0;
    while j < level.len()
        invariant
            j <= level.len(),
            level@.len() == nodes@.len(),
            forall|id: u64|
                #![trigger nested_within(nodes@, id, nodes@.len())]
                #![trigger child_settled(level@, id)]
                nested_within(nodes@, id, nodes@.len()) == child_settled(level@, id),
            forall|x: int| 0 <= x < j ==> #[trigger] level@[x],
        decreases level.len() - j,
    {
        if !level[j] {
            assert(!child_settled(level@, j as u64));
            return false;
        }
        j += 1;
    }
    assert forall|id: u64| #[trigger] nested_within(nodes@, id, nodes@.len()) by {
        assert(child_settled(level@, id));
    }
    true
}

/// Whether the generator can work through the document with structure arena
/// `nodes` and constraint arena `constraints` (see `generation_is_safe_spec`).
pub fn generation_is_safe(
    nodes: &Vec<Option<DocStructureNode>>,
    constraints: &Vec<Option<DocConstraint>>,
) -> (b: bool)
    ensures
        b == generation_is_safe_spec(nodes@, constraints@),
{
    structure_nesting_is_finite(nodes) && constraints_generable(constraints)
}

/// Only character sets, string lengths and value ranges can make a constraint
/// unsafe, and a value range only where a simple graph is asked for: without one,
/// a range with any bounds, formulas included, is handed to the generator.
pub proof fn law_only_sets_lengths_and_graph_ranges_matter(c: DocConstraint, simple: bool)
    ensures
        !(c is CharSet || c is StringLength || c is Range) ==> constraint_is_generable(c, simple),
        c is Range ==> constraint_is_generable(c, false),
        c matches DocConstraint::CharSet { charset, .. } && !(charset is Range)
            ==> constraint_is_generable(c, simple),
{
}

/// What the check decides on literal bounds: a character range is refused exactly
/// when it runs backwards; a literal string length is accepted when its upper
/// bound is at least 1 and refused when both bounds are at most 0 and one is 0;
/// beside a simple graph, a literal upper bound is refused exactly when it is 0.
pub proof fn law_literal_bounds(c: DocConstraint, simple: bool)
    ensures
        c matches DocConstraint::CharSet { charset: DocCharSetSpec::Range(a, b), .. }
            ==> (constraint_is_generable(c, simple) <==> (a as u32) <= (b as u32)),
        c matches DocConstraint::StringLength {
            min: DocExpression::Lit(x),
            max: DocExpression::Lit(y),
            ..
        } && y >= 1 ==> constraint_is_generable(c, simple),
        c matches DocConstraint::StringLength {
            min: DocExpression::Lit(x),
            max: DocExpression::Lit(y),
            ..
        } && x <= 0 && y <= 0 && (x == 0 || y == 0) ==> !constraint_is_generable(c, simple),
        c matches DocConstraint::Range { upper: DocExpression::Lit(u), .. } ==> (
        constraint_is_generable(c, true) <==> u != 0),
{
}

/// A document whose structure is finite and whose constraints only declare types
/// and bound values (with bounds of any form) passes the check.
pub proof fn law_types_and_ranges_alone_are_safe(
    nodes: Seq<Option<DocStructureNode>>,
    constraints: Seq<Option<DocConstraint>>,
)
    requires
        structure_is_finite(nodes),
        forall|i: int|
            0 <= i < constraints.len() ==> (#[trigger] constraints[i] matches Some(c) ==> (c is TypeDecl
                || c is Range)),
    ensures
        generation_is_safe_spec(nodes, constraints),
{
    assert(!has_simple_property(constraints)) by {
        if has_simple_property(constraints) {
            let i = choose|i: int| 0 <= i < constraints.len() && #[trigger] slot_is_simple(
                constraints[i],
            );
            assert(constraints[i] matches Some(c) ==> (c is TypeDecl || c is Range));
        }
    }
    assert forall|i: int| 0 <= i < constraints.len() implies #[trigger] slot_is_generable(
        constraints[i],
        has_simple_property(constraints),
    ) by {
        assert(constraints[i] matches Some(c) ==> (c is TypeDecl || c is Range));
    }
}

/// Whether node `c` is listed directly under the node stored at `p`.
pub open spec fn lists_under(nodes: Seq<Option<DocStructureNode>>, p: u64, c: u64) -> bool {
    node_at(nodes, p) matches Some(n) && lists_child(n.kind, c)
}

/// Allowing more steps never breaks a bound on chain length.
proof fn lemma_nested_within_grows(nodes: Seq<Option<DocStructureNode>>, id: u64, h: nat, g: nat)
    requires
        nested_within(nodes, id, h),
        h <= g,
    ensures
        nested_within(nodes, id, g),
    decreases h,
{
    if let Some(n) = node_at(nodes, id) {
        assert forall|c: u64| #[trigger] lists_child(n.kind, c) implies nested_within(
            nodes,
            c,
            (g - 1) as nat,
        ) by {
            lemma_nested_within_grows(nodes, c, (h - 1) as nat, (g - 1) as nat);
        }
    }
}

/// Where every node lists only nodes of larger ids, the chains from a stored
/// node are bounded by the ids left above it.
proof fn lemma_increasing_ids_nest_within(nodes: Seq<Option<DocStructureNode>>, id: u64)
    requires
        forall|p: u64, c: u64| #[trigger] lists_under(nodes, p, c) ==> p < c,
    ensures
        id < nodes.len() ==> nested_within(nodes, id, (nodes.len() - id) as nat),
    decreases nodes.len() - id,
{
    if id < nodes.len() {
        if let Some(n) = node_at(nodes, id) {
            assert forall|c: u64| #[trigger] lists_child(n.kind, c) implies nested_within(
                nodes,
                c,
                (nodes.len() - id - 1) as nat,
            ) by {
                assert(lists_under(nodes, id, c));
                if c < nodes.len() {
                    lemma_increasing_ids_nest_within(nodes, c);
                    lemma_nested_within_grows(
                        nodes,
                        c,
                        (nodes.len() - c) as nat,
                        (nodes.len() - id - 1) as nat,
                    );
                }
            }
        }
    }
}

/// A structure in which every node lists only nodes of larger ids under itself
/// (as the editor builds one by adding children after their parent) is finite.
pub proof fn law_increasing_ids_are_finite(nodes: Seq<Option<DocStructureNode>>)
    requires
        forall|p: u64, c: u64| #[trigger] lists_under(nodes, p, c) ==> p < c,
    ensures
        structure_is_finite(nodes),
{
    assert forall|id: u64| #[trigger] nested_within(nodes, id, nodes.len()) by {
        if id < nodes.len() {
            lemma_increasing_ids_nest_within(nodes, id);
            lemma_nested_within_grows(nodes, id, (nodes.len() - id) as nat, nodes.len());
        }
    }
}

/// A node listed under itself has no bound on its chains.
proof fn lemma_self_listed_never_nests(nodes: Seq<Option<DocStructureNode>>, id: u64, h: nat)
    requires
        lists_under(nodes, id, id),
    ensures
        !nested_within(nodes, id, h),
    decreases h,
{
    if h > 0 {
        lemma_self_listed_never_nests(nodes, id, (h - 1) as nat);
    }
}

/// A structure in which some node is listed under itself is not finite.
pub proof fn law_node_under_itself_is_infinite(nodes: Seq<Option<DocStructureNode>>, id: u64)
    requires
        lists_under(nodes, id, id),
    ensures
        !structure_is_finite(nodes),
{
    lemma_self_listed_never_nests(nodes, id, nodes.len());
}

} // verus!
