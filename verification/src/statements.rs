//! Rendering of nodes and dependency relations into textual statements.
//!
//! Every field of the data model is inserted verbatim: a double quote inside
//! a short code, label or description produces a malformed statement. That
//! limitation is kept deliberately, so that output for quote-free input never
//! changes.

use vstd::prelude::*;

use crate::chars::{brace_free, count_char, lemma_brace_free_concat};
use crate::colour::{colour_chars, colour_index};
use crate::model::{doneness_in_range, Dependency, GraphError, Node};

verus! {

/// The one declaration statement of a node: a tab, the quoted short code,
/// a label holding text and description on two lines (the newline escape is
/// written out for the renderer to interpret, not interpreted here), and the
/// node's colour-scale index.
pub open spec fn node_statement(n: Node) -> Seq<char>
    recommends
        doneness_in_range(n),
{
    "\t\""@ + n.short_code@ + "\" [label=\""@ + n.text@ + "\\n"@ + n.description@ + "\",color=\""@
        + colour_chars(colour_index(n.doneness as int)) + "\"]\n"@
}

/// The node block: exactly one statement per node, in input order.
pub open spec fn node_block(nodes: Seq<Node>) -> Seq<char>
    decreases nodes.len(),
{
    if nodes.len() == 0 {
        Seq::<char>::empty()
    } else {
        node_block(nodes.drop_last()) + node_statement(nodes.last())
    }
}

/// One edge statement: the quoted source, an arrow, the quoted target.
pub open spec fn edge_statement(node: Seq<char>, target: Seq<char>) -> Seq<char> {
    "\t\""@ + node + "\" -> \""@ + target + "\"\n"@
}

/// The edge statements of one source to each of its targets, in target order.
pub open spec fn edge_lines(node: Seq<char>, targets: Seq<String>) -> Seq<char>
    decreases targets.len(),
{
    if targets.len() == 0 {
        Seq::<char>::empty()
    } else {
        edge_lines(node, targets.drop_last()) + edge_statement(node, targets.last()@)
    }
}

/// All edge statements of one dependency relation: exactly one per entry of
/// `depends_on`, in input order, and none at all when `depends_on` is empty.
pub open spec fn dependency_statements(d: Dependency) -> Seq<char> {
    edge_lines(d.node@, d.depends_on@)
}

/// The edge block: the statements of every dependency relation, in input
/// order.
pub open spec fn edge_block(deps: Seq<Dependency>) -> Seq<char>
    decreases deps.len(),
{
    if deps.len() == 0 {
        Seq::<char>::empty()
    } else {
        edge_block(deps.drop_last()) + dependency_statements(deps.last())
    }
}

/// Each node statement embeds the node's fields verbatim: the short code,
/// the text, the description, and the colour digits of its completion
/// percentage each appear as a contiguous run at a fixed offset from the
/// fixed parts around them.
pub proof fn lemma_node_statement_embeds_fields(n: Node)
    requires
        doneness_in_range(n),
    ensures
        node_statement(n).len() == 26 + n.short_code@.len() as int + n.text@.len() as int + n.description@.len() as int
            + colour_chars(colour_index(n.doneness as int)).len(),
        node_statement(n).subrange(2, 2 + n.short_code@.len() as int) == n.short_code@,
        node_statement(n).subrange(
            12 + n.short_code@.len() as int,
            12 + n.short_code@.len() as int + n.text@.len() as int,
        ) == n.text@,
        node_statement(n).subrange(
            14 + n.short_code@.len() as int + n.text@.len() as int,
            14 + n.short_code@.len() as int + n.text@.len() as int + n.description@.len() as int,
        ) == n.description@,
        node_statement(n).subrange(
            23 + n.short_code@.len() as int + n.text@.len() as int + n.description@.len() as int,
            23 + n.short_code@.len() as int + n.text@.len() as int + n.description@.len() as int + colour_chars(
                colour_index(n.doneness as int),
            ).len() as int,
        ) == colour_chars(colour_index(n.doneness as int)),
{
    reveal_strlit("\t\"");
    reveal_strlit("\" [label=\"");
    reveal_strlit("\\n");
    reveal_strlit("\",color=\"");
    reveal_strlit("\"]\n");
    assert(node_statement(n).subrange(2, 2 + n.short_code@.len() as int) =~= n.short_code@);
    assert(node_statement(n).subrange(
        12 + n.short_code@.len() as int,
        12 + n.short_code@.len() as int + n.text@.len() as int,
    ) =~= n.text@);
    assert(node_statement(n).subrange(
        14 + n.short_code@.len() as int + n.text@.len() as int,
        14 + n.short_code@.len() as int + n.text@.len() as int + n.description@.len() as int,
    ) =~= n.description@);
    assert(node_statement(n).subrange(
        23 + n.short_code@.len() as int + n.text@.len() as int + n.description@.len() as int,
        23 + n.short_code@.len() as int + n.text@.len() as int + n.description@.len() as int + colour_chars(
            colour_index(n.doneness as int),
        ).len() as int,
    ) =~= colour_chars(colour_index(n.doneness as int)));
}

/// The node block holds exactly one statement per node, in input order: the
/// block of the first `i + 1` nodes is the block of the first `i` followed by
/// the statement of node `i`.
pub proof fn lemma_node_block_one_per_node(nodes: Seq<Node>, i: int)
    requires
        0 <= i < nodes.len(),
    ensures
        node_block(nodes.take(i + 1)) == node_block(nodes.take(i)) + node_statement(nodes[i]),
{
    assert(nodes.take(i + 1).drop_last() =~= nodes.take(i));
}

/// One source's edge lines hold exactly one statement per target, in target
/// order: the lines for the first `i + 1` targets are the lines for the first
/// `i` followed by the statement for target `i`.
pub proof fn lemma_edge_lines_one_per_target(node: Seq<char>, targets: Seq<String>, i: int)
    requires
        0 <= i < targets.len(),
    ensures
        edge_lines(node, targets.take(i + 1)) == edge_lines(node, targets.take(i))
            + edge_statement(node, targets[i]@),
{
    assert(targets.take(i + 1).drop_last() =~= targets.take(i));
}

/// The edge block holds the statements of each dependency relation in input
/// order: the block of the first `i + 1` relations is the block of the first
/// `i` followed by the statements of relation `i`.
pub proof fn lemma_edge_block_one_per_dependency(deps: Seq<Dependency>, i: int)
    requires
        0 <= i < deps.len(),
    ensures
        edge_block(deps.take(i + 1)) == edge_block(deps.take(i)) + dependency_statements(deps[i]),
{
    assert(deps.take(i + 1).drop_last() =~= deps.take(i));
}

/// A dependency relation with no targets contributes no statement at all.
pub proof fn lemma_dependency_statements_empty(d: Dependency)
    requires
        d.depends_on@.len() == 0,
    ensures
        dependency_statements(d) == Seq::<char>::empty(),
{
}

/// The colour digits never hold a brace.
pub proof fn lemma_colour_chars_brace_free(index: int)
    ensures
        brace_free(colour_chars(index)),
{
    reveal_strlit("1");
    reveal_strlit("2");
    reveal_strlit("3");
    reveal_strlit("4");
    reveal_strlit("5");
    reveal_strlit("6");
    reveal_strlit("7");
    reveal_strlit("8");
    reveal_strlit("9");
    reveal_strlit("10");
    reveal_with_fuel(count_char, 3);
}

/// A node statement built from brace-free fields holds no brace: its fixed
/// parts and colour digits bring none of their own.
pub proof fn lemma_node_statement_brace_free(n: Node)
    requires
        brace_free(n.short_code@),
        brace_free(n.text@),
        brace_free(n.description@),
    ensures
        brace_free(node_statement(n)),
{
    let col = colour_chars(colour_index(n.doneness as int));
    assert(brace_free("\t\""@) && brace_free("\\n"@)) by {
        reveal_strlit("\t\"");
        reveal_strlit("\\n");
        reveal_with_fuel(count_char, 3);
    }
    assert(brace_free("\" [label=\""@) && brace_free("\",color=\""@) && brace_free("\"]\n"@)) by {
        reveal_strlit("\" [label=\"");
        reveal_strlit("\",color=\"");
        reveal_strlit("\"]\n");
        reveal_with_fuel(count_char, 11);
    }
    lemma_colour_chars_brace_free(colour_index(n.doneness as int));
    lemma_brace_free_concat("\t\""@, n.short_code@);
    lemma_brace_free_concat("\t\""@ + n.short_code@, "\" [label=\""@);
    lemma_brace_free_concat("\t\""@ + n.short_code@ + "\" [label=\""@, n.text@);
    lemma_brace_free_concat("\t\""@ + n.short_code@ + "\" [label=\""@ + n.text@, "\\n"@);
    lemma_brace_free_concat(
        "\t\""@ + n.short_code@ + "\" [label=\""@ + n.text@ + "\\n"@,
        n.description@,
    );
    lemma_brace_free_concat(
        "\t\""@ + n.short_code@ + "\" [label=\""@ + n.text@ + "\\n"@ + n.description@,
        "\",color=\""@,
    );
    lemma_brace_free_concat(
        "\t\""@ + n.short_code@ + "\" [label=\""@ + n.text@ + "\\n"@ + n.description@
            + "\",color=\""@,
        col,
    );
    lemma_brace_free_concat(
        "\t\""@ + n.short_code@ + "\" [label=\""@ + n.text@ + "\\n"@ + n.description@
            + "\",color=\""@ + col,
        "\"]\n"@,
    );
}

/// A node block built from brace-free fields holds no brace.
pub proof fn lemma_node_block_brace_free(nodes: Seq<Node>)
    requires
        forall|i: int|
            0 <= i < nodes.len() ==> #[trigger] brace_free(nodes[i].short_code@) && brace_free(
                nodes[i].text@,
            ) && brace_free(nodes[i].description@),
    ensures
        brace_free(node_block(nodes)),
    decreases nodes.len(),
{
    if nodes.len() > 0 {
        lemma_node_block_brace_free(nodes.drop_last());
        lemma_node_statement_brace_free(nodes.last());
        lemma_brace_free_concat(node_block(nodes.drop_last()), node_statement(nodes.last()));
    }
}

/// An edge statement between brace-free names holds no brace.
pub proof fn lemma_edge_statement_brace_free(node: Seq<char>, target: Seq<char>)
    requires
        brace_free(node),
        brace_free(target),
    ensures
        brace_free(edge_statement(node, target)),
{
    assert(brace_free("\t\""@) && brace_free("\" -> \""@) && brace_free("\"\n"@)) by {
        reveal_strlit("\t\"");
        reveal_strlit("\" -> \"");
        reveal_strlit("\"\n");
        reveal_with_fuel(count_char, 7);
    }
    lemma_brace_free_concat("\t\""@, node);
    lemma_brace_free_concat("\t\""@ + node, "\" -> \""@);
    lemma_brace_free_concat("\t\""@ + node + "\" -> \""@, target);
    lemma_brace_free_concat("\t\""@ + node + "\" -> \""@ + target, "\"\n"@);
}

/// Edge lines between brace-free names hold no brace.
pub proof fn lemma_edge_lines_brace_free(node: Seq<char>, targets: Seq<String>)
    requires
        brace_free(node),
        forall|j: int| 0 <= j < targets.len() ==> brace_free(#[trigger] targets[j]@),
    ensures
        brace_free(edge_lines(node, targets)),
    decreases targets.len(),
{
    if targets.len() > 0 {
        lemma_edge_lines_brace_free(node, targets.drop_last());
        lemma_edge_statement_brace_free(node, targets.last()@);
        lemma_brace_free_concat(
            edge_lines(node, targets.drop_last()),
            edge_statement(node, targets.last()@),
        );
    }
}

/// An edge block built from brace-free names holds no brace.
pub proof fn lemma_edge_block_brace_free(deps: Seq<Dependency>)
    requires
        forall|i: int|
            0 <= i < deps.len() ==> #[trigger] brace_free(deps[i].node@) && forall|j: int|
                0 <= j < deps[i].depends_on@.len() ==> brace_free(#[trigger] deps[i].depends_on@[j]@),
    ensures
        brace_free(edge_block(deps)),
    decreases deps.len(),
{
    if deps.len() > 0 {
        lemma_edge_block_brace_free(deps.drop_last());
        lemma_edge_lines_brace_free(deps.last().node@, deps.last().depends_on@);
        lemma_brace_free_concat(
            edge_block(deps.drop_last()),
            dependency_statements(deps.last()),
        );
    }
}

/// Renders every node into its declaration statement, in input order.
/// Fails, and renders nothing, exactly when some node's completion
/// percentage is out of range.
pub fn assemble_nodes(nodes: Vec<Node>) -> (r: Result<String, GraphError>)
    ensures
        match r {
            Ok(s) => (forall|i: int| 0 <= i < nodes@.len() ==> doneness_in_range(nodes@[i]))
                && s@ == node_block(nodes@),
            Err(e) => (exists|i: int| 0 <= i < nodes@.len() && !doneness_in_range(nodes@[i]))
                && e == GraphError::DonenessOutOfRange,
        },
{
    let mut node_list = String::new();
    for i in 0..nodes.len()
        invariant
            forall|j: int| 0 <= j < i ==> doneness_in_range(nodes@[j]),
            node_list@ == node_block(nodes@.take(i as int)),
    {
        let colour = match nodes[i].colour() {
            Ok(c) => c,
            Err(e) => {
                return Err(e);
            },
        };
        node_list.append("\t\"");
        node_list.append(nodes[i].short_code.as_str());
        node_list.append("\" [label=\"");
        node_list.append(nodes[i].text.as_str());
        node_list.append("\\n");
        node_list.append(nodes[i].description.as_str());
        node_list.append("\",color=\"");
        node_list.append(colour.as_str());
        node_list.append("\"]\n");
        proof {
            assert(nodes@.take(i as int + 1).drop_last() =~= nodes@.take(i as int));
            assert(node_list@ =~= node_block(nodes@.take(i as int)) + node_statement(
                nodes@[i as int],
            ));
        }
    }
    proof {
        assert(nodes@.take(nodes@.len() as int) =~= nodes@);
    }
    Ok(node_list)
}

/// Renders the edge statements of one dependency relation, in `depends_on`
/// order; the empty string when `depends_on` is empty.
pub fn dependency_map(dependency: &Dependency) -> (r: String)
    ensures
        r@ == dependency_statements(*dependency),
{
    let mut lines = String::new();
    for i in 0..dependency.depends_on.len()
        invariant
            lines@ == edge_lines(dependency.node@, dependency.depends_on@.take(i as int)),
    {
        lines.append("\t\"");
        lines.append(dependency.node.as_str());
        lines.append("\" -> \"");
        lines.append(dependency.depends_on[i].as_str());
        lines.append("\"\n");
        proof {
            assert(dependency.depends_on@.take(i as int + 1).drop_last() =~= dependency.depends_on@
                .take(i as int));
            assert(lines@ =~= edge_lines(dependency.node@, dependency.depends_on@.take(i as int))
                + edge_statement(dependency.node@, dependency.depends_on@[i as int]@));
        }
    }
    proof {
        assert(dependency.depends_on@.take(dependency.depends_on@.len() as int)
            =~= dependency.depends_on@);
    }
    lines
}

/// Renders every dependency relation, in input order. Rendering edges cannot
/// fail: the result is always the full edge block.
pub fn assemble_dependencies(dependencies: &[Dependency]) -> (r: Result<String, GraphError>)
    ensures
        r is Ok,
        r->Ok_0@ == edge_block(dependencies@),
{
    let mut dep_list = String::new();
    for i in 0..dependencies.len()
        invariant
            dep_list@ == edge_block(dependencies@.take(i as int)),
    {
        let lines = dependency_map(&dependencies[i]);
        dep_list.append(lines.as_str());
        proof {
            assert(dependencies@.take(i as int + 1).drop_last() =~= dependencies@.take(i as int));
        }
    }
    proof {
        assert(dependencies@.take(dependencies@.len() as int) =~= dependencies@);
    }
    Ok(dep_list)
}

} // verus!
