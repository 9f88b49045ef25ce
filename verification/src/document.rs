//! Assembly of the complete textual graph document.

use vstd::prelude::*;

use crate::chars::{brace_free, count_char, lemma_count_char_concat};
use crate::model::{doneness_in_range, Dependency, Graph, GraphError, Node};
use crate::statements::{
    assemble_dependencies, assemble_nodes, edge_block, lemma_edge_block_brace_free,
    lemma_node_block_brace_free, node_block,
};

verus! {

/// The complete document: the fixed `digraph` header with the `rdylgn10`
/// colour-scheme directive, the node block, a blank separator line, the edge
/// block, and the closing brace. The directive fixes the ten-step palette
/// that the colour-scale indices are read against; the two only ever change
/// together.
pub open spec fn document_text(node_list: Seq<char>, dep_list: Seq<char>) -> Seq<char> {
    "digraph G {\nnode [colorscheme=rdylgn10]\n"@ + node_list + "\n\n"@ + dep_list + "\n}"@
}

/// The assembled document is well-formed graph-description syntax whenever
/// the statement blocks bring no brace of their own: it opens with the fixed
/// header, whose brace is the only opening brace of the whole document, and
/// its final character is the only closing brace. In particular the braces
/// balance, whether or not the blocks are empty.
pub proof fn lemma_document_well_formed(node_list: Seq<char>, dep_list: Seq<char>)
    requires
        brace_free(node_list),
        brace_free(dep_list),
    ensures
        document_text(node_list, dep_list).take(40) == "digraph G {\nnode [colorscheme=rdylgn10]\n"@,
        count_char(document_text(node_list, dep_list), '{') == 1,
        count_char(document_text(node_list, dep_list), '}') == 1,
        document_text(node_list, dep_list).last() == '}',
{
    let header = "digraph G {\nnode [colorscheme=rdylgn10]\n"@;
    let sep = "\n\n"@;
    let tail = "\n}"@;
    let doc = document_text(node_list, dep_list);
    reveal_strlit("digraph G {\nnode [colorscheme=rdylgn10]\n");
    reveal_strlit("\n\n");
    reveal_strlit("\n}");
    assert(count_char(header, '{') == 1 && count_char(header, '}') == 0) by {
        reveal_strlit("digraph G {\nnode [colorscheme=rdylgn10]\n");
        reveal_with_fuel(count_char, 41);
    }
    assert(count_char(sep, '{') == 0 && count_char(sep, '}') == 0) by {
        reveal_strlit("\n\n");
        reveal_with_fuel(count_char, 3);
    }
    assert(count_char(tail, '{') == 0 && count_char(tail, '}') == 1) by {
        reveal_strlit("\n}");
        reveal_with_fuel(count_char, 3);
    }
    lemma_count_char_concat(header, node_list, '{');
    lemma_count_char_concat(header + node_list, sep, '{');
    lemma_count_char_concat(header + node_list + sep, dep_list, '{');
    lemma_count_char_concat(header + node_list + sep + dep_list, tail, '{');
    lemma_count_char_concat(header, node_list, '}');
    lemma_count_char_concat(header + node_list, sep, '}');
    lemma_count_char_concat(header + node_list + sep, dep_list, '}');
    lemma_count_char_concat(header + node_list + sep + dep_list, tail, '}');
    assert(doc.take(40) =~= header);
    assert(doc.last() == '}');
}

/// A graph whose short codes, labels, descriptions and dependency names hold
/// no brace assembles to a well-formed document: the fixed header opens it,
/// the header's brace is its only opening brace, and its final character is
/// its only closing brace.
pub proof fn lemma_graph_document_well_formed(nodes: Seq<Node>, deps: Seq<Dependency>)
    requires
        forall|i: int|
            0 <= i < nodes.len() ==> #[trigger] brace_free(nodes[i].short_code@) && brace_free(
                nodes[i].text@,
            ) && brace_free(nodes[i].description@),
        forall|i: int|
            0 <= i < deps.len() ==> #[trigger] brace_free(deps[i].node@) && forall|j: int|
                0 <= j < deps[i].depends_on@.len() ==> brace_free(#[trigger] deps[i].depends_on@[j]@),
    ensures
        document_text(node_block(nodes), edge_block(deps)).take(40) == "digraph G {\nnode [colorscheme=rdylgn10]\n"@,
        count_char(document_text(node_block(nodes), edge_block(deps)), '{') == 1,
        count_char(document_text(node_block(nodes), edge_block(deps)), '}') == 1,
        document_text(node_block(nodes), edge_block(deps)).last() == '}',
{
    lemma_node_block_brace_free(nodes);
    lemma_edge_block_brace_free(deps);
    lemma_document_well_formed(node_block(nodes), edge_block(deps));
}

/// Assembling a document from an empty node block and an empty edge block
/// yields exactly the minimal empty-graph document and nothing more.
pub proof fn lemma_empty_graph_document()
    ensures
        document_text(Seq::<char>::empty(), Seq::<char>::empty())
            == "digraph G {\nnode [colorscheme=rdylgn10]\n\n\n\n}"@,
{
    reveal_strlit("digraph G {\nnode [colorscheme=rdylgn10]\n");
    reveal_strlit("\n\n");
    reveal_strlit("\n}");
    reveal_strlit("digraph G {\nnode [colorscheme=rdylgn10]\n\n\n\n}");
    assert(document_text(Seq::<char>::empty(), Seq::<char>::empty())
        =~= "digraph G {\nnode [colorscheme=rdylgn10]\n\n\n\n}"@);
}

/// Wraps the formatted node and edge blocks into the complete document.
pub fn assemble_document(node_list: &str, dep_list: &str) -> (r: String)
    ensures
        r@ == document_text(node_list@, dep_list@),
{
    let mut document = String::from_str("digraph G {\nnode [colorscheme=rdylgn10]\n");
    document.append(node_list);
    document.append("\n\n");
    document.append(dep_list);
    document.append("\n}");
    proof {
        assert(document@ =~= document_text(node_list@, dep_list@));
    }
    document
}

/// Renders a whole graph into its document: one declaration statement per
/// node, one edge statement per (source, target) dependency pair, both
/// blocks inside the `digraph` wrapper. Fails, with nothing rendered,
/// exactly when some node's completion percentage is out of range.
pub fn assemble_graph(graph: Graph) -> (r: Result<String, GraphError>)
    ensures
        match r {
            Ok(s) => (forall|i: int|
                0 <= i < graph.nodes@.len() ==> doneness_in_range(graph.nodes@[i])) && s@
                == document_text(node_block(graph.nodes@), edge_block(graph.dependencies@)),
            Err(e) => (exists|i: int|
                0 <= i < graph.nodes@.len() && !doneness_in_range(graph.nodes@[i])) && e
                == GraphError::DonenessOutOfRange,
        },
{
    let node_list = match assemble_nodes(graph.nodes) {
        Ok(s) => s,
        Err(e) => {
            return Err(e);
        },
    };
    let dep_list = match assemble_dependencies(graph.dependencies.as_slice()) {
        Ok(s) => s,
        Err(e) => {
            return Err(e);
        },
    };
    Ok(assemble_document(node_list.as_str(), dep_list.as_str()))
}

} // verus!
