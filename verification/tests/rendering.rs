use depgraph::document::{assemble_document, assemble_graph};
use depgraph::model::{Dependency, Graph, GraphError, Node};
use depgraph::statements::{assemble_dependencies, assemble_nodes, dependency_map};

fn node(short_code: &str, text: &str, description: &str, doneness: i32) -> Node {
    Node {
        short_code: String::from(short_code),
        text: String::from(text),
        description: String::from(description),
        doneness,
    }
}

fn dependency(source: &str, targets: &[&str]) -> Dependency {
    Dependency {
        node: String::from(source),
        depends_on: targets.iter().map(|t| String::from(*t)).collect(),
    }
}

#[test]
fn colour_matches_ceiling_formula_for_every_in_range_doneness() {
    for doneness in 0..=99i32 {
        let expected = ((doneness as u32 + 10) / 10).to_string();
        let got = node("A", "", "", doneness).colour();
        assert_eq!(got, Ok(expected));
    }
}

#[test]
fn colour_of_full_completion_is_ten() {
    assert_eq!(node("A", "", "", 100).colour(), Ok(String::from("10")));
}

#[test]
fn colour_of_zero_is_one() {
    assert_eq!(node("A", "", "", 0).colour(), Ok(String::from("1")));
}

#[test]
fn colour_of_forty_five_is_five() {
    assert_eq!(node("A", "", "", 45).colour(), Ok(String::from("5")));
}

#[test]
fn colour_of_out_of_range_doneness_is_the_range_error() {
    for doneness in [-1, 101, 1000, i32::MIN, i32::MAX] {
        let got = node("A", "", "", doneness).colour();
        assert_eq!(got, Err(GraphError::DonenessOutOfRange));
    }
}

#[test]
fn node_statement_embeds_every_field_verbatim() {
    let nodes = vec![node("A", "Task A", "desc", 0)];
    let got = assemble_nodes(nodes).unwrap();
    assert_eq!(got, "\t\"A\" [label=\"Task A\\ndesc\",color=\"1\"]\n");
}

#[test]
fn node_block_keeps_one_statement_per_node_in_input_order() {
    let nodes = vec![node("B", "second", "d2", 100), node("A", "first", "d1", 12)];
    let got = assemble_nodes(nodes).unwrap();
    assert_eq!(
        got,
        "\t\"B\" [label=\"second\\nd2\",color=\"10\"]\n\t\"A\" [label=\"first\\nd1\",color=\"2\"]\n"
    );
}

#[test]
fn assemble_nodes_of_no_nodes_is_empty() {
    assert_eq!(assemble_nodes(Vec::new()), Ok(String::new()));
}

#[test]
fn assemble_nodes_fails_when_any_node_is_out_of_range() {
    let nodes = vec![node("A", "ok", "d", 50), node("B", "bad", "d", 101)];
    assert_eq!(assemble_nodes(nodes), Err(GraphError::DonenessOutOfRange));
}

#[test]
fn dependency_with_two_targets_yields_two_statements() {
    let d = dependency("A", &["B", "C"]);
    assert_eq!(dependency_map(&d), "\t\"A\" -> \"B\"\n\t\"A\" -> \"C\"\n");
}

#[test]
fn dependency_with_no_targets_yields_nothing() {
    let d = dependency("A", &[]);
    assert_eq!(dependency_map(&d), "");
}

#[test]
fn edge_block_keeps_input_order_across_dependencies() {
    let deps = vec![
        dependency("X", &["Y"]),
        dependency("A", &[]),
        dependency("B", &["A", "X"]),
    ];
    let got = assemble_dependencies(&deps).unwrap();
    assert_eq!(got, "\t\"X\" -> \"Y\"\n\t\"B\" -> \"A\"\n\t\"B\" -> \"X\"\n");
}

#[test]
fn empty_blocks_yield_the_minimal_empty_graph_document() {
    let got = assemble_document("", "");
    assert_eq!(got, "digraph G {\nnode [colorscheme=rdylgn10]\n\n\n\n}");
}

#[test]
fn document_wraps_the_blocks_between_header_and_closing_brace() {
    let got = assemble_document("NODES\n", "EDGES\n");
    assert_eq!(
        got,
        "digraph G {\nnode [colorscheme=rdylgn10]\nNODES\n\n\nEDGES\n\n}"
    );
}

#[test]
fn full_graph_produces_nodes_before_edges_inside_one_digraph() {
    let graph = Graph {
        nodes: vec![node("A", "Task A", "da", 45), node("B", "Task B", "db", 100)],
        dependencies: vec![dependency("A", &["B"])],
    };
    let got = assemble_graph(graph).unwrap();
    let expected = "digraph G {\nnode [colorscheme=rdylgn10]\n\t\"A\" [label=\"Task A\\nda\",color=\"5\"]\n\t\"B\" [label=\"Task B\\ndb\",color=\"10\"]\n\n\n\t\"A\" -> \"B\"\n\n}";
    assert_eq!(got, expected);
}

#[test]
fn assemble_graph_fails_on_any_out_of_range_node() {
    let graph = Graph {
        nodes: vec![node("A", "ok", "d", 0), node("B", "bad", "d", -3)],
        dependencies: Vec::new(),
    };
    assert_eq!(assemble_graph(graph), Err(GraphError::DonenessOutOfRange));
}

#[test]
fn empty_graph_assembles_to_the_minimal_document() {
    let graph = Graph { nodes: Vec::new(), dependencies: Vec::new() };
    let got = assemble_graph(graph).unwrap();
    assert_eq!(got, "digraph G {\nnode [colorscheme=rdylgn10]\n\n\n\n}");
}

#[test]
fn dependencies_may_name_undeclared_nodes() {
    let graph = Graph {
        nodes: Vec::new(),
        dependencies: vec![dependency("ghost_source", &["ghost_target"])],
    };
    let got = assemble_graph(graph).unwrap();
    assert_eq!(
        got,
        "digraph G {\nnode [colorscheme=rdylgn10]\n\n\n\t\"ghost_source\" -> \"ghost_target\"\n\n}"
    );
}
