use domain_model::{IdCollection, Node, ID};

#[test]
fn id_reads_back_its_value() {
    let id = ID::new("1");
    assert_eq!(id.value(), "1");
}

#[test]
fn id_reads_back_empty_and_non_ascii_values() {
    assert_eq!(ID::new("").value(), "");
    let text = "nœud — ノード";
    assert_eq!(ID::new(text).value(), text);
}

#[test]
fn node_reads_back_its_fields() {
    let node = Node::new(ID::new("42"), "answer");
    assert_eq!(node.id().value(), "42");
    assert_eq!(node.label(), "answer");
}

#[test]
fn node_with_empty_label() {
    let node = Node::new(ID::new("a"), "");
    assert_eq!(node.id().value(), "a");
    assert_eq!(node.label(), "");
}

#[test]
fn empty_collection_has_size_zero() {
    let list = IdCollection::new();
    assert_eq!(list.len(), 0);
    assert!(list.is_empty());
}

#[test]
fn node_debug_form_shows_id_and_label() {
    let node = Node::new(ID::new("1"), "Node 1");
    let shown = format!("{:?}", node);
    assert!(shown.contains("1"));
    assert!(shown.contains("Node 1"));
    assert_eq!(shown, "Node { id: ID { value: \"1\" }, label: \"Node 1\" }");
}

#[test]
fn empty_collection_debug_form_shows_empty_sequence() {
    let list = IdCollection::new();
    let shown = format!("{:?}", list);
    assert!(shown.contains("[]"));
    assert_eq!(shown, "IdCollection { value: [] }");
}
