use pandora_core::nbt::{NBTNode, NBT, TAG_COMPOUND_ID, TAG_INT_ID, TAG_LIST_ID, TAG_STRING_ID};

#[test]
fn new_document_has_an_empty_root_compound() {
    let nbt = NBT::new();
    let root = nbt.as_compound();
    assert!(root.is_empty(&nbt));
    assert_eq!(root.len(&nbt), 0);
    assert!(!root.contains_key(&nbt, "anything"));
}

#[test]
fn inserted_entries_are_found_by_name() {
    let mut nbt = NBT::new();
    let root = nbt.as_compound_mut();
    let idx = root.insert_node(&mut nbt, "answer", NBTNode::Int(42));
    assert!(root.contains_key(&nbt, "answer"));
    assert_eq!(root.find_idx(&nbt, "answer"), Some(idx));
    match nbt.get_node(idx) {
        NBTNode::Int(v) => assert_eq!(*v, 42),
        other => panic!("expected an Int node, got {:?}", other),
    }
    assert_eq!(nbt.get_node(idx).get_type(), TAG_INT_ID);
}

#[test]
fn reinserting_a_name_replaces_its_node() {
    let mut nbt = NBT::new();
    let root = nbt.as_compound_mut();
    root.insert_node(&mut nbt, "k", NBTNode::Int(1));
    let second = root.insert_node(&mut nbt, "k", NBTNode::Int(2));
    let ro = nbt.as_compound();
    assert_eq!(ro.len(&nbt), 1);
    assert_eq!(ro.find_idx(&nbt, "k"), Some(second));
    match nbt.get_node(second) {
        NBTNode::Int(v) => assert_eq!(*v, 2),
        other => panic!("expected an Int node, got {:?}", other),
    }
}

#[test]
fn keys_come_back_in_insertion_order() {
    let mut nbt = NBT::new();
    let root = nbt.as_compound_mut();
    root.insert_node(&mut nbt, "a", NBTNode::Byte(1));
    root.insert_node(&mut nbt, "b", NBTNode::Byte(2));
    root.insert_node(&mut nbt, "c", NBTNode::Byte(3));
    assert_eq!(nbt.as_compound().keys(&nbt), vec!["a", "b", "c"]);
}

#[test]
fn removing_detaches_exactly_the_named_entry() {
    let mut nbt = NBT::new();
    let root = nbt.as_compound_mut();
    root.insert_node(&mut nbt, "keep", NBTNode::Int(1));
    root.insert_node(&mut nbt, "drop", NBTNode::Int(2));
    assert!(root.remove(&mut nbt, "drop"));
    assert!(!root.remove(&mut nbt, "drop"));
    let ro = nbt.as_compound();
    assert!(ro.contains_key(&nbt, "keep"));
    assert!(!ro.contains_key(&nbt, "drop"));
    assert_eq!(ro.len(&nbt), 1);
}

#[test]
fn nested_compounds_are_reachable() {
    let mut nbt = NBT::new();
    let root = nbt.as_compound_mut();
    let inner = root.create_compound(&mut nbt, "inner");
    inner.insert_node(&mut nbt, "value", NBTNode::String("deep".to_string()));
    let ro = nbt.as_compound();
    let found = ro.find_compound(&nbt, "inner").expect("inner compound");
    let value_idx = found.find_idx(&nbt, "value").expect("value entry");
    match nbt.get_node(value_idx) {
        NBTNode::String(s) => assert_eq!(s, "deep"),
        other => panic!("expected a String node, got {:?}", other),
    }
    assert!(ro.find_list_of_any(&nbt, "inner").is_none());
}

#[test]
fn typed_list_lookup_checks_the_element_type() {
    let mut nbt = NBT::new();
    let root = nbt.as_compound_mut();
    let list = root.create_list(&mut nbt, "ints", TAG_INT_ID);
    list.insert_node(&mut nbt, NBTNode::Int(7));
    list.insert_node(&mut nbt, NBTNode::Int(8));
    let ro = nbt.as_compound();
    assert!(ro.find_list(&nbt, "ints", TAG_INT_ID).is_some());
    assert!(ro.find_list(&nbt, "ints", TAG_STRING_ID).is_none());
    let l = ro.find_list_of_any(&nbt, "ints").expect("list");
    assert_eq!(l.children_type, TAG_INT_ID);
    assert_eq!(l.len(&nbt), 2);
}

#[test]
fn list_iteration_yields_children_in_order() {
    let mut nbt = NBT::new();
    let root = nbt.as_compound_mut();
    let list = root.create_list(&mut nbt, "ints", TAG_INT_ID);
    list.insert_node(&mut nbt, NBTNode::Int(10));
    list.insert_node(&mut nbt, NBTNode::Int(20));
    let ro = nbt.as_compound();
    let l = ro.find_list(&nbt, "ints", TAG_INT_ID).unwrap();
    let mut it = l.iter(&nbt);
    let mut seen: Vec<i32> = Vec::new();
    while let Some(idx) = it.next(&nbt) {
        match nbt.get_node(idx) {
            NBTNode::Int(v) => seen.push(*v),
            other => panic!("expected an Int node, got {:?}", other),
        }
    }
    assert_eq!(seen, vec![10, 20]);
    assert_eq!(l.get(&nbt, 0).is_some(), true);
    assert!(l.get(&nbt, 2).is_none());
}

#[test]
fn compound_iteration_yields_named_entries() {
    let mut nbt = NBT::new();
    let root = nbt.as_compound_mut();
    root.insert_node(&mut nbt, "x", NBTNode::Byte(1));
    root.insert_node(&mut nbt, "y", NBTNode::Byte(2));
    let mut it = nbt.as_compound().entries(&nbt);
    let mut names: Vec<String> = Vec::new();
    while let Some((name, _idx)) = it.next(&nbt) {
        names.push(name);
    }
    assert_eq!(names, vec!["x", "y"]);
}

#[test]
fn set_node_at_replaces_or_appends() {
    let mut nbt = NBT::new();
    let root = nbt.as_compound_mut();
    let list = root.create_list(&mut nbt, "ints", TAG_INT_ID);
    list.insert_node(&mut nbt, NBTNode::Int(1));
    let slot = list.set_node_at(&mut nbt, 0, NBTNode::Int(99));
    match nbt.get_node(slot) {
        NBTNode::Int(v) => assert_eq!(*v, 99),
        other => panic!("expected an Int node, got {:?}", other),
    }
    assert_eq!(list.len(&nbt), 1);
    list.set_node_at(&mut nbt, 1, NBTNode::Int(5));
    assert_eq!(list.len(&nbt), 2);
}

#[test]
fn lists_of_lists_and_compounds() {
    let mut nbt = NBT::new();
    let root = nbt.as_compound_mut();
    let outer = root.create_list(&mut nbt, "outer", TAG_LIST_ID);
    let inner = outer.create_list(&mut nbt, TAG_INT_ID);
    inner.insert_node(&mut nbt, NBTNode::Int(3));
    let compounds = root.create_list(&mut nbt, "cs", TAG_COMPOUND_ID);
    let entry = compounds.create_compound(&mut nbt);
    entry.insert_node(&mut nbt, "n", NBTNode::Byte(4));
    assert_eq!(outer.len(&nbt), 1);
    assert_eq!(compounds.len(&nbt), 1);
}

#[test]
fn clone_nbt_copies_the_subtree() {
    let mut nbt = NBT::new();
    let root = nbt.as_compound_mut();
    let inner = root.create_compound(&mut nbt, "inner");
    inner.insert_node(&mut nbt, "value", NBTNode::Long(123));
    root.insert_node(&mut nbt, "top", NBTNode::String("t".to_string()));

    let ro = nbt.as_compound();
    let inner_ro = ro.find_compound(&nbt, "inner").unwrap();
    let copy = inner_ro.clone_nbt(&nbt);
    let copy_root = copy.as_compound();
    // The copy is rooted at the cloned compound: it sees `value` but
    // not the sibling `top`.
    let value_idx = copy_root.find_idx(&copy, "value").expect("value entry");
    match copy.get_node(value_idx) {
        NBTNode::Long(v) => assert_eq!(*v, 123),
        other => panic!("expected a Long node, got {:?}", other),
    }
    assert!(!copy_root.contains_key(&copy, "top"));

    // Writing to the copy leaves the original alone.
    let copy_mut = copy.as_compound_mut();
    let mut copy2 = copy;
    copy_mut.insert_node(&mut copy2, "extra", NBTNode::Byte(1));
    assert!(!nbt.as_compound().contains_key(&nbt, "extra"));
}

#[test]
fn float_tags_carry_bit_patterns() {
    let mut nbt = NBT::new();
    let root = nbt.as_compound_mut();
    let idx = root.insert_node(&mut nbt, "pi", NBTNode::Float(3.5f32.to_bits()));
    match nbt.get_node(idx) {
        NBTNode::Float(bits) => assert_eq!(f32::from_bits(*bits), 3.5),
        other => panic!("expected a Float node, got {:?}", other),
    }
}
