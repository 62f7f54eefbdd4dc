use xsched::osc::{from_wire, to_wire, OscType};
use xsched::oscquery::{GraphNodeChildren, OSCQueryHandler, ParamOwner};
use xsched::param::{ParamAccess, ParamGet, ParamHashMap};
use xsched::sched::Sched;
use xsched::store::{BinaryFn, Binding, Param, ParamDataAccess};
use xsched::tree::{item_nodes, param_nodes, root_nodes, NodeAccess, NodeContent, TreeNode};
use xsched::value::{ClockData, Float, TickResched, TickSched, TypedValue, ValueTag};

fn shape(nodes: &[TreeNode]) -> Vec<(String, NodeAccess, NodeContent)> {
    nodes
        .iter()
        .map(|n| (n.address.clone(), n.access, n.content))
        .collect()
}

fn at(address: &str, access: NodeAccess, content: NodeContent) -> (String, NodeAccess, NodeContent) {
    (address.to_string(), access, content)
}

fn wire(v: &[OscType]) -> Vec<String> {
    v.iter()
        .map(|a| match a {
            OscType::Bool(b) => format!("b{}", b),
            OscType::Int(i) => format!("i{}", i),
            OscType::Long(l) => format!("l{}", l),
            OscType::Double(d) => format!("d{}", f64::from_bits(d.to_bits())),
            OscType::Text(t) => format!("s{}", t),
        })
        .collect()
}

#[test]
fn the_tree_starts_with_its_roots() {
    assert_eq!(
        vec![
            at("/xsched", NodeAccess::Container, NodeContent::Branch),
            at("/xsched/command", NodeAccess::SetOnly, NodeContent::Command),
            at("/xsched/params", NodeAccess::Container, NodeContent::Branch),
            at("/xsched/params/uuids", NodeAccess::Container, NodeContent::Branch),
            at("/xsched/graph", NodeAccess::Container, NodeContent::Branch),
            at("/xsched/graph/uuids", NodeAccess::Container, NodeContent::Branch),
        ],
        shape(&root_nodes())
    );
}

#[test]
fn a_parameter_shows_value_type_and_slots() {
    let mut h = OSCQueryHandler::new(Sched::new());
    let id = h.param_create(&Some(7), "val::<usize>", "3", &None).unwrap();
    let place = h.params.find(id).unwrap();
    let base = "/xsched/params/uuids/00000000-0000-0000-0000-000000000007";
    assert_eq!(
        vec![
            at(base, NodeAccess::Container, NodeContent::Branch),
            at(&format!("{}/value", base), NodeAccess::GetSet, NodeContent::ParamValue(place)),
            at(&format!("{}/type", base), NodeAccess::Get, NodeContent::ParamType(place)),
        ],
        shape(&param_nodes(h.params.param(place).unwrap(), place))
    );
    assert_eq!(
        vec!["val::<usize>", "getset", "usize"],
        h.node_texts(NodeContent::ParamType(place))
    );
    assert!(h.node_texts(NodeContent::ParamType(99)).is_empty());
    assert!(h.node_texts(NodeContent::ParamValue(place)).is_empty());
    assert!(h.node_texts(NodeContent::Branch).is_empty());

    let constant = h.param_create(&Some(8), "const::<usize>", "3", &None).unwrap();
    let c = h.params.find(constant).unwrap();
    assert_eq!(
        NodeAccess::Get,
        param_nodes(h.params.param(c).unwrap(), c)[1].access
    );

    let mut map = ParamHashMap::new();
    map.insert_unbound("left", ParamAccess::new_get(ParamGet::with_tag(ValueTag::USize)));
    map.insert_unbound("right", ParamAccess::new_get(ParamGet::with_tag(ValueTag::USize)));
    let max = h.add_param(Param::new_with_id(
        "max",
        ParamDataAccess::Get(Binding::BinaryOp(BinaryFn::Max, ValueTag::USize)),
        map,
        None,
        9,
    ));
    let base = "/xsched/params/uuids/00000000-0000-0000-0000-000000000009";
    assert_eq!(
        vec![
            at(base, NodeAccess::Container, NodeContent::Branch),
            at(&format!("{}/type", base), NodeAccess::Get, NodeContent::ParamType(max.handle)),
            at(&format!("{}/params", base), NodeAccess::Container, NodeContent::Branch),
            at(
                &format!("{}/params/left", base),
                NodeAccess::Get,
                NodeContent::ParamSlot(max.handle, 0)
            ),
            at(
                &format!("{}/params/right", base),
                NodeAccess::Get,
                NodeContent::ParamSlot(max.handle, 1)
            ),
        ],
        shape(&param_nodes(h.params.param(max.handle).unwrap(), max.handle))
    );
    assert_eq!(vec![""], h.node_texts(NodeContent::ParamSlot(max.handle, 1)));
    assert_eq!(Ok(()), h.param_bind(&ParamOwner::Param(9), "right", id));
    assert_eq!(
        vec!["00000000-0000-0000-0000-000000000007"],
        h.node_texts(NodeContent::ParamSlot(max.handle, 1))
    );
    assert_eq!(vec![""], h.node_texts(NodeContent::ParamSlot(max.handle, 0)));
    assert!(h.node_texts(NodeContent::ParamSlot(max.handle, 2)).is_empty());
    assert!(h.value_get(max.handle).is_empty());
}

#[test]
fn a_graph_item_shows_type_slots_and_children() {
    let mut h = OSCQueryHandler::new(Sched::new());
    let leaf = h
        .graph_node_create(&Some(1), "leaf::midi::note", None, &None, &None)
        .unwrap();
    let node = h
        .graph_node_create(
            &Some(2),
            "node::gate",
            None,
            &Some(GraphNodeChildren::Indexed(vec![leaf, leaf])),
            &None,
        )
        .unwrap();
    let n = h.graph.find(node).unwrap();
    let base = "/xsched/graph/uuids/00000000-0000-0000-0000-000000000002";
    assert_eq!(
        vec![
            at(base, NodeAccess::Container, NodeContent::Branch),
            at(&format!("{}/type", base), NodeAccess::Get, NodeContent::ItemType(n)),
            at(&format!("{}/params", base), NodeAccess::Container, NodeContent::Branch),
            at(&format!("{}/params/gate", base), NodeAccess::Get, NodeContent::ItemSlot(n, 0)),
            at(
                &format!("{}/params/child_exec_index", base),
                NodeAccess::Get,
                NodeContent::ItemSlot(n, 1)
            ),
            at(&format!("{}/children", base), NodeAccess::Container, NodeContent::Branch),
            at(&format!("{}/children/ids", base), NodeAccess::Get, NodeContent::ChildrenIds(n)),
            at(&format!("{}/children/type", base), NodeAccess::Get, NodeContent::ChildrenType(n)),
        ],
        shape(&item_nodes(h.graph.item(n).unwrap(), n))
    );
    assert_eq!(vec!["node::gate"], h.node_texts(NodeContent::ItemType(n)));
    assert_eq!(vec!["Indexed"], h.node_texts(NodeContent::ChildrenType(n)));
    assert_eq!(
        vec![
            "00000000-0000-0000-0000-000000000001",
            "00000000-0000-0000-0000-000000000001"
        ],
        h.node_texts(NodeContent::ChildrenIds(n))
    );
    assert_eq!(vec![""], h.node_texts(NodeContent::ItemSlot(n, 0)));

    let l = h.graph.find(leaf).unwrap();
    let nodes = item_nodes(h.graph.item(l).unwrap(), l);
    assert_eq!(8, nodes.len());
    assert_eq!(
        "/xsched/graph/uuids/00000000-0000-0000-0000-000000000001/params/dur",
        nodes[7].address
    );
    assert!(h.node_texts(NodeContent::ChildrenIds(l)).is_empty());
    assert_eq!(vec![""], h.node_texts(NodeContent::ChildrenType(l)));
    assert!(h.node_texts(NodeContent::ItemType(50)).is_empty());
}

#[test]
fn values_travel_in_the_wire_type_of_their_tag() {
    assert_eq!(vec!["btrue"], wire(&to_wire(TypedValue::Bool(true))));
    assert_eq!(vec!["i200"], wire(&to_wire(TypedValue::U8(200))));
    assert_eq!(vec!["l2084"], wire(&to_wire(TypedValue::USize(2084))));
    assert_eq!(vec!["l-3"], wire(&to_wire(TypedValue::ISize(-3))));
    assert_eq!(
        vec!["d1.5"],
        wire(&to_wire(TypedValue::Float(Float::from_bits(1.5f64.to_bits()))))
    );
    assert_eq!(
        vec!["d120", "l96", "d5208"],
        wire(&to_wire(TypedValue::ClockData(ClockData::new(
            Float::from_bits(120.0f64.to_bits()),
            96,
            Float::from_bits(5208.0f64.to_bits())
        ))))
    );
    assert_eq!(
        vec!["sRelative", "l20"],
        wire(&to_wire(TypedValue::TickResched(TickResched::Relative(20))))
    );
    assert_eq!(
        vec!["sNone", "l0"],
        wire(&to_wire(TypedValue::TickSched(TickSched::Unset)))
    );
}

#[test]
fn what_arrives_is_brought_into_range() {
    let nothing: Vec<OscType> = Vec::new();
    assert_eq!(None, from_wire(&nothing, TypedValue::Bool(false)));
    assert_eq!(
        Some(TypedValue::Bool(true)),
        from_wire(&vec![OscType::Bool(true)], TypedValue::Bool(false))
    );
    assert_eq!(None, from_wire(&vec![OscType::Int(1)], TypedValue::Bool(false)));
    assert_eq!(
        Some(TypedValue::U8(255)),
        from_wire(&vec![OscType::Int(1000)], TypedValue::U8(0))
    );
    assert_eq!(
        Some(TypedValue::USize(0)),
        from_wire(&vec![OscType::Long(-1)], TypedValue::USize(5))
    );
    assert_eq!(
        Some(TypedValue::ISize(-1)),
        from_wire(&vec![OscType::Long(-1)], TypedValue::ISize(5))
    );
    assert_eq!(
        Some(TypedValue::TickResched(TickResched::ContextRelative(4))),
        from_wire(
            &vec![OscType::Text("ContextRelative".to_string()), OscType::Long(4)],
            TypedValue::TickResched(TickResched::Never)
        )
    );
    assert_eq!(
        Some(TypedValue::TickResched(TickResched::Relative(0))),
        from_wire(
            &vec![OscType::Text("Relative".to_string())],
            TypedValue::TickResched(TickResched::Never)
        )
    );
    assert_eq!(
        Some(TypedValue::TickResched(TickResched::Relative(9))),
        from_wire(
            &vec![OscType::Text("Maybe".to_string()), OscType::Long(4)],
            TypedValue::TickResched(TickResched::Relative(9))
        )
    );
    assert_eq!(
        Some(TypedValue::TickSched(TickSched::Absolute(4))),
        from_wire(
            &vec![OscType::Text("Absolute".to_string()), OscType::Long(4)],
            TypedValue::TickSched(TickSched::Unset)
        )
    );
    assert_eq!(
        None,
        from_wire(
            &vec![OscType::Double(Float::from_bits(0))],
            TypedValue::ClockData(ClockData::new(Float::from_bits(0), 1, Float::from_bits(0)))
        )
    );
}

#[test]
fn values_are_read_and_written_through_the_shadow() {
    let mut h = OSCQueryHandler::new(Sched::new());
    let v = h.param_create(&Some(1), "val::<u8>", "3", &None).unwrap();
    let c = h.param_create(&Some(2), "const::<u8>", "3", &None).unwrap();
    let v = h.params.find(v).unwrap();
    let c = h.params.find(c).unwrap();
    assert_eq!(vec!["i3"], wire(&h.value_get(v)));
    h.value_set(v, &vec![OscType::Int(300)]);
    assert_eq!(vec!["i255"], wire(&h.value_get(v)));
    h.value_set(v, &vec![OscType::Long(5)]);
    assert_eq!(vec!["i255"], wire(&h.value_get(v)));
    h.value_set(c, &vec![OscType::Int(9)]);
    assert_eq!(vec!["i3"], wire(&h.value_get(c)));
    h.value_set(77, &vec![OscType::Int(9)]);
    assert!(h.value_get(77).is_empty());
}
