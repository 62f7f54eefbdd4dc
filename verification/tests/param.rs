use xsched::binding::{AsParamGet, AsParamSet};
use xsched::param::{BindingError, ParamAccess, ParamGet, ParamHashMap};
use xsched::store::{BinaryFn, Binding, Param, ParamDataAccess, ParamMapGet, ParamStore};
use xsched::value::{TypedValue, ValueTag};

#[test]
fn param_can_create() {
    let mut store = ParamStore::new();
    let g = store.insert(Param::new(
        "value",
        ParamDataAccess::Get(Binding::Cell(TypedValue::USize(0))),
        ParamHashMap::new(),
        None,
    ));
    assert_eq!("get", store.param(g.handle).unwrap().access_name());
    assert_eq!("value", store.param(g.handle).unwrap().type_label());
    assert_eq!("usize", store.param(g.handle).unwrap().data_type_name());

    let s = store.insert(Param::new(
        "value",
        ParamDataAccess::GetSet(Binding::Cell(TypedValue::USize(0))),
        ParamHashMap::new(),
        None,
    ));
    assert_eq!("getset", store.param(s.handle).unwrap().access_name());
    assert_eq!("usize", store.param(s.handle).unwrap().data_type_name());

    assert_eq!(
        Err(BindingError::KeyMissing),
        store.try_bind(s.handle, "soda", g.handle)
    );
    assert_eq!(
        Err(BindingError::KeyMissing),
        store.try_bind(g.handle, "foo", s.handle)
    );
    assert_eq!(None, store.param(s.handle).unwrap().params().uuid("soda"));
    assert_eq!(None, store.param(s.handle).unwrap().params().uuid("foo"));

    let mut map = ParamHashMap::new();
    map.insert_unbound(
        "left",
        ParamAccess::new_get(ParamGet::with_tag(ValueTag::USize)),
    );
    map.insert_unbound(
        "right",
        ParamAccess::new_get(ParamGet::with_tag(ValueTag::USize)),
    );
    let max = store.insert(Param::new(
        "value",
        ParamDataAccess::Get(Binding::BinaryOp(BinaryFn::Max, ValueTag::USize)),
        map,
        None,
    ));
    assert_eq!(None, store.param(s.handle).unwrap().params().uuid("left"));
    assert_eq!(None, store.param(s.handle).unwrap().params().uuid("right"));
    assert_eq!(None, store.param(s.handle).unwrap().params().uuid("bill"));

    {
        let p = store.param(max.handle).unwrap();
        assert_eq!(Some("get"), p.params().access_name("left"));
        assert_eq!(Some("get"), p.params().access_name("right"));
        assert_eq!(None, p.params().access_name("bill"));

        assert_eq!(Some("usize"), p.params().data_type_name("left"));
        assert_eq!(Some("usize"), p.params().data_type_name("right"));

        assert_eq!(None, p.params().data_type_name("bill"));
        assert_eq!(None, p.params().data_type_name("bill"));

        let keys: Vec<&'static str> = p.params().keys();
        assert_eq!(2, keys.len());
        assert!(keys.contains(&"left"));
        assert!(keys.contains(&"right"));

        assert_eq!("get", p.access_name());
        assert_eq!("usize", p.data_type_name());
    }

    let get_max = AsParamGet::<usize>::as_get(&max);
    let get_bool = AsParamGet::<bool>::as_get(&max);
    assert!(get_bool.is_none());
    assert!(get_max.is_some());

    let get_max = get_max.unwrap();
    assert_eq!(Some(0), get_max.get::<usize>(&store));

    let left = store.insert(Param::new(
        "value",
        ParamDataAccess::GetSet(Binding::Cell(TypedValue::USize(1))),
        ParamHashMap::new(),
        None,
    ));
    assert_eq!(None, store.param(max.handle).unwrap().params().uuid("left"));
    assert!(store.try_bind(max.handle, "left", left.handle).is_ok());
    assert_eq!(
        Some(left.uuid),
        store.param(max.handle).unwrap().params().uuid("left")
    );
    assert_eq!(Some(1), get_max.get::<usize>(&store));

    let right = store.insert(Param::new(
        "value",
        ParamDataAccess::Get(Binding::Cell(TypedValue::USize(2))),
        ParamHashMap::new(),
        None,
    ));
    assert_eq!(None, store.param(max.handle).unwrap().params().uuid("right"));
    assert!(store.try_bind(max.handle, "right", right.handle).is_ok());
    assert_eq!(
        Some(left.uuid),
        store.param(max.handle).unwrap().params().uuid("left")
    );
    assert_eq!(
        Some(right.uuid),
        store.param(max.handle).unwrap().params().uuid("right")
    );
    assert_eq!(Some(2), get_max.get::<usize>(&store));
    store.unbind(max.handle, "right");
    assert_eq!(None, store.param(max.handle).unwrap().params().uuid("right"));
    assert_eq!(Some(1), get_max.get::<usize>(&store));

    assert!(store.try_bind(max.handle, "right", left.handle).is_ok());
    assert!(store.try_bind(max.handle, "left", right.handle).is_ok());
    assert_eq!(
        Some(left.uuid),
        store.param(max.handle).unwrap().params().uuid("right")
    );
    assert_eq!(
        Some(right.uuid),
        store.param(max.handle).unwrap().params().uuid("left")
    );
    assert_eq!(Some(2), get_max.get::<usize>(&store));

    assert!(store.try_bind(max.handle, "left", left.handle).is_ok());
    assert!(store.try_bind(max.handle, "right", right.handle).is_ok());
    assert_eq!(
        Some(left.uuid),
        store.param(max.handle).unwrap().params().uuid("left")
    );
    assert_eq!(
        Some(right.uuid),
        store.param(max.handle).unwrap().params().uuid("right")
    );
    store.unbind(max.handle, "left");
    assert_eq!(
        Some(right.uuid),
        store.param(max.handle).unwrap().params().uuid("right")
    );
    assert_eq!(None, store.param(max.handle).unwrap().params().uuid("left"));
    assert_eq!(Some(2), get_max.get::<usize>(&store));

    store.unbind(max.handle, "right");
    assert_eq!(None, store.param(max.handle).unwrap().params().uuid("right"));
    assert_eq!(None, store.param(max.handle).unwrap().params().uuid("left"));
    assert_eq!(Some(0), get_max.get::<usize>(&store));

    assert!(store.try_bind(max.handle, "left", left.handle).is_ok());
    assert!(store.try_bind(max.handle, "right", right.handle).is_ok());
    assert_eq!(
        Some(left.uuid),
        store.param(max.handle).unwrap().params().uuid("left")
    );
    assert_eq!(
        Some(right.uuid),
        store.param(max.handle).unwrap().params().uuid("right")
    );
    assert_eq!(Some(2), get_max.get::<usize>(&store));

    let sleft = AsParamSet::<usize>::as_set(&left);
    assert!(sleft.is_some());
    assert!(sleft.unwrap().set::<usize>(&mut store, 2084));
    assert_eq!(Some(2084), get_max.get::<usize>(&store));
}

#[test]
fn binding_can_create() {
    let mut store = ParamStore::new();
    let g = store.insert(Param::new(
        "value",
        ParamDataAccess::Get(Binding::Cell(TypedValue::USize(0))),
        ParamHashMap::new(),
        None,
    ));
    assert_eq!("get", store.param(g.handle).unwrap().access_name());
    assert_eq!("value", store.param(g.handle).unwrap().type_label());
    assert_eq!("usize", store.param(g.handle).unwrap().data_type_name());

    let s = store.insert(Param::new(
        "value",
        ParamDataAccess::GetSet(Binding::Cell(TypedValue::USize(0))),
        ParamHashMap::new(),
        None,
    ));
    assert_eq!("getset", store.param(s.handle).unwrap().access_name());
    assert_eq!("usize", store.param(s.handle).unwrap().data_type_name());

    assert_eq!(
        Err(BindingError::KeyMissing),
        store.try_bind(s.handle, "soda", g.handle)
    );
    assert_eq!(
        Err(BindingError::KeyMissing),
        store.try_bind(g.handle, "foo", s.handle)
    );
    assert_eq!(None, store.param(s.handle).unwrap().params().uuid("soda"));
    assert_eq!(None, store.param(s.handle).unwrap().params().uuid("foo"));

    let mut map = ParamHashMap::new();
    map.insert_unbound(
        "left",
        ParamAccess::new_get(ParamGet::with_tag(ValueTag::USize)),
    );
    map.insert_unbound(
        "right",
        ParamAccess::new_get(ParamGet::with_tag(ValueTag::USize)),
    );
    let max = store.insert(Param::new(
        "value",
        ParamDataAccess::Get(Binding::BinaryOp(BinaryFn::Max, ValueTag::USize)),
        map,
        None,
    ));
    assert_eq!(None, store.param(s.handle).unwrap().params().uuid("left"));
    assert_eq!(None, store.param(s.handle).unwrap().params().uuid("right"));
    assert_eq!(None, store.param(s.handle).unwrap().params().uuid("bill"));

    {
        let p = store.param(max.handle).unwrap();
        assert_eq!(Some("get"), p.params().access_name("left"));
        assert_eq!(Some("get"), p.params().access_name("right"));
        assert_eq!(None, p.params().access_name("bill"));
        assert_eq!(Some("usize"), p.params().data_type_name("left"));
        assert_eq!(Some("usize"), p.params().data_type_name("right"));
        assert_eq!(None, p.params().data_type_name("bill"));
        assert_eq!(None, p.params().data_type_name("bill"));
        let keys: Vec<&'static str> = p.params().keys();
        assert_eq!(2, keys.len());
        assert!(keys.contains(&"left"));
        assert!(keys.contains(&"right"));
        assert_eq!("get", p.access_name());
        assert_eq!("usize", p.data_type_name());
    }

    let get_max = AsParamGet::<usize>::as_get(&max);
    assert!(AsParamGet::<bool>::as_get(&max).is_none());
    assert!(get_max.is_some());
    let get_max = get_max.unwrap();
    assert_eq!(Some(0), get_max.get::<usize>(&store));

    let left = store.insert(Param::new(
        "value",
        ParamDataAccess::GetSet(Binding::Cell(TypedValue::USize(1))),
        ParamHashMap::new(),
        None,
    ));
    assert_eq!(None, store.param(max.handle).unwrap().params().uuid("left"));
    assert!(store.try_bind(max.handle, "left", left.handle).is_ok());
    assert_eq!(
        Some(left.uuid),
        store.param(max.handle).unwrap().params().uuid("left")
    );
    assert_eq!(Some(1), get_max.get::<usize>(&store));

    let right = store.insert(Param::new(
        "value",
        ParamDataAccess::Get(Binding::Cell(TypedValue::USize(2))),
        ParamHashMap::new(),
        None,
    ));
    assert_eq!(None, store.param(max.handle).unwrap().params().uuid("right"));
    assert!(store.try_bind(max.handle, "right", right.handle).is_ok());
    assert_eq!(Some(2), get_max.get::<usize>(&store));
    store.unbind(max.handle, "right");
    assert_eq!(None, store.param(max.handle).unwrap().params().uuid("right"));
    assert_eq!(Some(1), get_max.get::<usize>(&store));

    assert!(store.try_bind(max.handle, "right", left.handle).is_ok());
    assert!(store.try_bind(max.handle, "left", right.handle).is_ok());
    assert_eq!(
        Some(left.uuid),
        store.param(max.handle).unwrap().params().uuid("right")
    );
    assert_eq!(
        Some(right.uuid),
        store.param(max.handle).unwrap().params().uuid("left")
    );
    assert_eq!(Some(2), get_max.get::<usize>(&store));

    assert!(store.try_bind(max.handle, "left", left.handle).is_ok());
    assert!(store.try_bind(max.handle, "right", right.handle).is_ok());
    store.unbind(max.handle, "left");
    assert_eq!(
        Some(right.uuid),
        store.param(max.handle).unwrap().params().uuid("right")
    );
    assert_eq!(None, store.param(max.handle).unwrap().params().uuid("left"));
    assert_eq!(Some(2), get_max.get::<usize>(&store));

    store.unbind(max.handle, "right");
    assert_eq!(None, store.param(max.handle).unwrap().params().uuid("right"));
    assert_eq!(None, store.param(max.handle).unwrap().params().uuid("left"));
    assert_eq!(Some(0), get_max.get::<usize>(&store));

    assert!(store.try_bind(max.handle, "left", left.handle).is_ok());
    assert!(store.try_bind(max.handle, "right", right.handle).is_ok());
    assert_eq!(Some(2), get_max.get::<usize>(&store));

    let sleft = AsParamSet::<usize>::as_set(&left);
    assert!(sleft.is_some());
    assert!(sleft.unwrap().set::<usize>(&mut store, 2084));
    assert_eq!(Some(2084), get_max.get::<usize>(&store));
}
