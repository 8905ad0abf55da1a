use slang::{
    loaded_module, owned_result, Blob, ComponentType, Downcast, EntryPoint, Error, Interface,
    Module, ObjectTable, TypeConformance, FAIL,
};

#[test]
fn clones_and_releases_balance() {
    let mut table = ObjectTable::new();
    let h = table.create();
    assert_eq!(table.ref_count(&h), 1);
    let n = 5;
    let mut clones = Vec::new();
    for i in 0..n {
        clones.push(table.add_ref(&h));
        assert_eq!(table.ref_count(&h), 2 + i as u64);
    }
    let id = h.object_index();
    for c in clones {
        table.release(c);
        assert!(table.is_alive(id));
    }
    assert_eq!(table.ref_count(&h), 1);
    table.release(h);
    assert!(!table.is_alive(id));
}

#[test]
fn only_the_handled_object_changes() {
    let mut table = ObjectTable::new();
    let a = table.create();
    let b = table.create();
    let a2 = table.add_ref(&a);
    assert_eq!(table.ref_count(&a), 2);
    assert_eq!(table.ref_count(&b), 1);
    table.release(a2);
    table.release(b);
    assert_eq!(table.ref_count(&a), 1);
    assert!(!table.is_alive(1));
    assert!(table.is_alive(0));
}

#[test]
fn null_results_give_no_handle() {
    let mut table = ObjectTable::new();
    let a = table.create();
    assert!(table.adopt(None).is_none());
    assert!(table.adopt(Some(9)).is_none());
    let adopted = table.adopt(Some(0)).unwrap();
    assert_eq!(adopted.object_index(), 0);
    assert_eq!(table.ref_count(&a), 1);
    assert!(table.retain(None).is_none());
    assert!(table.retain(Some(3)).is_none());
    assert_eq!(table.ref_count(&a), 1);
}

#[test]
fn borrowed_results_take_one_more_reference() {
    let mut table = ObjectTable::new();
    let a = table.create();
    let retained = table.retain(Some(0)).unwrap();
    assert_eq!(retained.object_index(), 0);
    assert_eq!(table.ref_count(&a), 2);
    table.release(retained);
    table.release(a);
    assert!(!table.is_alive(0));
    assert!(table.retain(Some(0)).is_none());
}

#[test]
fn downcast_names_the_same_object_without_a_new_reference() {
    let mut table = ObjectTable::new();
    let module = Module(ComponentType(table.create()));
    let entry = EntryPoint(ComponentType(table.create()));
    let conformance = TypeConformance(ComponentType(table.create()));
    let general: &ComponentType = module.downcast();
    assert_eq!(general.0.object_index(), 0);
    assert_eq!(table.ref_count(&general.0), 1);
    let general: &ComponentType = entry.downcast();
    assert_eq!(general.0.object_index(), 1);
    let general: &ComponentType = conformance.downcast();
    assert_eq!(general.0.object_index(), 2);
    assert_eq!(table.ref_count(&general.0), 1);
}

#[test]
fn owned_results_keep_their_count() {
    let mut table = ObjectTable::new();
    let linked = table.create();
    let h = owned_result(&table, 0, Some(0), None).unwrap();
    assert_eq!(h.object_index(), 0);
    assert_eq!(table.ref_count(&linked), 1);
    match owned_result(&table, -4, Some(0), Some(Blob::new(b"link error".to_vec()))) {
        Err(Error::Blob(b)) => assert_eq!(b.as_str().unwrap(), "link error"),
        _ => panic!("expected diagnostics"),
    }
    assert!(matches!(owned_result(&table, -4, None, None), Err(Error::Code(-4))));
    assert!(matches!(owned_result(&table, 0, None, None), Err(Error::Code(c)) if c == FAIL));
}

#[test]
fn loaded_modules_take_one_more_reference() {
    let mut table = ObjectTable::new();
    let raw = table.create();
    let module = loaded_module(&mut table, Some(0), None).unwrap();
    assert_eq!(table.ref_count(&raw), 2);
    assert_eq!(module.downcast().0.object_index(), 0);
    match loaded_module(&mut table, None, Some(Blob::new(b"test.slang(1): error".to_vec()))) {
        Err(Error::Blob(b)) => assert!(b.as_str().unwrap().contains("error")),
        _ => panic!("expected diagnostics"),
    }
    assert!(matches!(loaded_module(&mut table, Some(5), None), Err(Error::Code(_))));
    assert_eq!(table.ref_count(&raw), 2);
    let ids = [
        slang::GlobalSession::iid(),
        slang::Session::iid(),
        slang::Metadata::iid(),
        ComponentType::iid(),
        EntryPoint::iid(),
        TypeConformance::iid(),
        Module::iid(),
    ];
    assert_eq!(Module::iid().data1, 0x0c720e64);
    assert_eq!(ComponentType::iid().data4, [0x9e, 0x5e, 0xd1, 0x5e, 0x7c, 0x24, 0x01, 0x5f]);
    for i in 0..ids.len() {
        for j in 0..i {
            assert_ne!(ids[i], ids[j]);
        }
    }
}
