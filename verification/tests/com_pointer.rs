use std::rc::Rc;

use vst_gui::client_site::new_client_site;
use vst_gui::com_pointer::{ComPointer, Facet, InterfacePointer};
use vst_gui::foreign_object::ForeignObject;
use vst_gui::interface::Interface;
use vst_gui::object_table::{Object, ObjectTable};

fn silent(_text: String) -> String {
    String::new()
}

fn table_with_control() -> (ObjectTable<fn(String) -> String>, ComPointer) {
    let mut table = ObjectTable::new();
    let control = table.insert(Object::Foreign(ForeignObject::new(vec![
        Interface::Unknown,
        Interface::Dispatch,
        Interface::OleObject,
        Interface::OleInPlaceObject,
        Interface::WebBrowser2,
    ])));
    let owner = ComPointer::from_raw(Some(InterfacePointer { object: control, facet: Facet::Foreign }));
    (table, owner)
}

#[test]
fn the_empty_wrapper_holds_nothing() {
    let (mut table, _control) = table_with_control();
    let empty = ComPointer::new();
    assert_eq!(empty.as_ptr(), None);
    assert!(empty.get(&table).is_none());
    let other = empty.query_interface(&mut table, Interface::Unknown);
    assert_eq!(other.as_ptr(), None);
    empty.release(&mut table);
    other.release(&mut table);
    assert_eq!(table.reference_count(0), Some(1));
}

#[test]
fn a_wrapper_of_a_raw_pointer_takes_no_reference() {
    let (table, control) = table_with_control();
    assert_eq!(control.as_ptr(), Some(InterfacePointer { object: 0, facet: Facet::Foreign }));
    assert!(matches!(control.get(&table), Some(Object::Foreign(_))));
    assert_eq!(table.reference_count(0), Some(1));
}

#[test]
fn the_place_of_the_pointer_can_be_written_through() {
    let mut owner = ComPointer::new();
    *owner.as_mut_ptr() = Some(InterfacePointer { object: 3, facet: Facet::Dispatch });
    assert_eq!(owner.as_ptr(), Some(InterfacePointer { object: 3, facet: Facet::Dispatch }));
    *owner.as_mut_ptr() = None;
    assert_eq!(owner.as_ptr(), None);
}

#[test]
fn each_successful_query_takes_one_reference_and_each_drop_gives_one_back() {
    let (mut table, control) = table_with_control();
    let requests = [
        Interface::OleObject,
        Interface::Stream,
        Interface::OleInPlaceObject,
        Interface::HtmlDocument2,
        Interface::Dispatch,
        Interface::Unknown,
    ];
    let mut wrappers = Vec::new();
    let mut expected = 1;
    for interface in requests.iter() {
        let wrapper = control.query_interface(&mut table, *interface);
        if wrapper.as_ptr().is_some() {
            expected += 1;
            assert_eq!(wrapper.as_ptr().unwrap().object, 0);
        }
        assert_eq!(table.reference_count(0), Some(expected));
        wrappers.push(wrapper);
    }
    assert_eq!(expected, 5);
    assert!(wrappers[1].as_ptr().is_none());
    assert!(wrappers[3].as_ptr().is_none());
    for wrapper in wrappers {
        if wrapper.as_ptr().is_some() {
            expected -= 1;
        }
        wrapper.release(&mut table);
        assert_eq!(table.reference_count(0), Some(expected));
    }
    assert_eq!(table.reference_count(0), Some(1));
    control.release(&mut table);
    assert_eq!(table.reference_count(0), None);
}

#[test]
fn a_query_through_a_site_leads_to_the_header_of_the_interface() {
    let mut table = ObjectTable::new();
    let site = new_client_site(&mut table, 1, &ComPointer::new(), Rc::new(silent));
    let dispatch = site.query_interface(&mut table, Interface::Dispatch);
    assert_eq!(dispatch.as_ptr(), Some(InterfacePointer { object: 1, facet: Facet::Dispatch }));
    let window = dispatch.query_interface(&mut table, Interface::OleWindow);
    assert_eq!(window.as_ptr(), Some(InterfacePointer { object: 1, facet: Facet::OleInPlaceSite }));
    let none = window.query_interface(&mut table, Interface::OleInPlaceFrame);
    assert_eq!(none.as_ptr(), None);
    assert_eq!(table.reference_count(1), Some(3));
    none.release(&mut table);
    window.release(&mut table);
    dispatch.release(&mut table);
    assert_eq!(table.reference_count(1), Some(1));
    site.release(&mut table);
    assert_eq!(table.reference_count(1), None);
    assert_eq!(table.reference_count(0), None);
}
