use std::cell::RefCell;
use std::rc::Rc;

use vst_gui::client_site::{
    get_host_info, get_type_info_count, new_client_site, new_in_place_frame, show_context_menu,
    site_answer, ClientSite, SiteCall, CONTEXT_MENU_CONTROL, CONTEXT_MENU_HSCROLL,
    CONTEXT_MENU_TEXTSELECT, CONTEXT_MENU_VSCROLL,
};
use vst_gui::com_pointer::{ComPointer, Facet, InterfacePointer};
use vst_gui::dispatch::{
    get_ids_of_names, DispatchParameters, Variant, DISPATCH_METHOD, DISPID_INVOKE,
};
use vst_gui::foreign_object::ForeignObject;
use vst_gui::geometry::Rect;
use vst_gui::in_place_frame::{frame_answer, FrameCall, InPlaceFrame};
use vst_gui::interface::{Guid, Interface};
use vst_gui::object_table::{Object, ObjectTable};
use vst_gui::status::Status;
use vst_gui::utf16::{decode, encode};

fn silent(_text: String) -> String {
    String::new()
}

fn pointer(object: usize, facet: Facet) -> InterfacePointer {
    InterfacePointer { object, facet }
}

#[test]
fn a_new_site_has_one_reference_and_a_frame_of_its_own() {
    let mut table = ObjectTable::new();
    let none = ComPointer::new();
    let site = new_client_site(&mut table, 0x5150, &none, Rc::new(silent));
    assert_eq!(site.as_ptr(), Some(pointer(1, Facet::OleClientSite)));
    assert_eq!(table.len(), 2);
    assert_eq!(table.reference_count(0), Some(1));
    assert_eq!(table.reference_count(1), Some(1));
    assert!(matches!(table.get(pointer(0, Facet::OleInPlaceFrame)), Some(Object::InPlaceFrame(_))));
    match site.get(&table) {
        Some(Object::ClientSite(object)) => {
            assert_eq!(object.reference_count(), 1);
            assert_eq!(object.get_window(), (Status::Success, 0x5150));
            assert_eq!(object.frame_pointer(), Some(pointer(0, Facet::OleInPlaceFrame)));
        },
        _ => panic!("the wrapper leads to no client site"),
    }
}

#[test]
fn every_supported_interface_gets_its_header_and_one_reference() {
    let mut table = ObjectTable::new();
    let site = new_client_site(&mut table, 1, &ComPointer::new(), Rc::new(silent));
    let through = site.as_ptr().unwrap();
    let expected = [
        (Interface::Unknown, Facet::OleClientSite),
        (Interface::OleClientSite, Facet::OleClientSite),
        (Interface::OleInPlaceSite, Facet::OleInPlaceSite),
        (Interface::OleWindow, Facet::OleInPlaceSite),
        (Interface::DocHostUiHandler, Facet::DocHostUiHandler),
        (Interface::Dispatch, Facet::Dispatch),
    ];
    let mut count = 1;
    for (interface, facet) in expected.iter() {
        let (status, header) = table.query_interface(through, &interface.iid());
        count += 1;
        assert_eq!(status, Status::Success);
        assert_eq!(header, Some(pointer(1, *facet)));
        assert_eq!(table.reference_count(1), Some(count));
    }
    assert_eq!(table.reference_count(0), Some(1));
}

#[test]
fn every_header_answers_queries_alike() {
    let mut table = ObjectTable::new();
    let _site = new_client_site(&mut table, 1, &ComPointer::new(), Rc::new(silent));
    let headers =
        [Facet::OleClientSite, Facet::OleInPlaceSite, Facet::DocHostUiHandler, Facet::Dispatch];
    let mut count = 1;
    for header in headers.iter() {
        let (status, answer) =
            table.query_interface(pointer(1, *header), &Interface::Dispatch.iid());
        count += 1;
        assert_eq!(status, Status::Success);
        assert_eq!(answer, Some(pointer(1, Facet::Dispatch)));
        assert_eq!(table.add_ref(pointer(1, *header)), count + 1);
        assert_eq!(table.release(pointer(1, *header)), count);
    }
}

#[test]
fn an_unsupported_interface_gets_no_pointer_and_no_reference() {
    let mut table = ObjectTable::new();
    let site = new_client_site(&mut table, 1, &ComPointer::new(), Rc::new(silent));
    let through = site.as_ptr().unwrap();
    for interface in [Interface::OleObject, Interface::OleInPlaceFrame, Interface::WebBrowser2] {
        let (status, header) = table.query_interface(through, &interface.iid());
        assert_eq!(status, Status::NoInterface);
        assert_eq!(header, None);
    }
    let stranger = Guid { data1: 7, data2: 7, data3: 7, data4: [7; 8] };
    assert_eq!(table.query_interface(through, &stranger), (Status::NoInterface, None));
    assert_eq!(table.reference_count(1), Some(1));
}

#[test]
fn as_many_releases_as_references_destroy_the_site_once() {
    let mut table = ObjectTable::new();
    let site = new_client_site(&mut table, 1, &ComPointer::new(), Rc::new(silent));
    let through = site.as_ptr().unwrap();
    assert_eq!(table.add_ref(through), 2);
    assert_eq!(table.add_ref(through), 3);
    assert_eq!(table.add_ref(through), 4);
    assert_eq!(table.release(through), 3);
    assert_eq!(table.release(through), 2);
    assert_eq!(table.release(through), 1);
    assert_eq!(table.reference_count(1), Some(1));
    assert_eq!(table.reference_count(0), Some(1));
    assert_eq!(table.release(through), 0);
    assert_eq!(table.reference_count(1), None);
    assert!(table.get(through).is_none());
    assert_eq!(table.reference_count(0), None);
    assert_eq!(table.len(), 2);
}

#[test]
fn a_frame_that_the_host_still_holds_outlives_its_site() {
    let mut table = ObjectTable::new();
    let site = new_client_site(&mut table, 0xbeef, &ComPointer::new(), Rc::new(silent));
    let (status, context) = table.get_window_context(pointer(1, Facet::OleInPlaceSite));
    assert_eq!(status, Status::Success);
    assert_eq!(context.frame, Some(pointer(0, Facet::OleInPlaceFrame)));
    assert_eq!(context.document, None);
    assert!(!context.frame_info.mdi_app);
    assert_eq!(context.frame_info.frame_window, 0xbeef);
    assert_eq!(context.frame_info.accelerators, 0);
    assert_eq!(context.frame_info.accelerator_entries, 0);
    assert_eq!(table.reference_count(0), Some(2));
    site.release(&mut table);
    assert_eq!(table.reference_count(1), None);
    assert_eq!(table.reference_count(0), Some(1));
    assert_eq!(table.get_window(context.frame.unwrap()), (Status::Success, 0xbeef));
    assert_eq!(table.release(context.frame.unwrap()), 0);
    assert_eq!(table.reference_count(0), None);
}

#[test]
fn site_and_frame_name_their_window() {
    let mut table = ObjectTable::new();
    let _site = new_client_site(&mut table, 42, &ComPointer::new(), Rc::new(silent));
    assert_eq!(table.get_window(pointer(1, Facet::OleInPlaceSite)), (Status::Success, 42));
    assert_eq!(table.get_window(pointer(0, Facet::OleInPlaceFrame)), (Status::Success, 42));
}

#[test]
fn a_changed_rectangle_goes_on_to_the_in_place_object() {
    let mut table = ObjectTable::new();
    let control = table.insert(Object::Foreign(ForeignObject::new(vec![
        Interface::Unknown,
        Interface::OleInPlaceObject,
    ])));
    let in_place = ComPointer::from_raw(Some(pointer(control, Facet::Foreign)));
    let site = new_client_site(&mut table, 1, &in_place, Rc::new(silent));
    let site_id = site.as_ptr().unwrap().object;
    assert_eq!(table.reference_count(control), Some(1));
    let rect = Rect { left: 0, top: 0, right: 640, bottom: 480 };
    let status = table.on_pos_rect_change(pointer(site_id, Facet::OleInPlaceSite), rect);
    assert_eq!(status, Status::Success);
    match table.get(pointer(control, Facet::Foreign)) {
        Some(Object::Foreign(object)) => assert_eq!(object.rects(), Some((rect, rect))),
        _ => panic!("the control has left the table"),
    }
    assert_eq!(table.reference_count(control), Some(1));
    site.release(&mut table);
    assert_eq!(table.reference_count(control), Some(1));
    in_place.release(&mut table);
    assert_eq!(table.reference_count(control), None);
}

#[test]
fn a_changed_rectangle_without_in_place_object_changes_nothing() {
    let mut table = ObjectTable::new();
    let _site = new_client_site(&mut table, 1, &ComPointer::new(), Rc::new(silent));
    let rect = Rect { left: 1, top: 2, right: 3, bottom: 4 };
    assert_eq!(table.on_pos_rect_change(pointer(1, Facet::OleInPlaceSite), rect), Status::Success);
    assert_eq!(table.reference_count(0), Some(1));
    assert_eq!(table.reference_count(1), Some(1));
}

#[test]
fn external_is_the_dispatch_header_of_the_same_site() {
    let mut table = ObjectTable::new();
    let _site = new_client_site(&mut table, 1, &ComPointer::new(), Rc::new(silent));
    let (status, external) = table.get_external(pointer(1, Facet::DocHostUiHandler));
    assert_eq!(status, Status::Success);
    assert_eq!(external, Some(pointer(1, Facet::Dispatch)));
    assert_eq!(table.reference_count(1), Some(2));
}

#[test]
fn the_bridge_reaches_the_callback_of_its_site() {
    let seen: Rc<RefCell<Vec<String>>> = Rc::new(RefCell::new(Vec::new()));
    let log = seen.clone();
    let callback = move |text: String| -> String {
        log.borrow_mut().push(text.clone());
        text.to_uppercase()
    };
    let mut table = ObjectTable::new();
    let _site = new_client_site(&mut table, 1, &ComPointer::new(), Rc::new(callback));
    let (_, external) = table.get_external(pointer(1, Facet::DocHostUiHandler));
    let (status, ids) = get_ids_of_names(&vec![encode("invoke")]);
    assert_eq!(status, Status::Success);
    let parameters = DispatchParameters {
        arguments: vec![Variant::string(encode("setFrequency 440"))],
        named_arguments: 0,
    };
    let outcome = table.invoke(external.unwrap(), ids[0], DISPATCH_METHOD, &parameters, true);
    assert_eq!(outcome.status, Status::Success);
    assert_eq!(decode(&outcome.result.unwrap().text), Some(String::from("SETFREQUENCY 440")));
    assert_eq!(*seen.borrow(), vec![String::from("setFrequency 440")]);
    let wrong = table.invoke(external.unwrap(), DISPID_INVOKE + 1, DISPATCH_METHOD, &parameters, true);
    assert_eq!(wrong.status, Status::MemberNotFound);
    assert_eq!(seen.borrow().len(), 1);
}

#[test]
fn context_menus_of_controls_selections_and_scroll_bars_are_suppressed() {
    assert_eq!(show_context_menu(CONTEXT_MENU_CONTROL), Status::Success);
    assert_eq!(show_context_menu(CONTEXT_MENU_TEXTSELECT), Status::Success);
    assert_eq!(show_context_menu(CONTEXT_MENU_VSCROLL), Status::Success);
    assert_eq!(show_context_menu(CONTEXT_MENU_HSCROLL), Status::Success);
    assert_eq!(show_context_menu(2), Status::Success);
    assert_eq!(show_context_menu(4), Status::Success);
    assert_eq!(show_context_menu(9), Status::Success);
    assert_eq!(show_context_menu(10), Status::Success);
    assert_eq!(show_context_menu(2).code(), 0);
}

#[test]
fn every_other_context_gets_the_default_menu() {
    assert_eq!(show_context_menu(0), Status::Declined);
    assert_eq!(show_context_menu(1), Status::Declined);
    assert_eq!(show_context_menu(3), Status::Declined);
    assert_eq!(show_context_menu(5), Status::Declined);
    assert_eq!(show_context_menu(8), Status::Declined);
    assert_eq!(show_context_menu(11), Status::Declined);
    assert_eq!(show_context_menu(0x10), Status::Declined);
    assert_eq!(show_context_menu(u32::MAX), Status::Declined);
    assert_eq!(show_context_menu(0).code(), 1);
}

#[test]
fn host_info_carries_the_four_flags() {
    let (status, info) = get_host_info();
    assert_eq!(status, Status::Success);
    assert_eq!(info.flags, 0x00000004 | 0x00010000 | 0x00040000 | 0x40000000);
    assert_eq!(info.double_click, 0);
}

#[test]
fn fixed_answers_of_the_site() {
    assert_eq!(site_answer(SiteCall::SaveObject), Status::Success);
    assert_eq!(site_answer(SiteCall::ShowObject), Status::Success);
    assert_eq!(site_answer(SiteCall::OnShowWindow), Status::Success);
    assert_eq!(site_answer(SiteCall::CanInPlaceActivate), Status::Success);
    assert_eq!(site_answer(SiteCall::Scroll), Status::Success);
    assert_eq!(site_answer(SiteCall::DeactivateAndUndo), Status::Success);
    assert_eq!(site_answer(SiteCall::ResizeBorder), Status::Success);
    assert_eq!(site_answer(SiteCall::GetMoniker), Status::NotImplemented);
    assert_eq!(site_answer(SiteCall::RequestNewObjectLayout), Status::NotImplemented);
    assert_eq!(site_answer(SiteCall::GetDropTarget), Status::NotImplemented);
    assert_eq!(site_answer(SiteCall::GetTypeInfo), Status::NotImplemented);
    assert_eq!(site_answer(SiteCall::GetContainer), Status::NoInterface);
    assert_eq!(site_answer(SiteCall::TranslateAccelerator), Status::Declined);
    assert_eq!(site_answer(SiteCall::GetOptionKeyPath), Status::Declined);
    assert_eq!(site_answer(SiteCall::TranslateUrl), Status::Declined);
    assert_eq!(site_answer(SiteCall::FilterDataObject), Status::Declined);
    assert_eq!(get_type_info_count(), (Status::Success, 0));
}

#[test]
fn fixed_answers_of_the_frame() {
    assert_eq!(frame_answer(FrameCall::GetBorder), Status::NoToolSpace);
    assert_eq!(frame_answer(FrameCall::RequestBorderSpace), Status::NoToolSpace);
    assert_eq!(frame_answer(FrameCall::SetBorderSpace), Status::Success);
    assert_eq!(frame_answer(FrameCall::SetActiveObject), Status::Success);
    assert_eq!(frame_answer(FrameCall::InsertMenus), Status::Success);
    assert_eq!(frame_answer(FrameCall::SetStatusText), Status::Success);
    assert_eq!(frame_answer(FrameCall::TranslateAccelerator), Status::Success);
    assert_eq!(frame_answer(FrameCall::ContextSensitiveHelp), Status::Success);
}

#[test]
fn a_frame_answers_to_its_own_line_of_interfaces_only() {
    let mut table: ObjectTable<fn(String) -> String> = ObjectTable::new();
    let frame = new_in_place_frame(&mut table, 9);
    let through = frame.as_ptr().unwrap();
    assert_eq!(through, pointer(0, Facet::OleInPlaceFrame));
    let mut count = 1;
    for interface in [
        Interface::Unknown,
        Interface::OleWindow,
        Interface::OleInPlaceUiWindow,
        Interface::OleInPlaceFrame,
    ] {
        count += 1;
        assert_eq!(
            table.query_interface(through, &interface.iid()),
            (Status::Success, Some(through))
        );
        assert_eq!(table.reference_count(0), Some(count));
    }
    for interface in [Interface::OleClientSite, Interface::OleInPlaceSite, Interface::Dispatch] {
        assert_eq!(table.query_interface(through, &interface.iid()), (Status::NoInterface, None));
    }
    assert_eq!(table.reference_count(0), Some(5));
}

#[test]
fn objects_count_on_their_own() {
    let mut frame = InPlaceFrame::new(3);
    assert_eq!(frame.reference_count(), 1);
    assert_eq!(frame.add_ref(), 2);
    assert_eq!(frame.query_interface(&Interface::OleWindow.iid()), Status::Success);
    assert_eq!(frame.query_interface(&Interface::Dispatch.iid()), Status::NoInterface);
    assert_eq!(frame.release(), 2);
    assert_eq!(frame.get_window(), (Status::Success, 3));

    let mut site = ClientSite::new(4, ComPointer::new(), None, Rc::new(silent));
    assert_eq!(site.add_ref(), 2);
    assert_eq!(
        site.query_interface(&Interface::OleWindow.iid()),
        (Status::Success, Some(Facet::OleInPlaceSite))
    );
    assert_eq!(site.query_interface(&Interface::Stream.iid()), (Status::NoInterface, None));
    assert_eq!(site.get_external(), (Status::Success, Some(Facet::Dispatch)));
    assert_eq!(site.release(), 3);
    assert_eq!(site.on_pos_rect_change(), (Status::Success, None));
    assert_eq!(site.get_window_context().1.frame, None);

    let mut foreign = ForeignObject::new(vec![Interface::Unknown, Interface::Stream]);
    assert_eq!(foreign.query_interface(&Interface::Stream.iid()), Status::Success);
    assert_eq!(foreign.query_interface(&Interface::Dispatch.iid()), Status::NoInterface);
    assert_eq!(foreign.reference_count(), 2);
    assert_eq!(foreign.add_ref(), 3);
    assert_eq!(foreign.release(), 2);
    assert_eq!(foreign.rects(), None);
}

#[test]
fn one_release_too_many_is_reported_and_changes_nothing() {
    let mut table = ObjectTable::new();
    let site = new_client_site(&mut table, 1, &ComPointer::new(), Rc::new(silent));
    let through = site.as_ptr().unwrap();
    assert_eq!(table.add_ref(through), 2);
    assert_eq!(table.checked_release(through), Some(1));
    assert_eq!(table.reference_count(1), Some(1));
    assert_eq!(table.checked_release(through), Some(0));
    assert_eq!(table.reference_count(1), None);
    assert_eq!(table.reference_count(0), None);
    assert_eq!(table.checked_release(through), None);
    assert_eq!(table.checked_release(through), None);
    assert_eq!(table.reference_count(1), None);
    assert_eq!(table.len(), 2);
}

#[test]
fn counts_do_not_leave_their_range() {
    let mut frame = InPlaceFrame::new(3);
    assert_eq!(frame.checked_add_ref(), Some(2));
    assert_eq!(frame.checked_release(), Some(1));
    assert_eq!(frame.checked_release(), Some(0));
    assert_eq!(frame.checked_release(), None);
    assert_eq!(frame.reference_count(), 0);

    let mut site = ClientSite::new(4, ComPointer::new(), None, Rc::new(silent));
    assert_eq!(site.checked_add_ref(), Some(2));
    assert_eq!(site.checked_release(), Some(1));
    assert_eq!(site.checked_release(), Some(0));
    assert_eq!(site.checked_release(), None);
    assert_eq!(site.reference_count(), 0);
    assert_eq!(site.get_window(), (Status::Success, 4));
}
