use std::cell::RefCell;
use std::rc::Rc;

use vst_gui::browser::{new_browser, Answer};
use vst_gui::client_site::new_client_site;
use vst_gui::com_pointer::{ComPointer, Facet, InterfacePointer};
use vst_gui::dispatch::{
    get_ids_of_names, DispatchParameters, Variant, DISPATCH_METHOD, VT_BSTR,
};
use vst_gui::error::RuntimeError;
use vst_gui::foreign_object::ForeignObject;
use vst_gui::geometry::Rect;
use vst_gui::gui::new_plugin_gui;
use vst_gui::interface::Interface;
use vst_gui::object_table::{Object, ObjectTable};
use vst_gui::status::Status;
use vst_gui::utf16::encode;

const HTML: &str = "<!doctype html><body><input id=\"waveformRange\" type=\"range\"/></body>";

#[test]
fn a_new_gui_is_closed() {
    let gui = new_plugin_gui(String::from(HTML), |_text: String| String::new(), Some((300, 200)));
    assert!(!gui.is_open());
    assert_eq!(gui.window_handle(), None);
    assert_eq!(gui.html_document(), HTML);
    assert_eq!(gui.position(), (0, 0));
    assert_eq!(gui.size(&Rect { left: 0, top: 0, right: 300, bottom: 200 }), (0, 0));
    assert_eq!(gui.window_size(1920, 1080), (300, 200));
    let error = gui.execute("1 + 1").unwrap_err();
    assert_eq!(error.description(), "The plugin window is closed");
}

#[test]
fn a_gui_without_wanted_size_opens_at_half_the_screen() {
    let gui = new_plugin_gui(String::from(HTML), |_text: String| String::new(), None);
    assert_eq!(gui.window_size(1920, 1080), (960, 540));
}

#[test]
fn an_open_gui_has_the_size_of_its_window_and_runs_scripts() {
    let mut gui = new_plugin_gui(String::from(HTML), |_text: String| String::new(), None);
    let control = InterfacePointer { object: 0, facet: Facet::Foreign };
    assert!(gui.open(0x77, Ok(control)).is_ok());
    assert!(gui.is_open());
    assert_eq!(gui.window_handle(), Some(0x77));
    assert_eq!(gui.size(&Rect { left: 5, top: 5, right: 805, bottom: 605 }), (800, 600));
    assert_eq!(gui.position(), (0, 0));
    let (target, parameters) = gui.execute("setKnob(3)").unwrap();
    assert_eq!(target, control);
    assert_eq!(parameters.named_arguments, 0);
    assert_eq!(parameters.arguments.len(), 1);
    assert_eq!(parameters.arguments[0].vt, VT_BSTR);
    assert_eq!(parameters.arguments[0].text, encode("setKnob(3)"));
    assert_eq!(gui.close(), (Some(control), Some(0x77)));
    assert!(!gui.is_open());
    assert!(gui.execute("setKnob(3)").is_err());
    assert_eq!(gui.close(), (None, None));
}

#[test]
fn a_window_without_browser_stays_open_and_runs_no_script() {
    let mut gui = new_plugin_gui(String::from(HTML), |_text: String| String::new(), None);
    let failure = RuntimeError::new("Couldn't reveal an HTML browser");
    let opened = gui.open(0x78, Err(failure));
    assert_eq!(opened.unwrap_err().description(), "Couldn't reveal an HTML browser");
    assert!(gui.is_open());
    assert_eq!(gui.execute("x").unwrap_err().description(), "The plugin window is closed");
}

#[test]
fn a_call_of_the_page_reaches_the_callback_and_a_reopened_gui_starts_afresh() {
    let seen: Rc<RefCell<Vec<String>>> = Rc::new(RefCell::new(Vec::new()));
    let log = seen.clone();
    let callback = move |text: String| -> String {
        log.borrow_mut().push(text);
        String::new()
    };
    let mut gui = new_plugin_gui(String::from(HTML), callback, None);
    let mut table = ObjectTable::new();
    let mut count_of_sites = 0;
    for round in 0..2 {
        // The host's side: its control, and its answers to the setup.
        let control_place = table.insert(Object::Foreign(ForeignObject::new(vec![
            Interface::Unknown,
            Interface::OleObject,
            Interface::OleInPlaceObject,
            Interface::WebBrowser2,
        ])));
        let control =
            ComPointer::from_raw(Some(InterfacePointer { object: control_place, facet: Facet::Foreign }));
        let in_place = control.query_interface(&mut table, Interface::OleInPlaceObject);
        assert!(in_place.as_ptr().is_some());
        let site = new_client_site(&mut table, 0x100 + round, &in_place, gui.js_callback());
        let site_pointer = site.as_ptr().unwrap();
        count_of_sites += 1;
        assert_eq!(table.reference_count(site_pointer.object), Some(1));
        // The control keeps the site, the driver lets go of it.
        assert_eq!(table.add_ref(site_pointer), 2);
        site.release(&mut table);
        assert!(new_browser(&vec![Answer { status: 0, present: true }; 15]).is_ok());
        assert!(gui.open(0x100 + round, Ok(control.as_ptr().unwrap())).is_ok());
        assert!(gui.is_open());

        // The page calls `external.invoke("setWaveform 0.5")`.
        let (status, handler) =
            table.query_interface(site_pointer, &Interface::DocHostUiHandler.iid());
        assert_eq!(status, Status::Success);
        let (_, external) = table.get_external(handler.unwrap());
        let (status, ids) = get_ids_of_names(&vec![encode("invoke")]);
        assert_eq!(status, Status::Success);
        let parameters = DispatchParameters {
            arguments: vec![Variant::string(encode("setWaveform 0.5"))],
            named_arguments: 0,
        };
        let outcome = table.invoke(external.unwrap(), ids[0], DISPATCH_METHOD, &parameters, false);
        assert_eq!(outcome.status, Status::Success);
        assert_eq!(seen.borrow().len(), count_of_sites);
        assert_eq!(seen.borrow()[round], "setWaveform 0.5");

        // Closing: the host gives back what it took.
        assert_eq!(gui.close(), (control.as_ptr(), Some(0x100 + round)));
        assert_eq!(table.release(external.unwrap()), 2);
        assert_eq!(table.release(handler.unwrap()), 1);
        assert_eq!(table.release(site_pointer), 0);
        assert_eq!(table.reference_count(site_pointer.object), None);
        in_place.release(&mut table);
        control.release(&mut table);
        assert_eq!(table.reference_count(control_place), None);
    }
    assert_eq!(table.len(), 6);
}
