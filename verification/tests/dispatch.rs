use std::cell::RefCell;
use std::rc::Rc;

use vst_gui::dispatch::{
    check_call, get_ids_of_names, invoke, is_method_name, read_request, respond, DispatchParameters, Variant,
    DISPATCH_METHOD, DISPATCH_METHOD_OR_PROPERTYGET, DISPATCH_PROPERTYGET, DISPID_INVOKE,
    DISPID_UNKNOWN, VT_BSTR,
};
use vst_gui::status::Status;
use vst_gui::utf16::{decode, encode};

fn one_string(text: &str) -> DispatchParameters {
    DispatchParameters { arguments: vec![Variant::string(encode(text))], named_arguments: 0 }
}

#[test]
fn invoke_hands_the_text_to_the_callback() {
    let seen: Rc<RefCell<Vec<String>>> = Rc::new(RefCell::new(Vec::new()));
    let log = seen.clone();
    let callback = move |text: String| -> String {
        log.borrow_mut().push(text);
        String::from("done")
    };
    let parameters = one_string("setFrequency 440");
    let outcome = invoke(&callback, DISPID_INVOKE, DISPATCH_METHOD, &parameters, true);
    assert_eq!(outcome.status, Status::Success);
    assert_eq!(outcome.argument_error, None);
    let result = outcome.result.unwrap();
    assert_eq!(result.vt, VT_BSTR);
    assert_eq!(decode(&result.text), Some(String::from("done")));
    assert_eq!(*seen.borrow(), vec![String::from("setFrequency 440")]);
}

#[test]
fn invoke_encodes_a_reply_beyond_ascii() {
    let callback = |text: String| -> String { format!("{} \u{266b}\u{1f3b9}", text) };
    let outcome =
        invoke(&callback, DISPID_INVOKE, DISPATCH_METHOD_OR_PROPERTYGET, &one_string("ok"), true);
    assert_eq!(outcome.status, Status::Success);
    assert_eq!(outcome.result.unwrap().text, vec![0x6f, 0x6b, 0x20, 0x266b, 0xd83c, 0xdfb9]);
}

#[test]
fn invoke_hands_nothing_back_where_nothing_is_asked_for() {
    let calls = Rc::new(RefCell::new(0u32));
    let count = calls.clone();
    let callback = move |_text: String| -> String {
        *count.borrow_mut() += 1;
        String::from("ignored")
    };
    let outcome = invoke(&callback, DISPID_INVOKE, DISPATCH_METHOD, &one_string("x"), false);
    assert_eq!(outcome.status, Status::Success);
    assert!(outcome.result.is_none());
    assert_eq!(*calls.borrow(), 1);
}

#[test]
fn two_arguments_are_a_bad_parameter_count_and_reach_no_callback() {
    let calls = Rc::new(RefCell::new(0u32));
    let count = calls.clone();
    let callback = move |_text: String| -> String {
        *count.borrow_mut() += 1;
        String::new()
    };
    let parameters = DispatchParameters {
        arguments: vec![Variant::string(encode("a")), Variant::string(encode("b"))],
        named_arguments: 0,
    };
    let outcome = invoke(&callback, DISPID_INVOKE, DISPATCH_METHOD, &parameters, true);
    assert_eq!(outcome.status, Status::BadParameterCount);
    assert!(outcome.result.is_none());
    assert_eq!(outcome.argument_error, None);
    assert_eq!(*calls.borrow(), 0);
}

#[test]
fn no_argument_is_a_bad_parameter_count() {
    let callback = |_text: String| -> String { String::new() };
    let parameters = DispatchParameters { arguments: vec![], named_arguments: 0 };
    let outcome = invoke(&callback, DISPID_INVOKE, DISPATCH_METHOD, &parameters, true);
    assert_eq!(outcome.status, Status::BadParameterCount);
}

#[test]
fn an_argument_of_another_type_is_a_mismatch_at_index_zero() {
    let calls = Rc::new(RefCell::new(0u32));
    let count = calls.clone();
    let callback = move |_text: String| -> String {
        *count.borrow_mut() += 1;
        String::new()
    };
    let parameters = DispatchParameters { arguments: vec![Variant::other(3)], named_arguments: 0 };
    let outcome = invoke(&callback, DISPID_INVOKE, DISPATCH_METHOD, &parameters, true);
    assert_eq!(outcome.status, Status::TypeMismatch);
    assert_eq!(outcome.argument_error, Some(0));
    assert!(outcome.result.is_none());
    assert_eq!(*calls.borrow(), 0);
}

#[test]
fn the_checks_run_in_their_order() {
    let bad = DispatchParameters {
        arguments: vec![Variant::other(3), Variant::other(3)],
        named_arguments: 2,
    };
    let other_member = read_request(2, 4, &bad).unwrap_err();
    assert_eq!(other_member.status, Status::MemberNotFound);
    let other_access = read_request(DISPID_INVOKE, DISPATCH_PROPERTYGET, &bad).unwrap_err();
    assert_eq!(other_access.status, Status::BadParameterCount);
    let named = read_request(DISPID_INVOKE, DISPATCH_METHOD, &bad).unwrap_err();
    assert_eq!(named.status, Status::NoNamedArguments);
    let two = DispatchParameters { arguments: bad.arguments.clone(), named_arguments: 0 };
    let count = read_request(DISPID_INVOKE, DISPATCH_METHOD, &two).unwrap_err();
    assert_eq!(count.status, Status::BadParameterCount);
    assert_eq!(count.argument, None);
    assert_eq!(read_request(DISPID_UNKNOWN, DISPATCH_METHOD, &one_string("x")).unwrap_err().status,
        Status::MemberNotFound);
}

#[test]
fn a_text_that_does_not_decode_is_an_overflow() {
    let parameters = DispatchParameters {
        arguments: vec![Variant::string(vec![0x0061, 0xd800])],
        named_arguments: 0,
    };
    let rejection = read_request(DISPID_INVOKE, DISPATCH_METHOD, &parameters).unwrap_err();
    assert_eq!(rejection.status, Status::Overflow);
    assert_eq!(rejection.argument, None);
}

#[test]
fn a_good_request_reads_as_its_text() {
    let text = read_request(DISPID_INVOKE, DISPATCH_METHOD, &one_string("setWaveform 0.5"));
    assert_eq!(text.unwrap(), "setWaveform 0.5");
}

#[test]
fn respond_encodes_only_on_request() {
    let value = respond("\u{e4}", true).unwrap();
    assert_eq!(value.vt, VT_BSTR);
    assert_eq!(value.text, vec![0x00e4]);
    assert!(respond("\u{e4}", false).is_none());
    assert!(Variant::string(vec![]).is_string());
    assert!(!Variant::other(2).is_string());
}

#[test]
fn ids_of_names_knows_invoke_only() {
    let (status, ids) = get_ids_of_names(&vec![encode("invoke")]);
    assert_eq!(status, Status::Success);
    assert_eq!(ids, vec![DISPID_INVOKE]);
    assert_eq!(DISPID_INVOKE, 1);
    assert_ne!(DISPID_INVOKE, DISPID_UNKNOWN);
    let (status, ids) = get_ids_of_names(&vec![encode("eval")]);
    assert_eq!(status, Status::UnknownName);
    assert_eq!(ids, vec![DISPID_UNKNOWN]);
    let (status, ids) = get_ids_of_names(&vec![encode("Invoke")]);
    assert_eq!(status, Status::UnknownName);
    assert_eq!(ids, vec![-1]);
}

#[test]
fn ids_of_several_names_are_all_unknown() {
    let (status, ids) = get_ids_of_names(&vec![encode("invoke"), encode("invoke")]);
    assert_eq!(status, Status::UnknownName);
    assert_eq!(ids, vec![DISPID_UNKNOWN, DISPID_UNKNOWN]);
    let (status, ids) = get_ids_of_names(&vec![]);
    assert_eq!(status, Status::UnknownName);
    assert!(ids.is_empty());
}

#[test]
fn the_method_name_is_matched_unit_for_unit() {
    assert!(is_method_name(&encode("invoke")));
    assert!(!is_method_name(&encode("invoke ")));
    assert!(!is_method_name(&encode("invok")));
    assert!(!is_method_name(&encode("invokf")));
    assert!(!is_method_name(&vec![]));
}

#[test]
fn a_call_is_checked_before_its_argument_is_read() {
    assert_eq!(check_call(2, 4, 2, 0).unwrap().status, Status::MemberNotFound);
    assert_eq!(
        check_call(DISPID_INVOKE, DISPATCH_PROPERTYGET, 2, 0).unwrap().status,
        Status::BadParameterCount
    );
    assert_eq!(
        check_call(DISPID_INVOKE, DISPATCH_METHOD, 2, 0).unwrap().status,
        Status::NoNamedArguments
    );
    assert_eq!(
        check_call(DISPID_INVOKE, DISPATCH_METHOD, 0, 0).unwrap().status,
        Status::BadParameterCount
    );
    assert_eq!(
        check_call(DISPID_INVOKE, DISPATCH_METHOD, 0, 2).unwrap().status,
        Status::BadParameterCount
    );
    assert_eq!(check_call(DISPID_INVOKE, DISPATCH_METHOD, 0, 2).unwrap().argument, None);
    assert_eq!(check_call(DISPID_INVOKE, DISPATCH_METHOD, 0, 1), None);
    assert_eq!(check_call(DISPID_INVOKE, DISPATCH_METHOD_OR_PROPERTYGET, 0, 1), None);
}
