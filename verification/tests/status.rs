use vst_gui::status::Status;

#[test]
fn codes_are_those_of_the_binary_interface() {
    assert_eq!(Status::Success.code(), 0);
    assert_eq!(Status::Declined.code(), 1);
    assert_eq!(Status::NotImplemented.code() as u32, 0x80004001);
    assert_eq!(Status::NoInterface.code() as u32, 0x80004002);
    assert_eq!(Status::NoToolSpace.code() as u32, 0x800401A1);
    assert_eq!(Status::MemberNotFound.code() as u32, 0x80020003);
    assert_eq!(Status::TypeMismatch.code() as u32, 0x80020005);
    assert_eq!(Status::UnknownName.code() as u32, 0x80020006);
    assert_eq!(Status::NoNamedArguments.code() as u32, 0x80020007);
    assert_eq!(Status::Overflow.code() as u32, 0x8002000A);
    assert_eq!(Status::BadParameterCount.code() as u32, 0x8002000E);
}

#[test]
fn only_the_two_non_negative_codes_succeed() {
    assert!(Status::Success.succeeded());
    assert!(Status::Declined.succeeded());
    assert!(!Status::NoInterface.succeeded());
    assert!(!Status::NotImplemented.succeeded());
    assert!(!Status::Overflow.succeeded());
}

#[test]
fn a_status_is_found_again_by_its_code() {
    let all = [
        Status::Success,
        Status::Declined,
        Status::NotImplemented,
        Status::NoInterface,
        Status::NoToolSpace,
        Status::MemberNotFound,
        Status::TypeMismatch,
        Status::UnknownName,
        Status::NoNamedArguments,
        Status::Overflow,
        Status::BadParameterCount,
    ];
    for status in all.iter() {
        assert_eq!(Status::from_code(status.code()), Some(*status));
    }
    assert_eq!(Status::from_code(2), None);
    assert_eq!(Status::from_code(-1), None);
}
