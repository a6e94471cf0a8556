//! The statuses that the hosting objects answer with, and their numeric codes.

use vstd::prelude::*;

verus! {

/// `S_OK`.
pub const S_OK: i32 = 0;

/// `S_FALSE`.
pub const S_FALSE: i32 = 1;

/// `E_NOTIMPL`, 0x80004001.
pub const E_NOTIMPL: i32 = -2147467263;

/// `E_NOINTERFACE`, 0x80004002.
pub const E_NOINTERFACE: i32 = -2147467262;

/// `INPLACE_E_NOTOOLSPACE`, 0x800401A1.
pub const INPLACE_E_NOTOOLSPACE: i32 = -2147221087;

/// `DISP_E_MEMBERNOTFOUND`, 0x80020003.
pub const DISP_E_MEMBERNOTFOUND: i32 = -2147352573;

/// `DISP_E_TYPEMISMATCH`, 0x80020005.
pub const DISP_E_TYPEMISMATCH: i32 = -2147352571;

/// `DISP_E_UNKNOWNNAME`, 0x80020006.
pub const DISP_E_UNKNOWNNAME: i32 = -2147352570;

/// `DISP_E_NONAMEDARGS`, 0x80020007.
pub const DISP_E_NONAMEDARGS: i32 = -2147352569;

/// `DISP_E_OVERFLOW`, 0x8002000A.
pub const DISP_E_OVERFLOW: i32 = -2147352566;

/// `DISP_E_BADPARAMCOUNT`, 0x8002000E.
pub const DISP_E_BADPARAMCOUNT: i32 = -2147352562;

/// What a method of a hosting object reports to its caller.
#[derive(Clone, Copy, Debug, PartialEq, Eq, Structural)]
pub enum Status {
    /// The call succeeded.
    Success,
    /// The call succeeded and answers "no".
    Declined,
    /// The method is not implemented.
    NotImplemented,
    /// The object does not support the requested interface.
    NoInterface,
    /// The frame has no space for tools.
    NoToolSpace,
    /// The member identifier names no method.
    MemberNotFound,
    /// An argument has the wrong type.
    TypeMismatch,
    /// The name is not one the object knows.
    UnknownName,
    /// Named arguments are not accepted.
    NoNamedArguments,
    /// A text could not be converted.
    Overflow,
    /// The number of arguments, or the kind of access, is wrong.
    BadParameterCount,
}

impl Status {
    /// The numeric code of the status.
    pub open spec fn spec_code(self) -> i32 {
        match self {
            Status::Success => S_OK,
            Status::Declined => S_FALSE,
            Status::NotImplemented => E_NOTIMPL,
            Status::NoInterface => E_NOINTERFACE,
            Status::NoToolSpace => INPLACE_E_NOTOOLSPACE,
            Status::MemberNotFound => DISP_E_MEMBERNOTFOUND,
            Status::TypeMismatch => DISP_E_TYPEMISMATCH,
            Status::UnknownName => DISP_E_UNKNOWNNAME,
            Status::NoNamedArguments => DISP_E_NONAMEDARGS,
            Status::Overflow => DISP_E_OVERFLOW,
            Status::BadParameterCount => DISP_E_BADPARAMCOUNT,
        }
    }

    /// Whether the status reports success: its code is not negative.
    pub open spec fn spec_succeeded(self) -> bool {
        self == Status::Success || self == Status::Declined
    }

    /// The numeric code that crosses the binary interface.
    pub fn code(self) -> (code: i32)
        ensures
            code == self.spec_code(),
    {
        match self {
            Status::Success => S_OK,
            Status::Declined => S_FALSE,
            Status::NotImplemented => E_NOTIMPL,
            Status::NoInterface => E_NOINTERFACE,
            Status::NoToolSpace => INPLACE_E_NOTOOLSPACE,
            Status::MemberNotFound => DISP_E_MEMBERNOTFOUND,
            Status::TypeMismatch => DISP_E_TYPEMISMATCH,
            Status::UnknownName => DISP_E_UNKNOWNNAME,
            Status::NoNamedArguments => DISP_E_NONAMEDARGS,
            Status::Overflow => DISP_E_OVERFLOW,
            Status::BadParameterCount => DISP_E_BADPARAMCOUNT,
        }
    }

    /// Whether the status reports success.
    pub fn succeeded(self) -> (yes: bool)
        ensures
            yes == self.spec_succeeded(),
            yes == (self.spec_code() >= 0),
    {
        self.code() >= 0
    }

    /// The status with the given code, if it is one that the hosting objects
    /// use.
    pub fn from_code(code: i32) -> (status: Option<Status>)
        ensures
            match status {
                Some(s) => s.spec_code() == code,
                None => forall|s: Status| s.spec_code() != code,
            },
    {
        if code == S_OK {
            Some(Status::Success)
        } else if code == S_FALSE {
            Some(Status::Declined)
        } else if code == E_NOTIMPL {
            Some(Status::NotImplemented)
        } else if code == E_NOINTERFACE {
            Some(Status::NoInterface)
        } else if code == INPLACE_E_NOTOOLSPACE {
            Some(Status::NoToolSpace)
        } else if code == DISP_E_MEMBERNOTFOUND {
            Some(Status::MemberNotFound)
        } else if code == DISP_E_TYPEMISMATCH {
            Some(Status::TypeMismatch)
        } else if code == DISP_E_UNKNOWNNAME {
            Some(Status::UnknownName)
        } else if code == DISP_E_NONAMEDARGS {
            Some(Status::NoNamedArguments)
        } else if code == DISP_E_OVERFLOW {
            Some(Status::Overflow)
        } else if code == DISP_E_BADPARAMCOUNT {
            Some(Status::BadParameterCount)
        } else {
            None
        }
    }
}

} // verus!
