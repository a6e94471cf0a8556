//! The script dispatch bridge: the one method that a hosted page can call by
//! name, and the way from its call to the registered callback and back.

use vstd::prelude::*;
use crate::status::Status;
use crate::utf16::{decode, decode_utf16, encode, encode_utf16, lemma_decode_encode};

verus! {

/// The access kind of a plain method call.
pub const DISPATCH_METHOD: u16 = 1;

/// The access kind of a property read.
pub const DISPATCH_PROPERTYGET: u16 = 2;

/// The access kind of a method call that may also be a property read: both
/// flags together.
pub const DISPATCH_METHOD_OR_PROPERTYGET: u16 = 3;

/// The identifier that stands for "no such name".
pub const DISPID_UNKNOWN: i32 = -1;

/// The identifier of the one method that the bridge offers.
pub const DISPID_INVOKE: i32 = 1;

/// The type tag of a string value.
pub const VT_BSTR: u16 = 8;

/// The name of the one method, "invoke", in UTF-16 units.
pub open spec fn method_name() -> Seq<u16> {
    seq![105u16, 110u16, 118u16, 111u16, 107u16, 101u16]
}

/// A scripting value: its type tag and, where the tag is `VT_BSTR`, the units
/// of its string.
#[derive(Clone, Debug)]
pub struct Variant {
    pub vt: u16,
    pub text: Vec<u16>,
}

impl Variant {
    /// A string value that holds `units`.
    pub fn string(units: Vec<u16>) -> (value: Variant)
        ensures
            value.vt == VT_BSTR,
            value.text@ == units@,
    {
        Variant { vt: VT_BSTR, text: units }
    }

    /// A value of another type, of which only the tag is kept.
    pub fn other(vt: u16) -> (value: Variant)
        ensures
            value.vt == vt,
            value.text@ == Seq::<u16>::empty(),
    {
        Variant { vt, text: Vec::new() }
    }

    /// Whether the value is a string.
    pub fn is_string(&self) -> (yes: bool)
        ensures
            yes == (self.vt == VT_BSTR),
    {
        self.vt == VT_BSTR
    }
}

/// The arguments of a call: the positional values, and how many of them the
/// caller passed by name.
#[derive(Clone, Debug)]
pub struct DispatchParameters {
    pub arguments: Vec<Variant>,
    pub named_arguments: u32,
}

/// Why a call was turned down: the status, and for a value of the wrong type
/// the index of the argument.
#[derive(Clone, Copy, Debug, PartialEq, Eq, Structural)]
pub struct Rejection {
    pub status: Status,
    pub argument: Option<u32>,
}

/// What a call ended with: the status, the value handed back where one was
/// asked for, and the index of the offending argument where there is one.
#[derive(Clone, Debug)]
pub struct Invocation {
    pub status: Status,
    pub result: Option<Variant>,
    pub argument_error: Option<u32>,
}

/// Whether `names` asks for the one known method, and for nothing else.
pub open spec fn names_known(names: Seq<Vec<u16>>) -> bool {
    names.len() == 1 && names[0]@ == method_name()
}

/// The reason why a call is turned down before any of its arguments is
/// looked at, or `None` where it is not. The checks run in this order: the
/// member, the access kind, named arguments, the number of arguments.
pub open spec fn spec_check_call(
    member: i32,
    flags: u16,
    named_arguments: u32,
    arguments: nat,
) -> Option<Rejection> {
    if member != DISPID_INVOKE {
        Some(Rejection { status: Status::MemberNotFound, argument: None })
    } else if flags != DISPATCH_METHOD && flags != DISPATCH_METHOD_OR_PROPERTYGET {
        Some(Rejection { status: Status::BadParameterCount, argument: None })
    } else if named_arguments != 0 {
        Some(Rejection { status: Status::NoNamedArguments, argument: None })
    } else if arguments != 1 {
        Some(Rejection { status: Status::BadParameterCount, argument: None })
    } else {
        None
    }
}

/// The text that a call carries to the callback, or the reason why the call
/// is turned down. The checks of `spec_check_call` come first; after them
/// come the type of the one argument and its encoding.
pub open spec fn spec_read_request(
    member: i32,
    flags: u16,
    parameters: DispatchParameters,
) -> Result<Seq<char>, Rejection> {
    match spec_check_call(
        member,
        flags,
        parameters.named_arguments,
        parameters.arguments@.len(),
    ) {
        Some(rejection) => Err(rejection),
        None => if parameters.arguments@[0].vt != VT_BSTR {
            Err(Rejection { status: Status::TypeMismatch, argument: Some(0u32) })
        } else {
            match decode_utf16(parameters.arguments@[0].text@) {
                Some(text) => Ok(text),
                None => Err(Rejection { status: Status::Overflow, argument: None }),
            }
        },
    }
}

/// The units "invoke" are the UTF-16 encoding of the method's name.
pub proof fn lemma_method_name_is_invoke()
    ensures
        method_name() == encode_utf16("invoke"@),
{
    reveal_strlit("invoke");
    reveal_with_fuel(encode_utf16, 8);
    let name = "invoke"@;
    assert(name.len() == 6);
    assert(encode_utf16(name) =~= method_name());
}

/// A plain call of the method with one string argument carries the text
/// whose encoding the argument holds: what one side encodes, the other
/// reads.
pub proof fn lemma_request_reads_back(flags: u16, parameters: DispatchParameters, text: Seq<char>)
    requires
        flags == DISPATCH_METHOD || flags == DISPATCH_METHOD_OR_PROPERTYGET,
        parameters.named_arguments == 0,
        parameters.arguments@.len() == 1,
        parameters.arguments@[0].vt == VT_BSTR,
        parameters.arguments@[0].text@ == encode_utf16(text),
    ensures
        spec_read_request(DISPID_INVOKE, flags, parameters) == Ok::<Seq<char>, Rejection>(text),
{
    lemma_decode_encode(text);
}

/// Answers a request for the identifiers of `names`. Every identifier starts
/// as `DISPID_UNKNOWN`; a request for the one name "invoke" alone succeeds
/// and gets `DISPID_INVOKE`, any other request fails with `UnknownName`.
pub fn get_ids_of_names(names: &Vec<Vec<u16>>) -> (answer: (Status, Vec<i32>))
    ensures
        answer.1@.len() == names@.len(),
        names_known(names@) ==> answer.0 == Status::Success && answer.1@ == seq![DISPID_INVOKE],
        !names_known(names@) ==> answer.0 == Status::UnknownName && forall|i: int|
            0 <= i < answer.1@.len() ==> answer.1@[i] == DISPID_UNKNOWN,
{
    let mut ids: Vec<i32> = Vec::new();
    let mut i: usize = 0;
    while i < names.len()
        invariant
            i <= names.len(),
            ids@.len() == i,
            forall|k: int| 0 <= k < ids@.len() ==> ids@[k] == DISPID_UNKNOWN,
        decreases names.len() - i,
    {
        ids.push(DISPID_UNKNOWN);
        i = i + 1;
    }
    if names.len() != 1 || !is_method_name(&names[0]) {
        return (Status::UnknownName, ids);
    }
    ids[0] = DISPID_INVOKE;
    assert(ids@ =~= seq![DISPID_INVOKE]);
    (Status::Success, ids)
}

/// Whether `name` is "invoke", unit for unit.
pub fn is_method_name(name: &Vec<u16>) -> (yes: bool)
    ensures
        yes == (name@ == method_name()),
{
    let yes = name.len() == 6 && name[0] == 105 && name[1] == 110 && name[2] == 118 && name[3]
        == 111 && name[4] == 107 && name[5] == 101;
    proof {
        if yes {
            assert(name@ =~= method_name());
        } else if name.len() == 6 {
            assert(exists|k: int| 0 <= k < 6 && name@[k] != method_name()[k]);
        }
    }
    yes
}

/// Checks a call as far as that can be done without looking at an
/// argument: the reason why the call is turned down, or `None` where the
/// call has exactly one argument that is now to be read.
pub fn check_call(member: i32, flags: u16, named_arguments: u32, arguments: usize) -> (rejection:
    Option<Rejection>)
    ensures
        rejection == spec_check_call(member, flags, named_arguments, arguments as nat),
        rejection is None ==> arguments == 1,
{
    if member != DISPID_INVOKE {
        Some(Rejection { status: Status::MemberNotFound, argument: None })
    } else if flags != DISPATCH_METHOD && flags != DISPATCH_METHOD_OR_PROPERTYGET {
        Some(Rejection { status: Status::BadParameterCount, argument: None })
    } else if named_arguments != 0 {
        Some(Rejection { status: Status::NoNamedArguments, argument: None })
    } else if arguments != 1 {
        Some(Rejection { status: Status::BadParameterCount, argument: None })
    } else {
        None
    }
}

/// Checks a call and reads its argument: the text for the callback, or the
/// reason why the call is turned down.
pub fn read_request(member: i32, flags: u16, parameters: &DispatchParameters) -> (request: Result<
    String,
    Rejection,
>)
    ensures
        match request {
            Ok(text) => spec_read_request(member, flags, *parameters) == Ok::<
                Seq<char>,
                Rejection,
            >(text@),
            Err(rejection) => spec_read_request(member, flags, *parameters) == Err::<
                Seq<char>,
                Rejection,
            >(rejection),
        },
{
    match check_call(member, flags, parameters.named_arguments, parameters.arguments.len()) {
        Some(rejection) => {
            return Err(rejection);
        },
        None => {},
    }
    if parameters.arguments[0].vt != VT_BSTR {
        return Err(Rejection { status: Status::TypeMismatch, argument: Some(0) });
    }
    match decode(parameters.arguments[0].text.as_slice()) {
        Some(text) => Ok(text),
        None => Err(Rejection { status: Status::Overflow, argument: None }),
    }
}

/// The value handed back for the callback's `reply`: its UTF-16 encoding as
/// a string value where the caller asked for a result, nothing otherwise.
pub fn respond(reply: &str, wants_result: bool) -> (result: Option<Variant>)
    ensures
        wants_result ==> result is Some && result.unwrap().vt == VT_BSTR && result.unwrap().text@
            == encode_utf16(reply@),
        !wants_result ==> result is None,
{
    if wants_result {
        Some(Variant::string(encode(reply)))
    } else {
        None
    }
}

/// Performs a call of the hosted page. A call that `spec_read_request` turns
/// down ends with that status and hands nothing back; the callback is not
/// reached. Any other call hands its text to `callback`, ends with `Success`,
/// and hands back the encoded reply where `wants_result` asks for it.
pub fn invoke<F: Fn(String) -> String>(
    callback: &F,
    member: i32,
    flags: u16,
    parameters: &DispatchParameters,
    wants_result: bool,
) -> (outcome: Invocation)
    requires
        forall|text: String| call_requires(*callback, (text,)),
    ensures
        match spec_read_request(member, flags, *parameters) {
            Err(rejection) => {
                &&& outcome.status == rejection.status
                &&& outcome.argument_error == rejection.argument
                &&& outcome.result is None
            },
            Ok(text) => {
                &&& outcome.status == Status::Success
                &&& outcome.argument_error is None
                &&& exists|argument: String, reply: String|
                    {
                        &&& argument@ == text
                        &&& #[trigger] call_ensures(*callback, (argument,), reply)
                        &&& wants_result ==> outcome.result is Some && outcome.result.unwrap().vt
                            == VT_BSTR && outcome.result.unwrap().text@ == encode_utf16(reply@)
                        &&& !wants_result ==> outcome.result is None
                    }
            },
        },
{
    match read_request(member, flags, parameters) {
        Err(rejection) => Invocation {
            status: rejection.status,
            result: None,
            argument_error: rejection.argument,
        },
        Ok(argument) => {
            let ghost handed = argument;
            let reply = callback(argument);
            let result = respond(reply.as_str(), wants_result);
            assert(call_ensures(*callback, (handed,), reply));
            Invocation { status: Status::Success, result, argument_error: None }
        },
    }
}

} // verus!
