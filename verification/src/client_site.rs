//! The client site: one object with four interface headers that the hosted
//! control queries for its window, its frame and the script bridge.

use std::rc::Rc;
use vstd::prelude::*;
use crate::com_pointer::{ComPointer, Facet, InterfacePointer};
use crate::dispatch::{invoke, spec_read_request, DispatchParameters, Invocation, VT_BSTR};
use crate::in_place_frame::InPlaceFrame;
use crate::interface::{Guid, Interface};
use crate::object_table::{
    consistent, frame_state, lemma_consistent_kept, site_state, Object, ObjectState, ObjectTable,
};
use crate::status::Status;
use crate::utf16::encode_utf16;

verus! {

/// The context menu of a control.
pub const CONTEXT_MENU_CONTROL: u32 = 0x2;

/// The context menu of a text selection.
pub const CONTEXT_MENU_TEXTSELECT: u32 = 0x4;

/// The context menu of the vertical scroll bar.
pub const CONTEXT_MENU_VSCROLL: u32 = 9;

/// The context menu of the horizontal scroll bar.
pub const CONTEXT_MENU_HSCROLL: u32 = 10;

/// The host draws no 3D border.
pub const DOCHOSTUIFLAG_NO3DBORDER: u32 = 0x00000004;

/// The host lets the page navigate in place.
pub const DOCHOSTUIFLAG_ENABLE_INPLACE_NAVIGATION: u32 = 0x00010000;

/// The host wants themed controls.
pub const DOCHOSTUIFLAG_THEME: u32 = 0x00040000;

/// The host is aware of the display's resolution.
pub const DOCHOSTUIFLAG_DPI_AWARE: u32 = 0x40000000;

/// The four flags above together.
pub const DOCHOSTUIFLAGS: u32 = 0x40050004;

/// What a client site tells the control about the user interface it wants.
#[derive(Clone, Copy, Debug, PartialEq, Eq, Structural)]
pub struct HostInfo {
    pub flags: u32,
    pub double_click: u32,
}

/// What a client site tells the control about its frame window.
#[derive(Clone, Copy, Debug, PartialEq, Eq, Structural)]
pub struct FrameInfo {
    pub mdi_app: bool,
    pub frame_window: usize,
    pub accelerators: usize,
    pub accelerator_entries: u32,
}

/// The window context of an in-place site: its frame, its document window
/// (there is none), and the frame's description.
#[derive(Clone, Copy, Debug, PartialEq, Eq, Structural)]
pub struct WindowContext {
    pub frame: Option<InterfacePointer>,
    pub document: Option<InterfacePointer>,
    pub frame_info: FrameInfo,
}

/// The header of a client site that answers to `interface`, if there is one.
pub open spec fn site_facet(interface: Option<Interface>) -> Option<Facet> {
    match interface {
        Some(Interface::Unknown) => Some(Facet::OleClientSite),
        Some(Interface::OleClientSite) => Some(Facet::OleClientSite),
        Some(Interface::OleInPlaceSite) => Some(Facet::OleInPlaceSite),
        Some(Interface::OleWindow) => Some(Facet::OleInPlaceSite),
        Some(Interface::DocHostUiHandler) => Some(Facet::DocHostUiHandler),
        Some(Interface::Dispatch) => Some(Facet::Dispatch),
        _ => None,
    }
}

/// Whether a context menu of the kind `menu` is suppressed: the menus of
/// controls, of text selections and of the two scroll bars are.
pub open spec fn menu_suppressed(menu: u32) -> bool {
    menu == CONTEXT_MENU_CONTROL || menu == CONTEXT_MENU_TEXTSELECT || menu
        == CONTEXT_MENU_VSCROLL || menu == CONTEXT_MENU_HSCROLL
}

/// Answers the control's question whether the host has taken care of a
/// context menu. For the menus of controls, of text selections and of the
/// scroll bars the answer is `Success`: the host has, and the control shows
/// no menu. For every other menu the answer is `Declined`: the host has
/// not, and the control shows its default menu.
pub fn show_context_menu(menu: u32) -> (status: Status)
    ensures
        menu_suppressed(menu) ==> status == Status::Success,
        !menu_suppressed(menu) ==> status == Status::Declined,
{
    if menu == CONTEXT_MENU_CONTROL || menu == CONTEXT_MENU_TEXTSELECT || menu
        == CONTEXT_MENU_VSCROLL || menu == CONTEXT_MENU_HSCROLL {
        Status::Success
    } else {
        Status::Declined
    }
}

/// The user interface that the host wants: no 3D border, navigation in
/// place, themed and resolution-aware rendering, and the default action on a
/// double click.
pub fn get_host_info() -> (answer: (Status, HostInfo))
    ensures
        answer.0 == Status::Success,
        answer.1.flags == DOCHOSTUIFLAGS,
        answer.1.flags == DOCHOSTUIFLAG_NO3DBORDER | DOCHOSTUIFLAG_ENABLE_INPLACE_NAVIGATION
            | DOCHOSTUIFLAG_THEME | DOCHOSTUIFLAG_DPI_AWARE,
        answer.1.double_click == 0,
{
    assert(0x40050004u32 == 0x00000004u32 | 0x00010000u32 | 0x00040000u32 | 0x40000000u32)
        by (bit_vector);
    (Status::Success, HostInfo { flags: DOCHOSTUIFLAGS, double_click: 0 })
}

/// The calls that a client site answers without looking at its state. Those
/// that hand out a pointer or a text hand out none.
#[derive(Clone, Copy, Debug, PartialEq, Eq, Structural)]
pub enum SiteCall {
    SaveObject,
    GetMoniker,
    GetContainer,
    ShowObject,
    OnShowWindow,
    RequestNewObjectLayout,
    ContextSensitiveHelp,
    CanInPlaceActivate,
    OnInPlaceActivate,
    OnUiActivate,
    Scroll,
    OnUiDeactivate,
    OnInPlaceDeactivate,
    DiscardUndoState,
    DeactivateAndUndo,
    ShowUi,
    HideUi,
    UpdateUi,
    EnableModeless,
    OnDocWindowActivate,
    OnFrameWindowActivate,
    ResizeBorder,
    TranslateAccelerator,
    GetOptionKeyPath,
    GetDropTarget,
    TranslateUrl,
    FilterDataObject,
    GetTypeInfo,
}

/// The site's answer to `call`. Monikers, a new layout, a drop target and
/// type information are not implemented; there is no container; keys, option
/// paths, addresses and data objects are left to the control; everything
/// else is accepted without doing anything.
pub open spec fn spec_site_answer(call: SiteCall) -> Status {
    match call {
        SiteCall::GetMoniker => Status::NotImplemented,
        SiteCall::RequestNewObjectLayout => Status::NotImplemented,
        SiteCall::GetDropTarget => Status::NotImplemented,
        SiteCall::GetTypeInfo => Status::NotImplemented,
        SiteCall::GetContainer => Status::NoInterface,
        SiteCall::TranslateAccelerator => Status::Declined,
        SiteCall::GetOptionKeyPath => Status::Declined,
        SiteCall::TranslateUrl => Status::Declined,
        SiteCall::FilterDataObject => Status::Declined,
        _ => Status::Success,
    }
}

/// The site's answer to `call`.
pub fn site_answer(call: SiteCall) -> (status: Status)
    ensures
        status == spec_site_answer(call),
{
    match call {
        SiteCall::GetMoniker => Status::NotImplemented,
        SiteCall::RequestNewObjectLayout => Status::NotImplemented,
        SiteCall::GetDropTarget => Status::NotImplemented,
        SiteCall::GetTypeInfo => Status::NotImplemented,
        SiteCall::GetContainer => Status::NoInterface,
        SiteCall::TranslateAccelerator => Status::Declined,
        SiteCall::GetOptionKeyPath => Status::Declined,
        SiteCall::TranslateUrl => Status::Declined,
        SiteCall::FilterDataObject => Status::Declined,
        _ => Status::Success,
    }
}

/// The number of type descriptions that the dispatch header offers: none.
pub fn get_type_info_count() -> (answer: (Status, u32))
    ensures
        answer.0 == Status::Success,
        answer.1 == 0,
{
    (Status::Success, 0)
}

/// A client site. One counter counts the references taken through any of
/// its four headers.
pub struct ClientSite<F> {
    ole_in_place_frame: ComPointer,
    ole_in_place_object: Option<InterfacePointer>,
    reference_counter: u32,
    window: usize,
    callback: Rc<F>,
}

impl<F: Fn(String) -> String> ClientSite<F> {
    /// The number of references held on the site, through whichever header.
    pub closed spec fn references(&self) -> nat {
        self.reference_counter as nat
    }

    /// The window that the site belongs to.
    pub closed spec fn window(&self) -> usize {
        self.window
    }

    /// The site's own in-place frame.
    pub closed spec fn frame(&self) -> Option<InterfacePointer> {
        self.ole_in_place_frame@
    }

    /// The in-place object of the hosted control, which the site borrows.
    pub closed spec fn in_place_object(&self) -> Option<InterfacePointer> {
        self.ole_in_place_object
    }

    /// The registered callback.
    pub closed spec fn callback(&self) -> Rc<F> {
        self.callback
    }

    /// Whether the callback takes every text.
    pub open spec fn callable(&self) -> bool {
        forall|text: String| call_requires(*self.callback(), (text,))
    }

    /// A site for `window` with the one reference of its maker. It owns
    /// `frame`, borrows `in_place_object` and shares `callback`.
    pub fn new(
        window: usize,
        frame: ComPointer,
        in_place_object: Option<InterfacePointer>,
        callback: Rc<F>,
    ) -> (site: ClientSite<F>)
        ensures
            site.references() == 1,
            site.window() == window,
            site.frame() == frame@,
            site.in_place_object() == in_place_object,
            site.callback() == callback,
    {
        ClientSite {
            ole_in_place_frame: frame,
            ole_in_place_object: in_place_object,
            reference_counter: 1,
            window,
            callback,
        }
    }

    /// The current number of references.
    pub fn reference_count(&self) -> (count: u32)
        ensures
            count == self.references(),
    {
        self.reference_counter
    }

    /// The pointer to the site's own frame. The reference count of the frame
    /// is not touched.
    pub fn frame_pointer(&self) -> (frame: Option<InterfacePointer>)
        ensures
            frame == self.frame(),
    {
        self.ole_in_place_frame.as_ptr()
    }

    /// Whether everything but the reference count is as in `other`.
    pub open spec fn same_but_count(&self, other: &ClientSite<F>) -> bool {
        &&& self.window() == other.window()
        &&& self.frame() == other.frame()
        &&& self.in_place_object() == other.in_place_object()
        &&& self.callback() == other.callback()
    }

    /// Takes one more reference and answers with the new count.
    pub fn add_ref(&mut self) -> (count: u32)
        requires
            old(self).references() < u32::MAX,
        ensures
            final(self).references() == old(self).references() + 1,
            final(self).same_but_count(old(self)),
            count == final(self).references(),
    {
        self.reference_counter = self.reference_counter + 1;
        self.reference_counter
    }

    /// Gives one reference back and answers with the new count. At zero the
    /// site is to be destroyed.
    pub fn release(&mut self) -> (count: u32)
        requires
            old(self).references() > 0,
        ensures
            final(self).references() == old(self).references() - 1,
            final(self).same_but_count(old(self)),
            count == final(self).references(),
    {
        self.reference_counter = self.reference_counter - 1;
        self.reference_counter
    }

    /// Takes one more reference, where the count can still grow. `None`
    /// reports a count that is at its limit: nothing has changed, and the
    /// caller is to stop rather than go on.
    pub fn checked_add_ref(&mut self) -> (count: Option<u32>)
        ensures
            final(self).same_but_count(old(self)),
            old(self).references() < u32::MAX ==> count == Some(
                (old(self).references() + 1) as u32,
            ) && final(self).references() == old(self).references() + 1,
            old(self).references() >= u32::MAX ==> count is None && final(self).references()
                == old(self).references(),
    {
        if self.reference_counter < u32::MAX {
            Some(self.add_ref())
        } else {
            None
        }
    }

    /// Gives one reference back, where one is held. `None` reports a release
    /// on a site without references, one release too many: nothing has
    /// changed, the count has not gone below zero, and the caller is to stop
    /// rather than destroy the site a second time.
    pub fn checked_release(&mut self) -> (count: Option<u32>)
        ensures
            final(self).same_but_count(old(self)),
            old(self).references() > 0 ==> count == Some((old(self).references() - 1) as u32)
                && final(self).references() == old(self).references() - 1,
            old(self).references() == 0 ==> count is None && final(self).references() == 0,
    {
        if self.reference_counter > 0 {
            Some(self.release())
        } else {
            None
        }
    }

    /// Answers a request for the interface that `iid` names. For one that the
    /// site supports it names the header that answers to it, takes a
    /// reference and succeeds; for any other it names no header, reports
    /// `NoInterface` and stays as it is.
    pub fn query_interface(&mut self, iid: &Guid) -> (answer: (Status, Option<Facet>))
        requires
            site_facet(Interface::spec_from_iid(iid@)) is Some ==> old(self).references()
                < u32::MAX,
        ensures
            final(self).same_but_count(old(self)),
            answer.1 == site_facet(Interface::spec_from_iid(iid@)),
            answer.1 is Some ==> answer.0 == Status::Success && final(self).references() == old(self).references() + 1,
            answer.1 is None ==> answer.0 == Status::NoInterface && final(self).references()
                == old(self).references(),
    {
        let facet = match Interface::from_iid(iid) {
            Some(Interface::Unknown) => Some(Facet::OleClientSite),
            Some(Interface::OleClientSite) => Some(Facet::OleClientSite),
            Some(Interface::OleInPlaceSite) => Some(Facet::OleInPlaceSite),
            Some(Interface::OleWindow) => Some(Facet::OleInPlaceSite),
            Some(Interface::DocHostUiHandler) => Some(Facet::DocHostUiHandler),
            Some(Interface::Dispatch) => Some(Facet::Dispatch),
            _ => None,
        };
        if facet.is_some() {
            self.add_ref();
            (Status::Success, facet)
        } else {
            (Status::NoInterface, None)
        }
    }

    /// The window that the site belongs to.
    pub fn get_window(&self) -> (answer: (Status, usize))
        ensures
            answer.0 == Status::Success,
            answer.1 == self.window(),
    {
        (Status::Success, self.window)
    }

    /// The window context: the site's frame, no document window, and a
    /// frame description that names the site's window and no accelerators.
    /// The reference that goes out with the frame pointer is for the caller
    /// to take on the frame.
    pub fn get_window_context(&self) -> (answer: (Status, WindowContext))
        ensures
            answer.0 == Status::Success,
            answer.1.frame == self.frame(),
            answer.1.document is None,
            answer.1.frame_info == (FrameInfo {
                mdi_app: false,
                frame_window: self.window(),
                accelerators: 0,
                accelerator_entries: 0,
            }),
    {
        let frame_info = FrameInfo {
            mdi_app: false,
            frame_window: self.window,
            accelerators: 0,
            accelerator_entries: 0,
        };
        (
            Status::Success,
            WindowContext { frame: self.ole_in_place_frame.as_ptr(), document: None, frame_info },
        )
    }

    /// The in-place object that a changed rectangle is to be passed on to;
    /// `None` where the site has none.
    pub fn on_pos_rect_change(&self) -> (answer: (Status, Option<InterfacePointer>))
        ensures
            answer.0 == Status::Success,
            answer.1 == self.in_place_object(),
    {
        (Status::Success, self.ole_in_place_object)
    }

    /// The object that the page's scripts see as `external`: the site's own
    /// dispatch header, with a reference taken for the caller.
    pub fn get_external(&mut self) -> (answer: (Status, Option<Facet>))
        requires
            old(self).references() < u32::MAX,
        ensures
            answer.0 == Status::Success,
            answer.1 == Some(Facet::Dispatch),
            final(self).references() == old(self).references() + 1,
            final(self).same_but_count(old(self)),
    {
        let iid = Interface::Dispatch.iid();
        proof {
            crate::interface::lemma_from_iid_of_iid(Interface::Dispatch);
        }
        let answer = self.query_interface(&iid);
        (Status::Success, answer.1)
    }

    /// Performs a call of the hosted page on the registered callback, as
    /// `dispatch::invoke` says.
    pub fn invoke(
        &self,
        member: i32,
        flags: u16,
        parameters: &DispatchParameters,
        wants_result: bool,
    ) -> (outcome: Invocation)
        requires
            self.callable(),
        ensures
            match spec_read_request(member, flags, *parameters) {
                Err(rejection) => {
                    &&& outcome.status == rejection.status
                    &&& outcome.argument_error == rejection.argument
                    &&& outcome.result is None
                },
                Ok(text) => {
                    &&& outcome.status == Status::Success
                    &&& outcome.argument_error is None
                    &&& exists|argument: String, reply: String|
                        {
                            &&& argument@ == text
                            &&& #[trigger] call_ensures(*self.callback(), (argument,), reply)
                            &&& wants_result ==> outcome.result is Some
                                && outcome.result.unwrap().vt == VT_BSTR
                                && outcome.result.unwrap().text@ == encode_utf16(reply@)
                            &&& !wants_result ==> outcome.result is None
                        }
                },
            },
    {
        let callback: &F = &self.callback;
        assert(*callback == *self.callback());
        invoke(callback, member, flags, parameters, wants_result)
    }
}

/// Makes an in-place frame for `window` in `table`, and answers with the
/// wrapper that holds its one reference.
pub fn new_in_place_frame<F: Fn(String) -> String>(
    table: &mut ObjectTable<F>,
    window: usize,
) -> (frame: ComPointer)
    requires
        old(table).wf(),
    ensures
        final(table).wf(),
        final(table)@ == old(table)@.push(Some(frame_state(1, window))),
        frame@ == Some(
            InterfacePointer { object: old(table)@.len() as usize, facet: Facet::OleInPlaceFrame },
        ),
{
    let id = table.insert(Object::InPlaceFrame(InPlaceFrame::new(window)));
    proof {
        lemma_push_keeps_consistent(old(table)@, frame_state(1, window));
    }
    ComPointer::from_raw(Some(InterfacePointer { object: id, facet: Facet::OleInPlaceFrame }))
}

/// Makes a client site for `window` in `table`, together with the in-place
/// frame that it owns. The site borrows `ole_in_place_object`, shares
/// `callback`, and starts with the one reference that the answer holds: a
/// wrapper of the site's first header.
pub fn new_client_site<F: Fn(String) -> String>(
    table: &mut ObjectTable<F>,
    window: usize,
    ole_in_place_object: &ComPointer,
    callback: Rc<F>,
) -> (site: ComPointer)
    requires
        old(table).wf(),
        forall|text: String| call_requires(*callback, (text,)),
    ensures
        final(table).wf(),
        final(table)@ == with_new_site(old(table)@, window, ole_in_place_object@, callback),
        site@ == Some(
            InterfacePointer {
                object: (old(table)@.len() + 1) as usize,
                facet: Facet::OleClientSite,
            },
        ),
{
    let frame = new_in_place_frame(table, window);
    let object = ClientSite::new(window, frame, ole_in_place_object.as_ptr(), callback);
    let id = table.insert(Object::ClientSite(object));
    proof {
        lemma_new_site_consistent(old(table)@, window, ole_in_place_object@, callback);
    }
    ComPointer::from_raw(Some(InterfacePointer { object: id, facet: Facet::OleClientSite }))
}

/// The objects after a client site was made: its frame takes the next place
/// of the table, the site the one after.
pub open spec fn with_new_site<F>(
    objects: Seq<Option<ObjectState<F>>>,
    window: usize,
    in_place_object: Option<InterfacePointer>,
    callback: Rc<F>,
) -> Seq<Option<ObjectState<F>>> {
    objects.push(Some(frame_state(1, window))).push(
        Some(
            site_state(
                window,
                Some(
                    InterfacePointer {
                        object: objects.len() as usize,
                        facet: Facet::OleInPlaceFrame,
                    },
                ),
                in_place_object,
                callback,
            ),
        ),
    )
}

/// An object that is no client site, put at the next place with at least
/// one reference, keeps the table's invariant.
pub proof fn lemma_push_keeps_consistent<F: Fn(String) -> String>(
    objects: Seq<Option<ObjectState<F>>>,
    state: ObjectState<F>,
)
    requires
        consistent(objects),
        state.kind != crate::object_table::ObjectKind::ClientSite,
        state.references >= 1,
    ensures
        consistent(objects.push(Some(state))),
{
    lemma_consistent_kept(objects, objects.push(Some(state)));
}

/// A new client site with its new frame keeps the table's invariant.
pub proof fn lemma_new_site_consistent<F: Fn(String) -> String>(
    objects: Seq<Option<ObjectState<F>>>,
    window: usize,
    in_place_object: Option<InterfacePointer>,
    callback: Rc<F>,
)
    requires
        consistent(objects),
        objects.len() + 1 <= usize::MAX,
        forall|text: String| call_requires(*callback, (text,)),
    ensures
        consistent(with_new_site(objects, window, in_place_object, callback)),
{
    let after = with_new_site(objects, window, in_place_object, callback);
    assert(after[objects.len() as int + 1].unwrap().frame.unwrap().object == objects.len());
    lemma_consistent_kept(objects, after);
}

} // verus!
