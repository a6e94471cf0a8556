//! The in-place frame: the small object that a client site hands to the
//! hosted control as its outer frame.

use vstd::prelude::*;
use crate::interface::{Guid, Interface};
use crate::status::Status;

verus! {

/// An in-place frame. It counts its own references and knows the window it
/// stands for.
#[derive(Debug)]
pub struct InPlaceFrame {
    reference_counter: u32,
    window: usize,
}

/// Whether an in-place frame answers to `interface`: its own interface and
/// the three that it extends.
pub open spec fn frame_supports(interface: Option<Interface>) -> bool {
    interface == Some(Interface::Unknown) || interface == Some(Interface::OleWindow) || interface
        == Some(Interface::OleInPlaceUiWindow) || interface == Some(Interface::OleInPlaceFrame)
}

impl InPlaceFrame {
    /// The number of references held on the frame.
    pub closed spec fn references(&self) -> nat {
        self.reference_counter as nat
    }

    /// The window that the frame stands for.
    pub closed spec fn window(&self) -> usize {
        self.window
    }

    /// A frame for `window`, with the one reference of its maker.
    pub fn new(window: usize) -> (frame: InPlaceFrame)
        ensures
            frame.references() == 1,
            frame.window() == window,
    {
        InPlaceFrame { reference_counter: 1, window }
    }

    /// The current number of references.
    pub fn reference_count(&self) -> (count: u32)
        ensures
            count == self.references(),
    {
        self.reference_counter
    }

    /// Takes one more reference and answers with the new count.
    pub fn add_ref(&mut self) -> (count: u32)
        requires
            old(self).references() < u32::MAX,
        ensures
            final(self).references() == old(self).references() + 1,
            final(self).window() == old(self).window(),
            count == final(self).references(),
    {
        self.reference_counter = self.reference_counter + 1;
        self.reference_counter
    }

    /// Gives one reference back and answers with the new count. At zero the
    /// frame is to be destroyed.
    pub fn release(&mut self) -> (count: u32)
        requires
            old(self).references() > 0,
        ensures
            final(self).references() == old(self).references() - 1,
            final(self).window() == old(self).window(),
            count == final(self).references(),
    {
        self.reference_counter = self.reference_counter - 1;
        self.reference_counter
    }

    /// Takes one more reference, where the count can still grow. `None`
    /// reports a count that is at its limit: nothing has changed, and the
    /// caller is to stop rather than go on.
    pub fn checked_add_ref(&mut self) -> (count: Option<u32>)
        ensures
            final(self).window() == old(self).window(),
            old(self).references() < u32::MAX ==> count == Some(
                (old(self).references() + 1) as u32,
            ) && final(self).references() == old(self).references() + 1,
            old(self).references() >= u32::MAX ==> count is None && final(self).references()
                == old(self).references(),
    {
        if self.reference_counter < u32::MAX {
            Some(self.add_ref())
        } else {
            None
        }
    }

    /// Gives one reference back, where one is held. `None` reports a release
    /// on a frame without references, one release too many: nothing has
    /// changed, the count has not gone below zero, and the caller is to stop
    /// rather than destroy the frame a second time.
    pub fn checked_release(&mut self) -> (count: Option<u32>)
        ensures
            final(self).window() == old(self).window(),
            old(self).references() > 0 ==> count == Some((old(self).references() - 1) as u32)
                && final(self).references() == old(self).references() - 1,
            old(self).references() == 0 ==> count is None && final(self).references() == 0,
    {
        if self.reference_counter > 0 {
            Some(self.release())
        } else {
            None
        }
    }

    /// Answers a request for the interface that `iid` names. For one that the
    /// frame supports it takes a reference and succeeds; for any other it
    /// reports `NoInterface` and stays as it is.
    pub fn query_interface(&mut self, iid: &Guid) -> (status: Status)
        requires
            frame_supports(Interface::spec_from_iid(iid@)) ==> old(self).references() < u32::MAX,
        ensures
            final(self).window() == old(self).window(),
            frame_supports(Interface::spec_from_iid(iid@)) ==> status == Status::Success
                && final(self).references() == old(self).references() + 1,
            !frame_supports(Interface::spec_from_iid(iid@)) ==> status == Status::NoInterface
                && final(self).references() == old(self).references(),
    {
        let supported = match Interface::from_iid(iid) {
            Some(Interface::Unknown) => true,
            Some(Interface::OleWindow) => true,
            Some(Interface::OleInPlaceUiWindow) => true,
            Some(Interface::OleInPlaceFrame) => true,
            _ => false,
        };
        if supported {
            self.add_ref();
            Status::Success
        } else {
            Status::NoInterface
        }
    }

    /// The window that the frame stands for.
    pub fn get_window(&self) -> (answer: (Status, usize))
        ensures
            answer.0 == Status::Success,
            answer.1 == self.window(),
    {
        (Status::Success, self.window)
    }
}

/// The calls that an in-place frame answers without looking at its state.
#[derive(Clone, Copy, Debug, PartialEq, Eq, Structural)]
pub enum FrameCall {
    ContextSensitiveHelp,
    GetBorder,
    RequestBorderSpace,
    SetBorderSpace,
    SetActiveObject,
    InsertMenus,
    SetMenu,
    RemoveMenus,
    SetStatusText,
    EnableModeless,
    TranslateAccelerator,
}

/// The frame's answer to `call`: it has no space for tools, and accepts
/// everything else without doing anything.
pub open spec fn spec_frame_answer(call: FrameCall) -> Status {
    match call {
        FrameCall::GetBorder => Status::NoToolSpace,
        FrameCall::RequestBorderSpace => Status::NoToolSpace,
        _ => Status::Success,
    }
}

/// The frame's answer to `call`.
pub fn frame_answer(call: FrameCall) -> (status: Status)
    ensures
        status == spec_frame_answer(call),
{
    match call {
        FrameCall::GetBorder => Status::NoToolSpace,
        FrameCall::RequestBorderSpace => Status::NoToolSpace,
        _ => Status::Success,
    }
}

} // verus!
