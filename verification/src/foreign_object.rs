//! An object of the host, as far as the hosting objects deal with it: a
//! reference count, the interfaces it answers to, and the rectangles that
//! were last handed to it.

use vstd::prelude::*;
use crate::geometry::Rect;
use crate::interface::{Guid, Interface};
use crate::status::Status;

verus! {

/// An object that lives on the host's side of the binary interface.
#[derive(Debug)]
pub struct ForeignObject {
    reference_counter: u32,
    interfaces: Vec<Interface>,
    object_rects: Option<(Rect, Rect)>,
}

impl ForeignObject {
    /// The number of references held on the object.
    pub closed spec fn references(&self) -> nat {
        self.reference_counter as nat
    }

    /// The interfaces that the object answers to.
    pub closed spec fn interfaces(&self) -> Seq<Interface> {
        self.interfaces@
    }

    /// The position and clip rectangles that the object was last given.
    pub closed spec fn object_rects(&self) -> Option<(Rect, Rect)> {
        self.object_rects
    }

    /// Whether the object answers to `interface`.
    pub open spec fn supports(&self, interface: Option<Interface>) -> bool {
        interface is Some && self.interfaces().contains(interface.unwrap())
    }

    /// An object that answers to `interfaces`, with the one reference of its
    /// maker and no rectangles yet.
    pub fn new(interfaces: Vec<Interface>) -> (object: ForeignObject)
        ensures
            object.references() == 1,
            object.interfaces() == interfaces@,
            object.object_rects() is None,
    {
        ForeignObject { reference_counter: 1, interfaces, object_rects: None }
    }

    /// The current number of references.
    pub fn reference_count(&self) -> (count: u32)
        ensures
            count == self.references(),
    {
        self.reference_counter
    }

    /// The rectangles that the object was last given.
    pub fn rects(&self) -> (rects: Option<(Rect, Rect)>)
        ensures
            rects == self.object_rects(),
    {
        self.object_rects
    }

    /// Takes one more reference and answers with the new count.
    pub fn add_ref(&mut self) -> (count: u32)
        requires
            old(self).references() < u32::MAX,
        ensures
            final(self).references() == old(self).references() + 1,
            final(self).interfaces() == old(self).interfaces(),
            final(self).object_rects() == old(self).object_rects(),
            count == final(self).references(),
    {
        self.reference_counter = self.reference_counter + 1;
        self.reference_counter
    }

    /// Gives one reference back and answers with the new count.
    pub fn release(&mut self) -> (count: u32)
        requires
            old(self).references() > 0,
        ensures
            final(self).references() == old(self).references() - 1,
            final(self).interfaces() == old(self).interfaces(),
            final(self).object_rects() == old(self).object_rects(),
            count == final(self).references(),
    {
        self.reference_counter = self.reference_counter - 1;
        self.reference_counter
    }

    /// Answers a request for the interface that `iid` names: a reference and
    /// `Success` for one that the object answers to, `NoInterface` and no
    /// change for any other.
    pub fn query_interface(&mut self, iid: &Guid) -> (status: Status)
        requires
            old(self).supports(Interface::spec_from_iid(iid@)) ==> old(self).references()
                < u32::MAX,
        ensures
            final(self).interfaces() == old(self).interfaces(),
            final(self).object_rects() == old(self).object_rects(),
            old(self).supports(Interface::spec_from_iid(iid@)) ==> status == Status::Success
                && final(self).references() == old(self).references() + 1,
            !old(self).supports(Interface::spec_from_iid(iid@)) ==> status == Status::NoInterface
                && final(self).references() == old(self).references(),
    {
        match Interface::from_iid(iid) {
            Some(interface) => {
                let mut k: usize = 0;
                while k < self.interfaces.len()
                    invariant
                        k <= self.interfaces.len(),
                        *self == *old(self),
                        Interface::spec_from_iid(iid@) == Some(interface),
                        self.supports(Some(interface)) ==> self.references() < u32::MAX,
                        forall|j: int| 0 <= j < k ==> self.interfaces@[j] != interface,
                    decreases self.interfaces.len() - k,
                {
                    if self.interfaces[k] == interface {
                        assert(self.interfaces@[k as int] == interface);
                        assert(self.interfaces().contains(interface));
                        self.add_ref();
                        return Status::Success;
                    }
                    k = k + 1;
                }
                Status::NoInterface
            },
            None => Status::NoInterface,
        }
    }

    /// Takes the rectangles of the hosted surface.
    pub fn set_object_rects(&mut self, position: Rect, clip: Rect) -> (status: Status)
        ensures
            status == Status::Success,
            final(self).references() == old(self).references(),
            final(self).interfaces() == old(self).interfaces(),
            final(self).object_rects() == Some((position, clip)),
    {
        self.object_rects = Some((position, clip));
        Status::Success
    }
}

} // verus!
