//! Interface pointers, and the wrapper that owns one reference through such
//! a pointer.

use vstd::prelude::*;
use crate::interface::{lemma_from_iid_of_iid, Interface};
use crate::object_table::{
    add_reference, answering_facet, counted, live, releasable, release_reference, Object,
    ObjectState, ObjectTable,
};
use crate::status::Status;

verus! {

/// The header of an object that an interface pointer stands at. A client
/// site has four headers, an in-place frame and an object of the host one
/// each.
#[derive(Clone, Copy, Debug, PartialEq, Eq, Structural)]
pub enum Facet {
    OleClientSite,
    OleInPlaceSite,
    DocHostUiHandler,
    Dispatch,
    OleInPlaceFrame,
    Foreign,
}

/// An interface pointer: the object it leads to, by its place in the object
/// table, and the header of that object it stands at.
#[derive(Clone, Copy, Debug, PartialEq, Eq, Structural)]
pub struct InterfacePointer {
    pub object: usize,
    pub facet: Facet,
}

/// An owning interface pointer. It is either empty or holds a pointer on
/// whose behalf one reference of the object was taken.
#[derive(Debug)]
pub struct ComPointer {
    pointer: Option<InterfacePointer>,
}

impl View for ComPointer {
    type V = Option<InterfacePointer>;

    closed spec fn view(&self) -> Option<InterfacePointer> {
        self.pointer
    }
}

impl ComPointer {
    /// The empty wrapper.
    pub fn new() -> (empty: ComPointer)
        ensures
            empty@ is None,
    {
        ComPointer { pointer: None }
    }

    /// The wrapper of `pointer`. The reference that it stands for has been
    /// taken already: none is taken here.
    pub fn from_raw(pointer: Option<InterfacePointer>) -> (owner: ComPointer)
        ensures
            owner@ == pointer,
    {
        ComPointer { pointer }
    }

    /// The pointer itself. The reference count is not touched.
    pub fn as_ptr(&self) -> (pointer: Option<InterfacePointer>)
        ensures
            pointer == self@,
    {
        self.pointer
    }

    /// The place of the pointer, for a callee that stores its answer there.
    /// The reference count is not touched.
    pub fn as_mut_ptr(&mut self) -> (place: &mut Option<InterfacePointer>)
        ensures
            *place == old(self)@,
            final(self)@ == *final(place),
    {
        &mut self.pointer
    }

    /// The object behind the pointer, borrowed from `table`; `None` for the
    /// empty wrapper.
    pub fn get<'a, F: Fn(String) -> String>(&self, table: &'a ObjectTable<F>) -> (object: Option<
        &'a Object<F>,
    >)
        requires
            self@ is Some ==> live(table@, self@.unwrap().object as int),
        ensures
            self@ is None ==> object is None,
            self@ is Some ==> object is Some && table@[self@.unwrap().object as int] == Some(
                object.unwrap().state(),
            ),
    {
        match self.pointer {
            Some(pointer) => table.get(pointer),
            None => None,
        }
    }

    /// Asks the object behind the pointer for `interface`. Where the object
    /// supports it, the answer is a wrapper of the pointer that the object
    /// gave out, and holds the one reference that the object took for it.
    /// Where it does not, or where this wrapper is empty, the answer is the
    /// empty wrapper and no reference was taken.
    pub fn query_interface<F: Fn(String) -> String>(
        &self,
        table: &mut ObjectTable<F>,
        interface: Interface,
    ) -> (other: ComPointer)
        requires
            old(table).wf(),
            self@ is Some ==> live(old(table)@, self@.unwrap().object as int),
            self@ is Some && answering_facet(
                old(table)@[self@.unwrap().object as int].unwrap(),
                Some(interface),
            ) is Some ==> old(table)@[self@.unwrap().object as int].unwrap().references
                < u32::MAX,
        ensures
            final(table).wf(),
            other@ == spec_query(old(table)@, self@, interface),
            other@ is Some ==> final(table)@ == add_reference(
                old(table)@,
                self@.unwrap().object as int,
            ),
            other@ is None ==> final(table)@ == old(table)@,
    {
        match self.pointer {
            Some(pointer) => {
                proof {
                    lemma_from_iid_of_iid(interface);
                }
                let answer = table.query_interface(pointer, &interface.iid());
                match answer.0 {
                    Status::Success => ComPointer { pointer: answer.1 },
                    _ => ComPointer::new(),
                }
            },
            None => ComPointer::new(),
        }
    }

    /// Ends the wrapper's life: gives back the one reference that it held.
    /// The empty wrapper gives back nothing.
    pub fn release<F: Fn(String) -> String>(self, table: &mut ObjectTable<F>)
        requires
            old(table).wf(),
            self@ is Some ==> releasable(old(table)@, self@.unwrap().object as int),
        ensures
            final(table).wf(),
            final(table)@ == spec_drop(old(table)@, self@),
    {
        match self.pointer {
            Some(pointer) => {
                table.release(pointer);
            },
            None => {},
        }
    }
}

/// The pointer that a query for `interface` through `pointer` gives out:
/// the header of the same object that answers to the interface, or none.
pub open spec fn spec_query<F>(
    objects: Seq<Option<ObjectState<F>>>,
    pointer: Option<InterfacePointer>,
    interface: Interface,
) -> Option<InterfacePointer> {
    match pointer {
        Some(p) => match answering_facet(objects[p.object as int].unwrap(), Some(interface)) {
            Some(facet) => Some(InterfacePointer { object: p.object, facet }),
            None => None,
        },
        None => None,
    }
}

/// The objects after the wrapper of `pointer` has ended its life.
pub open spec fn spec_drop<F>(
    objects: Seq<Option<ObjectState<F>>>,
    pointer: Option<InterfacePointer>,
) -> Seq<Option<ObjectState<F>>> {
    match pointer {
        Some(p) => release_reference(objects, p.object as int),
        None => objects,
    }
}

/// The objects and the wrappers after one query through `pointer` for each
/// interface of `requests`, in order. A wrapper is `None` where the object
/// does not support the interface.
pub open spec fn query_all<F>(
    objects: Seq<Option<ObjectState<F>>>,
    pointer: InterfacePointer,
    requests: Seq<Interface>,
) -> (Seq<Option<ObjectState<F>>>, Seq<Option<InterfacePointer>>)
    decreases requests.len(),
{
    if requests.len() == 0 {
        (objects, Seq::empty())
    } else {
        let (before, wrappers) = query_all(objects, pointer, requests.drop_last());
        let answer = spec_query(before, Some(pointer), requests.last());
        if answer is Some {
            (add_reference(before, pointer.object as int), wrappers.push(answer))
        } else {
            (before, wrappers.push(answer))
        }
    }
}

/// The objects after each of `wrappers` has ended its life, the last one
/// first.
pub open spec fn drop_all<F>(
    objects: Seq<Option<ObjectState<F>>>,
    wrappers: Seq<Option<InterfacePointer>>,
) -> Seq<Option<ObjectState<F>>>
    decreases wrappers.len(),
{
    if wrappers.len() == 0 {
        objects
    } else {
        drop_all(spec_drop(objects, wrappers.last()), wrappers.drop_last())
    }
}

/// How many of `wrappers` hold a pointer.
pub open spec fn count_owning(wrappers: Seq<Option<InterfacePointer>>) -> nat
    decreases wrappers.len(),
{
    if wrappers.len() == 0 {
        0
    } else {
        count_owning(wrappers.drop_last()) + if wrappers.last() is Some {
            1nat
        } else {
            0nat
        }
    }
}

/// Reference counting through wrappers balances. After any sequence of
/// queries through a pointer to a living object, the object's count has
/// grown by one for each query that succeeded, every wrapper that was given
/// out leads to that object, and nothing else has changed. When all the
/// wrappers have ended their lives, the table is as it was before the first
/// query.
pub proof fn lemma_queries_balance<F>(
    objects: Seq<Option<ObjectState<F>>>,
    pointer: InterfacePointer,
    requests: Seq<Interface>,
)
    requires
        live(objects, pointer.object as int),
        objects[pointer.object as int].unwrap().references >= 1,
    ensures
        ({
            let id = pointer.object as int;
            let (after, wrappers) = query_all(objects, pointer, requests);
            &&& wrappers.len() == requests.len()
            &&& after == objects.update(
                id,
                Some(
                    counted(
                        objects[id].unwrap(),
                        objects[id].unwrap().references + count_owning(wrappers),
                    ),
                ),
            )
            &&& forall|k: int|
                0 <= k < wrappers.len() && (#[trigger] wrappers[k]) is Some
                    ==> wrappers[k].unwrap().object == pointer.object
            &&& drop_all(after, wrappers) == objects
        }),
    decreases requests.len(),
{
    let id = pointer.object as int;
    let state = objects[id].unwrap();
    if requests.len() == 0 {
        assert(objects =~= objects.update(id, Some(counted(state, state.references))));
    } else {
        lemma_queries_balance(objects, pointer, requests.drop_last());
        let (before, earlier) = query_all(objects, pointer, requests.drop_last());
        let (after, wrappers) = query_all(objects, pointer, requests);
        let answer = spec_query(before, Some(pointer), requests.last());
        assert(wrappers == earlier.push(answer));
        assert(wrappers.drop_last() =~= earlier);
        assert(wrappers.last() == answer);
        if answer is Some {
            assert(after =~= objects.update(
                id,
                Some(counted(state, state.references + count_owning(wrappers))),
            ));
            assert(spec_drop(after, answer) =~= before);
        } else {
            assert(spec_drop(after, answer) == before);
        }
    }
}

} // verus!
