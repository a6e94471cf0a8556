//! The object table: the place where the hosting objects and the host's
//! objects live, each behind the interface pointers that lead to it.

use std::rc::Rc;
use vstd::prelude::*;
use crate::client_site::{site_facet, ClientSite, FrameInfo, WindowContext};
use crate::com_pointer::{Facet, InterfacePointer};
use crate::dispatch::{spec_read_request, DispatchParameters, Invocation, VT_BSTR};
use crate::foreign_object::ForeignObject;
use crate::geometry::Rect;
use crate::in_place_frame::{frame_supports, InPlaceFrame};
use crate::interface::{Guid, Interface};
use crate::status::Status;
use crate::utf16::encode_utf16;

verus! {

/// An object of the table.
pub enum Object<F> {
    ClientSite(ClientSite<F>),
    InPlaceFrame(InPlaceFrame),
    Foreign(ForeignObject),
}

/// What kind of object a place of the table holds.
#[derive(Clone, Copy, Debug, PartialEq, Eq, Structural)]
pub enum ObjectKind {
    ClientSite,
    InPlaceFrame,
    Foreign,
}

/// What the table knows of one object.
pub struct ObjectState<F> {
    pub kind: ObjectKind,
    pub references: nat,
    pub window: usize,
    pub frame: Option<InterfacePointer>,
    pub in_place_object: Option<InterfacePointer>,
    pub callback: Option<Rc<F>>,
    pub interfaces: Seq<Interface>,
    pub object_rects: Option<(Rect, Rect)>,
}

impl<F: Fn(String) -> String> Object<F> {
    /// What the table knows of the object.
    pub open spec fn state(&self) -> ObjectState<F> {
        match self {
            Object::ClientSite(site) => ObjectState {
                kind: ObjectKind::ClientSite,
                references: site.references(),
                window: site.window(),
                frame: site.frame(),
                in_place_object: site.in_place_object(),
                callback: Some(site.callback()),
                interfaces: Seq::empty(),
                object_rects: None,
            },
            Object::InPlaceFrame(frame) => frame_state(frame.references(), frame.window()),
            Object::Foreign(object) => ObjectState {
                kind: ObjectKind::Foreign,
                references: object.references(),
                window: 0,
                frame: None,
                in_place_object: None,
                callback: None,
                interfaces: object.interfaces(),
                object_rects: object.object_rects(),
            },
        }
    }
}

/// What the table knows of an in-place frame for `window` with `references`
/// references.
pub open spec fn frame_state<F>(references: nat, window: usize) -> ObjectState<F> {
    ObjectState {
        kind: ObjectKind::InPlaceFrame,
        references,
        window,
        frame: None,
        in_place_object: None,
        callback: None,
        interfaces: Seq::empty(),
        object_rects: None,
    }
}

/// What the table knows of a client site that was just made.
pub open spec fn site_state<F>(
    window: usize,
    frame: Option<InterfacePointer>,
    in_place_object: Option<InterfacePointer>,
    callback: Rc<F>,
) -> ObjectState<F> {
    ObjectState {
        kind: ObjectKind::ClientSite,
        references: 1,
        window,
        frame,
        in_place_object,
        callback: Some(callback),
        interfaces: Seq::empty(),
        object_rects: None,
    }
}

/// Whether the place `id` holds an object.
pub open spec fn live<F>(objects: Seq<Option<ObjectState<F>>>, id: int) -> bool {
    0 <= id < objects.len() && objects[id] is Some
}

/// Whether the place `id` holds a client site.
pub open spec fn is_site<F>(objects: Seq<Option<ObjectState<F>>>, id: int) -> bool {
    live(objects, id) && objects[id].unwrap().kind == ObjectKind::ClientSite
}

/// Whether an object of the kind `kind` has the header `facet`.
pub open spec fn has_facet(kind: ObjectKind, facet: Facet) -> bool {
    match kind {
        ObjectKind::ClientSite => facet == Facet::OleClientSite || facet == Facet::OleInPlaceSite
            || facet == Facet::DocHostUiHandler || facet == Facet::Dispatch,
        ObjectKind::InPlaceFrame => facet == Facet::OleInPlaceFrame,
        ObjectKind::Foreign => facet == Facet::Foreign,
    }
}

/// Whether `pointer` leads to a header of an object that the table holds.
pub open spec fn valid_pointer<F>(
    objects: Seq<Option<ObjectState<F>>>,
    pointer: InterfacePointer,
) -> bool {
    live(objects, pointer.object as int) && has_facet(
        objects[pointer.object as int].unwrap().kind,
        pointer.facet,
    )
}

/// The header by which an object answers a request for `interface`; `None`
/// where it does not support the interface.
pub open spec fn answering_facet<F>(
    state: ObjectState<F>,
    interface: Option<Interface>,
) -> Option<Facet> {
    match state.kind {
        ObjectKind::ClientSite => site_facet(interface),
        ObjectKind::InPlaceFrame => if frame_supports(interface) {
            Some(Facet::OleInPlaceFrame)
        } else {
            None
        },
        ObjectKind::Foreign => if interface is Some && state.interfaces.contains(
            interface.unwrap(),
        ) {
            Some(Facet::Foreign)
        } else {
            None
        },
    }
}

/// The state `state` with `references` references.
pub open spec fn counted<F>(state: ObjectState<F>, references: nat) -> ObjectState<F> {
    ObjectState { references, ..state }
}

/// The objects after one more reference was taken on the object at `id`.
pub open spec fn add_reference<F>(objects: Seq<Option<ObjectState<F>>>, id: int) -> Seq<
    Option<ObjectState<F>>,
> {
    let state = objects[id].unwrap();
    objects.update(id, Some(counted(state, state.references + 1)))
}

/// The objects after one reference of the object at `id` was given back: the
/// count falls by one, and with the last reference the object leaves the
/// table.
pub open spec fn drop_reference<F>(objects: Seq<Option<ObjectState<F>>>, id: int) -> Seq<
    Option<ObjectState<F>>,
> {
    let state = objects[id].unwrap();
    if state.references > 1 {
        objects.update(id, Some(counted(state, (state.references - 1) as nat)))
    } else {
        objects.update(id, None)
    }
}

/// The objects after a release on the object at `id`. A client site that
/// leaves the table gives back the reference that it held on its frame.
pub open spec fn release_reference<F>(objects: Seq<Option<ObjectState<F>>>, id: int) -> Seq<
    Option<ObjectState<F>>,
> {
    let state = objects[id].unwrap();
    let after = drop_reference(objects, id);
    if state.references <= 1 && state.kind == ObjectKind::ClientSite && state.frame is Some {
        drop_reference(after, state.frame.unwrap().object as int)
    } else {
        after
    }
}

/// The objects after a release on the object at `id`, where the table holds
/// such an object. `None` where it holds none: the release is one too many.
pub open spec fn checked_release_reference<F>(
    objects: Seq<Option<ObjectState<F>>>,
    id: int,
) -> Option<Seq<Option<ObjectState<F>>>> {
    if live(objects, id) {
        Some(release_reference(objects, id))
    } else {
        None
    }
}

/// Whether the client site at `site` holds its reference on the object at
/// `id` as its frame.
pub open spec fn holds_frame<F>(objects: Seq<Option<ObjectState<F>>>, site: int, id: int) -> bool {
    is_site(objects, site) && objects[site].unwrap().frame is Some
        && objects[site].unwrap().frame.unwrap().object == id
}

/// Whether some client site of the table holds a reference on the object at
/// `id`.
pub open spec fn held<F>(objects: Seq<Option<ObjectState<F>>>, id: int) -> bool {
    exists|site: int| holds_frame(objects, site, id)
}

/// Whether a caller may release a reference on the object at `id`: the
/// object is there, and the caller's reference is not the one that a client
/// site of the table holds.
pub open spec fn releasable<F>(objects: Seq<Option<ObjectState<F>>>, id: int) -> bool {
    live(objects, id) && (held(objects, id) ==> objects[id].unwrap().references >= 2)
}

/// Whether the site at `site` has a frame of its own that the table holds.
pub open spec fn site_has_frame<F>(objects: Seq<Option<ObjectState<F>>>, site: int) -> bool {
    let frame = objects[site].unwrap().frame;
    &&& frame is Some
    &&& frame.unwrap().facet == Facet::OleInPlaceFrame
    &&& live(objects, frame.unwrap().object as int)
    &&& objects[frame.unwrap().object as int].unwrap().kind == ObjectKind::InPlaceFrame
}

/// Whether the site at `site` has a callback that takes every text.
pub open spec fn site_callable<F: Fn(String) -> String>(
    objects: Seq<Option<ObjectState<F>>>,
    site: int,
) -> bool {
    let callback = objects[site].unwrap().callback;
    callback is Some && forall|text: String| call_requires(*callback.unwrap(), (text,))
}

/// The table's invariant: every object has a reference, every client site
/// has a callable callback and a frame of its own in the table, and no two
/// sites share a frame.
pub open spec fn consistent<F: Fn(String) -> String>(objects: Seq<Option<ObjectState<F>>>) -> bool {
    &&& forall|id: int| live(objects, id) ==> (#[trigger] objects[id]).unwrap().references >= 1
    &&& forall|site: int| #[trigger]
        is_site(objects, site) ==> site_has_frame(objects, site) && site_callable(objects, site)
    &&& forall|a: int, b: int|
        #![trigger is_site(objects, a), is_site(objects, b)]
        is_site(objects, a) && is_site(objects, b) && a != b ==> objects[a].unwrap().frame
            != objects[b].unwrap().frame
}

/// The objects after the in-place object behind `target` was given `rect`
/// as its position and its clip rectangle. Where `target` leads to no object
/// of the host, nothing changes.
pub open spec fn forward_rect<F>(
    objects: Seq<Option<ObjectState<F>>>,
    target: Option<InterfacePointer>,
    rect: Rect,
) -> Seq<Option<ObjectState<F>>> {
    if target is Some && live(objects, target.unwrap().object as int)
        && objects[target.unwrap().object as int].unwrap().kind == ObjectKind::Foreign {
        let id = target.unwrap().object as int;
        objects.update(
            id,
            Some(ObjectState { object_rects: Some((rect, rect)), ..objects[id].unwrap() }),
        )
    } else {
        objects
    }
}

/// Whether the object at `id` is in `after` what it was in `before`, but
/// for its count and its rectangles.
pub open spec fn carried<F>(
    before: Seq<Option<ObjectState<F>>>,
    after: Seq<Option<ObjectState<F>>>,
    id: int,
) -> bool {
    &&& live(before, id)
    &&& after[id].unwrap().kind == before[id].unwrap().kind
    &&& after[id].unwrap().frame == before[id].unwrap().frame
    &&& after[id].unwrap().callback == before[id].unwrap().callback
}

/// Whether the object at `id` of `after` has a reference and is either one
/// that `before` had, carried over, or a new one; a new client site has a
/// callable callback and a frame of its own that is new as well.
pub open spec fn kept<F: Fn(String) -> String>(
    before: Seq<Option<ObjectState<F>>>,
    after: Seq<Option<ObjectState<F>>>,
    id: int,
) -> bool {
    &&& after[id].unwrap().references >= 1
    &&& id < before.len() ==> carried(before, after, id)
    &&& id >= before.len() && is_site(after, id) ==> {
        &&& site_has_frame(after, id)
        &&& site_callable(after, id)
        &&& after[id].unwrap().frame.unwrap().object >= before.len()
    }
}

/// The table's invariant outlasts every change that keeps each object as
/// `kept` says, makes at most one new client site, and takes no object out
/// of the table that a remaining client site holds as its frame.
pub proof fn lemma_consistent_kept<F: Fn(String) -> String>(
    before: Seq<Option<ObjectState<F>>>,
    after: Seq<Option<ObjectState<F>>>,
)
    requires
        consistent(before),
        before.len() <= after.len(),
        forall|id: int| #[trigger] live(after, id) ==> kept(before, after, id),
        forall|a: int, b: int|
            #![trigger is_site(after, a), is_site(after, b)]
            a >= before.len() && b >= before.len() && is_site(after, a) && is_site(after, b)
                ==> a == b,
        forall|id: int, site: int|
            live(before, id) && !live(after, id) ==> !#[trigger] holds_frame(after, site, id),
    ensures
        consistent(after),
{
    assert forall|id: int| live(after, id) implies (#[trigger] after[id]).unwrap().references
        >= 1 by {
        assert(kept(before, after, id));
    }
    assert forall|site: int| #[trigger] is_site(after, site) implies site_has_frame(after, site)
        && site_callable(after, site) by {
        assert(live(after, site) && kept(before, after, site));
        if site < before.len() {
            assert(is_site(before, site));
            assert(site_has_frame(before, site) && site_callable(before, site));
            let frame = before[site].unwrap().frame.unwrap().object as int;
            assert(holds_frame(after, site, frame));
            assert(live(after, frame) && kept(before, after, frame));
        }
    }
    assert forall|a: int, b: int|
        #![trigger is_site(after, a), is_site(after, b)]
        is_site(after, a) && is_site(after, b) && a != b implies after[a].unwrap().frame
        != after[b].unwrap().frame by {
        assert(live(after, a) && kept(before, after, a));
        assert(live(after, b) && kept(before, after, b));
        if a < before.len() {
            assert(is_site(before, a));
            assert(site_has_frame(before, a));
        }
        if b < before.len() {
            assert(is_site(before, b));
            assert(site_has_frame(before, b));
        }
    }
}

/// Taking a reference keeps the table's invariant.
pub proof fn lemma_add_reference_consistent<F: Fn(String) -> String>(
    objects: Seq<Option<ObjectState<F>>>,
    id: int,
)
    requires
        consistent(objects),
        live(objects, id),
    ensures
        consistent(add_reference(objects, id)),
{
    lemma_consistent_kept(objects, add_reference(objects, id));
}

/// Giving back a reference that is the caller's to give keeps the table's
/// invariant.
pub proof fn lemma_release_consistent<F: Fn(String) -> String>(
    objects: Seq<Option<ObjectState<F>>>,
    id: int,
)
    requires
        consistent(objects),
        releasable(objects, id),
    ensures
        consistent(release_reference(objects, id)),
{
    let after = release_reference(objects, id);
    assert(objects[id].unwrap().references >= 1);
    assert(is_site(objects, id) ==> site_has_frame(objects, id));
    assert forall|gone: int, site: int|
        live(objects, gone) && !live(after, gone) implies !#[trigger] holds_frame(
        after,
        site,
        gone,
    ) by {
        if holds_frame(after, site, gone) {
            assert(is_site(objects, site));
            assert(site_has_frame(objects, site));
            assert(holds_frame(objects, site, gone));
            if gone != id {
                assert(is_site(objects, id));
                assert(site_has_frame(objects, id));
                assert(objects[site].unwrap().frame != objects[id].unwrap().frame);
            }
        }
    }
    lemma_consistent_kept(objects, after);
}

/// Only in-place frames are held by client sites: in a table that meets its
/// invariant, every reference on a client site or on an object of the host
/// is a caller's.
pub proof fn lemma_only_frames_held<F: Fn(String) -> String>(
    objects: Seq<Option<ObjectState<F>>>,
    id: int,
)
    requires
        consistent(objects),
        live(objects, id),
        objects[id].unwrap().kind != ObjectKind::InPlaceFrame,
    ensures
        !held(objects, id),
        releasable(objects, id),
{
    if held(objects, id) {
        let site = choose|site: int| holds_frame(objects, site, id);
        assert(is_site(objects, site));
        assert(site_has_frame(objects, site));
    }
}

/// The objects after `times` references were taken on the object at `id`.
pub open spec fn add_reference_times<F>(
    objects: Seq<Option<ObjectState<F>>>,
    id: int,
    times: nat,
) -> Seq<Option<ObjectState<F>>>
    decreases times,
{
    if times == 0 {
        objects
    } else {
        add_reference(add_reference_times(objects, id, (times - 1) as nat), id)
    }
}

/// The objects after `times` releases on the object at `id`.
pub open spec fn release_reference_times<F>(
    objects: Seq<Option<ObjectState<F>>>,
    id: int,
    times: nat,
) -> Seq<Option<ObjectState<F>>>
    decreases times,
{
    if times == 0 {
        objects
    } else {
        release_reference(release_reference_times(objects, id, (times - 1) as nat), id)
    }
}

/// Taking references one after the other adds them up and changes nothing
/// else.
pub proof fn lemma_add_reference_times<F: Fn(String) -> String>(
    objects: Seq<Option<ObjectState<F>>>,
    id: int,
    times: nat,
)
    requires
        consistent(objects),
        live(objects, id),
    ensures
        add_reference_times(objects, id, times) == objects.update(
            id,
            Some(counted(objects[id].unwrap(), objects[id].unwrap().references + times)),
        ),
        consistent(add_reference_times(objects, id, times)),
        held(add_reference_times(objects, id, times), id) == held(objects, id),
    decreases times,
{
    let state = objects[id].unwrap();
    if times == 0 {
        assert(objects =~= objects.update(id, Some(counted(state, state.references))));
    } else {
        lemma_add_reference_times(objects, id, (times - 1) as nat);
        let before = add_reference_times(objects, id, (times - 1) as nat);
        let after = add_reference_times(objects, id, times);
        lemma_add_reference_consistent(before, id);
        assert(after =~= objects.update(id, Some(counted(state, state.references + times))));
    }
    let end = add_reference_times(objects, id, times);
    assert forall|site: int| holds_frame(end, site, id) == holds_frame(objects, site, id) by {}
    if held(objects, id) {
        let site = choose|site: int| holds_frame(objects, site, id);
        assert(holds_frame(end, site, id));
    }
    if held(end, id) {
        let site = choose|site: int| holds_frame(end, site, id);
        assert(holds_frame(objects, site, id));
    }
}

/// Releases match the references that were taken. On an object that no
/// client site of the table holds, fewer releases than there are references
/// leave the object in the table with the remaining count, and each of them
/// is the caller's to make. As many releases as there are references take
/// the object out of the table, after which no further release is to be
/// made on it.
pub proof fn lemma_release_sequence<F: Fn(String) -> String>(
    objects: Seq<Option<ObjectState<F>>>,
    id: int,
    released: nat,
)
    requires
        consistent(objects),
        live(objects, id),
        !held(objects, id),
        released <= objects[id].unwrap().references,
    ensures
        ({
            let end = release_reference_times(objects, id, released);
            let references = objects[id].unwrap().references;
            &&& consistent(end)
            &&& !held(end, id)
            &&& released < references ==> live(end, id) && releasable(end, id)
                && end[id].unwrap().references == references - released
            &&& released == references ==> !live(end, id) && !releasable(end, id)
        }),
    decreases released,
{
    if released > 0 {
        lemma_release_sequence(objects, id, (released - 1) as nat);
        let before = release_reference_times(objects, id, (released - 1) as nat);
        let end = release_reference_times(objects, id, released);
        lemma_release_consistent(before, id);
        assert(is_site(before, id) ==> site_has_frame(before, id));
        if held(end, id) {
            let site = choose|site: int| holds_frame(end, site, id);
            assert(is_site(before, site));
            assert(site_has_frame(before, site));
            assert(holds_frame(before, site, id));
        }
    }
}

/// Releases match the references that were taken. On an object that no
/// client site of the table holds, `added` further references and then as
/// many releases as there are references in all take the object out of the
/// table; any smaller number of releases leaves it there, with the count
/// that remains.
pub proof fn lemma_references_balance<F: Fn(String) -> String>(
    objects: Seq<Option<ObjectState<F>>>,
    id: int,
    added: nat,
    released: nat,
)
    requires
        consistent(objects),
        live(objects, id),
        !held(objects, id),
        released <= objects[id].unwrap().references + added,
    ensures
        ({
            let taken = add_reference_times(objects, id, added);
            let end = release_reference_times(taken, id, released);
            let references = objects[id].unwrap().references + added;
            &&& consistent(end)
            &&& released < references ==> live(end, id) && end[id].unwrap().references
                == references - released
            &&& released == references ==> !live(end, id)
            &&& released == added ==> end[id] == objects[id]
        }),
{
    lemma_add_reference_times(objects, id, added);
    lemma_release_sequence(add_reference_times(objects, id, added), id, released);
    if released == added {
        lemma_releases_keep_state(add_reference_times(objects, id, added), id, released);
    }
}

/// A client site lives exactly as long as its references. After `added`
/// further references, fewer releases than there are references in all leave
/// the site in the table, where a further release finds it; as many releases
/// take it out, once, and a release after that is one too many: it finds no
/// object and is reported, as `checked_release_reference` says.
pub proof fn lemma_site_references_balance<F: Fn(String) -> String>(
    objects: Seq<Option<ObjectState<F>>>,
    site: int,
    added: nat,
    released: nat,
)
    requires
        consistent(objects),
        is_site(objects, site),
        released <= objects[site].unwrap().references + added,
    ensures
        ({
            let taken = add_reference_times(objects, site, added);
            let end = release_reference_times(taken, site, released);
            let references = objects[site].unwrap().references + added;
            &&& consistent(end)
            &&& released < references ==> is_site(end, site) && end[site].unwrap().references
                == references - released && checked_release_reference(end, site) is Some
            &&& released == references ==> !live(end, site) && !releasable(end, site)
                && checked_release_reference(end, site) is None
        }),
{
    lemma_only_frames_held(objects, site);
    lemma_add_reference_times(objects, site, added);
    lemma_release_sequence(add_reference_times(objects, site, added), site, released);
    if released < objects[site].unwrap().references + added {
        lemma_releases_keep_state(add_reference_times(objects, site, added), site, released);
    }
}

/// Releases that leave a reference behind change the count of the object
/// and nothing else of it.
pub proof fn lemma_releases_keep_state<F: Fn(String) -> String>(
    objects: Seq<Option<ObjectState<F>>>,
    id: int,
    released: nat,
)
    requires
        live(objects, id),
        released < objects[id].unwrap().references,
    ensures
        release_reference_times(objects, id, released).len() == objects.len(),
        release_reference_times(objects, id, released)[id] == Some(
            counted(objects[id].unwrap(), (objects[id].unwrap().references - released) as nat),
        ),
    decreases released,
{
    let state = objects[id].unwrap();
    if released > 0 {
        lemma_releases_keep_state(objects, id, (released - 1) as nat);
        let before = release_reference_times(objects, id, (released - 1) as nat);
        assert(before[id].unwrap().references == state.references - released + 1);
        assert(release_reference(before, id) == drop_reference(before, id));
    } else {
        assert(counted(state, state.references) == state);
    }
}

/// The table of objects. A place is taken from the making of its object to
/// the release of the last reference, and is not given out again.
pub struct ObjectTable<F> {
    slots: Vec<Option<Object<F>>>,
}

impl<F: Fn(String) -> String> View for ObjectTable<F> {
    type V = Seq<Option<ObjectState<F>>>;

    closed spec fn view(&self) -> Seq<Option<ObjectState<F>>> {
        states(self.slots@)
    }
}

/// What the table knows of the object at a place, if there is one.
pub open spec fn state_at<F: Fn(String) -> String>(slot: Option<Object<F>>) -> Option<
    ObjectState<F>,
> {
    match slot {
        Some(object) => Some(object.state()),
        None => None,
    }
}

/// What the table knows of the objects at all places.
pub open spec fn states<F: Fn(String) -> String>(slots: Seq<Option<Object<F>>>) -> Seq<
    Option<ObjectState<F>>,
> {
    Seq::new(slots.len(), |i: int| state_at(slots[i]))
}

/// A change at one place of the table shows at that place of the states,
/// and nowhere else.
proof fn lemma_states_update<F: Fn(String) -> String>(
    before: Seq<Option<Object<F>>>,
    after: Seq<Option<Object<F>>>,
    id: int,
)
    requires
        0 <= id < before.len(),
        after.len() == before.len(),
        forall|k: int| 0 <= k < before.len() && k != id ==> after[k] == before[k],
    ensures
        states(after) == states(before).update(id, state_at(after[id])),
{
    assert(states(after) =~= states(before).update(id, state_at(after[id])));
}

impl<F: Fn(String) -> String> ObjectTable<F> {
    /// Whether the table's invariant holds.
    pub open spec fn wf(&self) -> bool {
        consistent(self@)
    }

    /// The empty table.
    pub fn new() -> (table: ObjectTable<F>)
        ensures
            table@ == Seq::<Option<ObjectState<F>>>::empty(),
            table.wf(),
    {
        let table = ObjectTable { slots: Vec::new() };
        assert(table@ =~= Seq::<Option<ObjectState<F>>>::empty());
        table
    }

    /// The number of places that were ever taken.
    pub fn len(&self) -> (len: usize)
        ensures
            len == self@.len(),
    {
        self.slots.len()
    }

    /// Puts `object` into the table, at a new place, and answers with that
    /// place.
    pub fn insert(&mut self, object: Object<F>) -> (id: usize)
        ensures
            id == old(self)@.len(),
            final(self)@ == old(self)@.push(Some(object.state())),
    {
        let id = self.slots.len();
        self.slots.push(Some(object));
        assert(self@ =~= old(self)@.push(Some(object.state())));
        id
    }

    /// The object that `pointer` leads to; `None` where it leads to none.
    pub fn get(&self, pointer: InterfacePointer) -> (object: Option<&Object<F>>)
        ensures
            match object {
                Some(found) => live(self@, pointer.object as int) && self@[pointer.object as int]
                    == Some(found.state()),
                None => !live(self@, pointer.object as int),
            },
    {
        if pointer.object < self.slots.len() {
            self.slots[pointer.object].as_ref()
        } else {
            None
        }
    }

    /// The number of references on the object at `id`; `None` where the
    /// place holds no object.
    pub fn reference_count(&self, id: usize) -> (count: Option<u32>)
        ensures
            match count {
                Some(n) => live(self@, id as int) && self@[id as int].unwrap().references == n,
                None => !live(self@, id as int),
            },
    {
        if id < self.slots.len() {
            match &self.slots[id] {
                Some(Object::ClientSite(site)) => Some(site.reference_count()),
                Some(Object::InPlaceFrame(frame)) => Some(frame.reference_count()),
                Some(Object::Foreign(object)) => Some(object.reference_count()),
                None => None,
            }
        } else {
            None
        }
    }

    /// Takes one more reference on the object behind `pointer` and answers
    /// with the new count.
    pub fn add_ref(&mut self, pointer: InterfacePointer) -> (count: u32)
        requires
            old(self).wf(),
            live(old(self)@, pointer.object as int),
            old(self)@[pointer.object as int].unwrap().references < u32::MAX,
        ensures
            final(self)@ == add_reference(old(self)@, pointer.object as int),
            count == old(self)@[pointer.object as int].unwrap().references + 1,
            final(self).wf(),
    {
        let count = match &mut self.slots[pointer.object] {
            Some(Object::ClientSite(site)) => site.add_ref(),
            Some(Object::InPlaceFrame(frame)) => frame.add_ref(),
            Some(Object::Foreign(object)) => object.add_ref(),
            None => 0,
        };
        proof {
            lemma_states_update(old(self).slots@, self.slots@, pointer.object as int);
            lemma_add_reference_consistent(old(self)@, pointer.object as int);
        }
        count
    }

    /// Gives back one reference of an object that owns no other, and takes
    /// the object out of the table with its last reference.
    fn drop_leaf(&mut self, id: usize)
        requires
            live(old(self)@, id as int),
            old(self)@[id as int].unwrap().references >= 1,
            old(self)@[id as int].unwrap().kind != ObjectKind::ClientSite,
        ensures
            final(self)@ == drop_reference(old(self)@, id as int),
    {
        let count = match &mut self.slots[id] {
            Some(Object::InPlaceFrame(frame)) => frame.release(),
            Some(Object::Foreign(object)) => object.release(),
            _ => 1,
        };
        if count == 0 {
            self.slots[id] = None;
        }
        proof {
            lemma_states_update(old(self).slots@, self.slots@, id as int);
        }
    }

    /// Gives back one reference of the object behind `pointer` and answers
    /// with the new count. With the last reference the object leaves the
    /// table; a client site then gives back the reference on its frame.
    pub fn release(&mut self, pointer: InterfacePointer) -> (count: u32)
        requires
            old(self).wf(),
            releasable(old(self)@, pointer.object as int),
        ensures
            final(self)@ == release_reference(old(self)@, pointer.object as int),
            count == old(self)@[pointer.object as int].unwrap().references - 1,
            final(self).wf(),
    {
        let id = pointer.object;
        let ghost before = self@;
        assert(before[id as int].unwrap().references >= 1);
        assert(is_site(before, id as int) ==> site_has_frame(before, id as int));
        let mut frame: Option<InterfacePointer> = None;
        let count = match &mut self.slots[id] {
            Some(Object::ClientSite(site)) => {
                frame = site.frame_pointer();
                site.release()
            },
            Some(Object::InPlaceFrame(frame)) => frame.release(),
            Some(Object::Foreign(object)) => object.release(),
            None => 0,
        };
        if count == 0 {
            self.slots[id] = None;
            proof {
                lemma_states_update(old(self).slots@, self.slots@, id as int);
            }
            assert(self@ == drop_reference(before, id as int));
            match frame {
                Some(own) => {
                    self.drop_leaf(own.object);
                },
                None => {},
            }
        } else {
            proof {
                lemma_states_update(old(self).slots@, self.slots@, id as int);
            }
            assert(self@ == drop_reference(before, id as int));
        }
        proof {
            lemma_release_consistent(before, id as int);
        }
        count
    }

    /// Gives back one reference of the object behind `pointer`, where the
    /// table still holds that object, as `release` does. `None` reports a
    /// release on an object that has left the table, one release too many:
    /// nothing has changed, nothing is destroyed a second time, and the
    /// caller is to stop.
    pub fn checked_release(&mut self, pointer: InterfacePointer) -> (count: Option<u32>)
        requires
            old(self).wf(),
            live(old(self)@, pointer.object as int) ==> releasable(
                old(self)@,
                pointer.object as int,
            ),
        ensures
            final(self).wf(),
            match checked_release_reference(old(self)@, pointer.object as int) {
                Some(objects) => final(self)@ == objects && count == Some(
                    (old(self)@[pointer.object as int].unwrap().references - 1) as u32,
                ),
                None => final(self)@ == old(self)@ && count is None,
            },
    {
        match self.reference_count(pointer.object) {
            Some(_) => Some(self.release(pointer)),
            None => None,
        }
    }

    /// Answers a request, made through `pointer`, for the interface that
    /// `iid` names. Where the object supports it, the answer is `Success`
    /// with a pointer to the header of the same object that answers to the
    /// interface, and one reference is taken. Where it does not, the answer
    /// is `NoInterface` with no pointer, and nothing changes.
    pub fn query_interface(&mut self, pointer: InterfacePointer, iid: &Guid) -> (answer: (
        Status,
        Option<InterfacePointer>,
    ))
        requires
            old(self).wf(),
            live(old(self)@, pointer.object as int),
            answering_facet(
                old(self)@[pointer.object as int].unwrap(),
                Interface::spec_from_iid(iid@),
            ) is Some ==> old(self)@[pointer.object as int].unwrap().references < u32::MAX,
        ensures
            final(self).wf(),
            match answering_facet(
                old(self)@[pointer.object as int].unwrap(),
                Interface::spec_from_iid(iid@),
            ) {
                Some(facet) => {
                    &&& answer.0 == Status::Success
                    &&& answer.1 == Some(InterfacePointer { object: pointer.object, facet })
                    &&& final(self)@ == add_reference(old(self)@, pointer.object as int)
                },
                None => {
                    &&& answer.0 == Status::NoInterface
                    &&& answer.1 is None
                    &&& final(self)@ == old(self)@
                },
            },
    {
        let id = pointer.object;
        let facet: Option<Facet> = match &mut self.slots[id] {
            Some(Object::ClientSite(site)) => site.query_interface(iid).1,
            Some(Object::InPlaceFrame(frame)) => match frame.query_interface(iid) {
                Status::Success => Some(Facet::OleInPlaceFrame),
                _ => None,
            },
            Some(Object::Foreign(object)) => match object.query_interface(iid) {
                Status::Success => Some(Facet::Foreign),
                _ => None,
            },
            None => None,
        };
        match facet {
            Some(facet) => {
                proof {
                    lemma_states_update(old(self).slots@, self.slots@, id as int);
                    lemma_add_reference_consistent(old(self)@, id as int);
                }
                (Status::Success, Some(InterfacePointer { object: id, facet }))
            },
            None => {
                proof {
                    lemma_states_update(old(self).slots@, self.slots@, id as int);
                    assert(self@ =~= old(self)@);
                }
                (Status::NoInterface, None)
            },
        }
    }

    /// The window of the client site or of the in-place frame behind
    /// `pointer`.
    pub fn get_window(&self, pointer: InterfacePointer) -> (answer: (Status, usize))
        requires
            valid_pointer(self@, pointer),
            pointer.facet == Facet::OleInPlaceSite || pointer.facet == Facet::OleInPlaceFrame,
        ensures
            answer.0 == Status::Success,
            answer.1 == self@[pointer.object as int].unwrap().window,
    {
        match &self.slots[pointer.object] {
            Some(Object::ClientSite(site)) => site.get_window(),
            Some(Object::InPlaceFrame(frame)) => frame.get_window(),
            _ => (Status::Success, 0),
        }
    }

    /// The window context of the in-place site behind `pointer`: the site's
    /// frame, on which a reference is taken for the caller, no document
    /// window, and the description of the frame.
    pub fn get_window_context(&mut self, pointer: InterfacePointer) -> (answer: (
        Status,
        WindowContext,
    ))
        requires
            old(self).wf(),
            valid_pointer(old(self)@, pointer),
            pointer.facet == Facet::OleInPlaceSite,
            old(self)@[old(self)@[pointer.object as int].unwrap().frame.unwrap().object as int].unwrap().references
                < u32::MAX,
        ensures
            final(self).wf(),
            answer.0 == Status::Success,
            answer.1.frame == old(self)@[pointer.object as int].unwrap().frame,
            answer.1.document is None,
            answer.1.frame_info == (FrameInfo {
                mdi_app: false,
                frame_window: old(self)@[pointer.object as int].unwrap().window,
                accelerators: 0,
                accelerator_entries: 0,
            }),
            final(self)@ == add_reference(
                old(self)@,
                old(self)@[pointer.object as int].unwrap().frame.unwrap().object as int,
            ),
    {
        assert(is_site(self@, pointer.object as int));
        assert(site_has_frame(self@, pointer.object as int));
        let answer = match &self.slots[pointer.object] {
            Some(Object::ClientSite(site)) => site.get_window_context(),
            _ => (
                Status::Success,
                WindowContext {
                    frame: None,
                    document: None,
                    frame_info: FrameInfo {
                        mdi_app: false,
                        frame_window: 0,
                        accelerators: 0,
                        accelerator_entries: 0,
                    },
                },
            ),
        };
        match answer.1.frame {
            Some(frame) => {
                self.add_ref(frame);
            },
            None => {},
        }
        answer
    }

    /// Tells the in-place site behind `pointer` that the control's rectangle
    /// has changed. The site passes `rect` on to the in-place object that it
    /// borrows, as position and as clip rectangle, and succeeds whether or
    /// not that object took them.
    pub fn on_pos_rect_change(&mut self, pointer: InterfacePointer, rect: Rect) -> (status: Status)
        requires
            old(self).wf(),
            valid_pointer(old(self)@, pointer),
            pointer.facet == Facet::OleInPlaceSite,
        ensures
            final(self).wf(),
            status == Status::Success,
            final(self)@ == forward_rect(
                old(self)@,
                old(self)@[pointer.object as int].unwrap().in_place_object,
                rect,
            ),
    {
        let target = match &self.slots[pointer.object] {
            Some(Object::ClientSite(site)) => site.on_pos_rect_change().1,
            _ => None,
        };
        match target {
            Some(object) => {
                if object.object < self.slots.len() {
                    match &mut self.slots[object.object] {
                        Some(Object::Foreign(foreign)) => {
                            foreign.set_object_rects(rect, rect);
                        },
                        _ => {},
                    }
                }
            },
            None => {},
        }
        proof {
            let after = forward_rect(
                old(self)@,
                old(self)@[pointer.object as int].unwrap().in_place_object,
                rect,
            );
            assert(self@ =~= after);
            lemma_consistent_kept(old(self)@, after);
        }
        Status::Success
    }

    /// The object that the page's scripts see as `external`, asked of the
    /// document host handler behind `pointer`: the dispatch header of the
    /// same client site, with a reference taken for the caller.
    pub fn get_external(&mut self, pointer: InterfacePointer) -> (answer: (
        Status,
        Option<InterfacePointer>,
    ))
        requires
            old(self).wf(),
            valid_pointer(old(self)@, pointer),
            pointer.facet == Facet::DocHostUiHandler,
            old(self)@[pointer.object as int].unwrap().references < u32::MAX,
        ensures
            final(self).wf(),
            answer.0 == Status::Success,
            answer.1 == Some(InterfacePointer { object: pointer.object, facet: Facet::Dispatch }),
            final(self)@ == add_reference(old(self)@, pointer.object as int),
    {
        let id = pointer.object;
        match &mut self.slots[id] {
            Some(Object::ClientSite(site)) => {
                site.get_external();
            },
            _ => {},
        }
        proof {
            lemma_states_update(old(self).slots@, self.slots@, id as int);
            lemma_add_reference_consistent(old(self)@, id as int);
        }
        (Status::Success, Some(InterfacePointer { object: id, facet: Facet::Dispatch }))
    }

    /// Performs a call of the hosted page, made through the dispatch header
    /// behind `pointer`, on the callback of that client site. A call that
    /// `spec_read_request` turns down ends with that status; any other hands
    /// its text to the callback and hands back the encoded reply where
    /// `wants_result` asks for it.
    pub fn invoke(
        &self,
        pointer: InterfacePointer,
        member: i32,
        flags: u16,
        parameters: &DispatchParameters,
        wants_result: bool,
    ) -> (outcome: Invocation)
        requires
            self.wf(),
            valid_pointer(self@, pointer),
            pointer.facet == Facet::Dispatch,
        ensures
            match spec_read_request(member, flags, *parameters) {
                Err(rejection) => {
                    &&& outcome.status == rejection.status
                    &&& outcome.argument_error == rejection.argument
                    &&& outcome.result is None
                },
                Ok(text) => {
                    &&& outcome.status == Status::Success
                    &&& outcome.argument_error is None
                    &&& exists|argument: String, reply: String|
                        {
                            &&& argument@ == text
                            &&& #[trigger] call_ensures(
                                *self@[pointer.object as int].unwrap().callback.unwrap(),
                                (argument,),
                                reply,
                            )
                            &&& wants_result ==> outcome.result is Some
                                && outcome.result.unwrap().vt == VT_BSTR
                                && outcome.result.unwrap().text@ == encode_utf16(reply@)
                            &&& !wants_result ==> outcome.result is None
                        }
                },
            },
    {
        assert(is_site(self@, pointer.object as int));
        assert(site_callable(self@, pointer.object as int));
        match &self.slots[pointer.object] {
            Some(Object::ClientSite(site)) => {
                proof {
                    let object = self.slots@[pointer.object as int].unwrap();
                    assert(self@[pointer.object as int] == Some(object.state()));
                    assert(object.state().callback == Some(site.callback()));
                    let callback = self@[pointer.object as int].unwrap().callback;
                    assert(callback.unwrap() == site.callback());
                    assert forall|text: String| call_requires(*site.callback(), (text,)) by {
                        assert(call_requires(*callback.unwrap(), (text,)));
                    }
                }
                site.invoke(member, flags, parameters, wants_result)
            },
            _ => Invocation { status: Status::MemberNotFound, result: None, argument_error: None },
        }
    }
}

} // verus!
