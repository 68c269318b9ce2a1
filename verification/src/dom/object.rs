//! Handles to values that live in the traced heap.

use vstd::prelude::*;
use wasmtime::{Config, Engine, ExternRef, GcHeapOutOfMemory, Rooted, Store};

use crate::dom::node::{NodeImpl, NodeView};
use crate::dom::window::WindowImpl;

verus! {

/// A store of the `wasmtime` runtime; its traced heap holds the objects.
#[verifier::external_type_specification]
#[verifier::external_body]
#[verifier::reject_recursive_types(T)]
pub struct ExStore<T: 'static>(Store<T>);

/// What `wasmtime` reports when the traced heap has no room for an
/// allocation. It keeps the value that was to be stored.
#[verifier::external_type_specification]
#[verifier::external_body]
#[verifier::reject_recursive_types(T)]
pub struct ExGcHeapOutOfMemory<T>(GcHeapOutOfMemory<T>);

/// The error type of `wasmtime`.
#[verifier::external_type_specification]
#[verifier::external_body]
pub struct ExError(wasmtime::Error);

/// What an object of the heap holds.
#[derive(Debug)]
pub enum HostData {
    /// The data of a node.
    Node(NodeImpl),
    /// The data of a window.
    Window(WindowImpl),
}

/// What a `HostData` is in contracts.
pub enum ObjectView {
    /// A node.
    Node(NodeView),
    /// A window.
    Window,
}

impl View for HostData {
    type V = ObjectView;

    open spec fn view(&self) -> ObjectView {
        match self {
            HostData::Node(node) => ObjectView::Node(node@),
            HostData::Window(_) => ObjectView::Window,
        }
    }
}

/// This is a GC traced object represented as a DOM object: a copyable handle
/// to one object of the traced heap. It holds a root of the store, which
/// Verus does not look into.
#[verifier::external_body]
#[derive(Copy, Debug)]
pub struct Object {
    object: Rooted<ExternRef>,
}

impl Clone for Object {
    /// A root is copied bit for bit: the copy is the same handle.
    #[verifier::external_body]
    fn clone(&self) -> (r: Self)
        ensures
            r == *self,
    {
        Object { object: self.object }
    }
}

/// The identity of the object that a handle refers to. Two handles refer to
/// the same object exactly if `Rooted::ref_eq` says so, and no object of one
/// store has the identity of an object of another.
pub uninterp spec fn object_id(object: Object) -> int;

/// The host data of the objects that the roots of a store keep alive, by the
/// object's identity.
pub uninterp spec fn store_data(store: Store<()>) -> Map<int, HostData>;

/// Why one attempt to allocate failed.
#[derive(Debug)]
pub enum AllocationFailure {
    /// The heap has no room. The value comes back, with what the collector
    /// needs to know to make room.
    OutOfMemory(HostData, GcHeapOutOfMemory<()>),
    /// Any other failure.
    Other(wasmtime::Error),
}

/// What follows the first attempt to allocate.
#[derive(Debug)]
pub enum Attempt {
    /// The object was made.
    Done(Object),
    /// The heap had no room: a collection is made and the value is tried once
    /// more.
    Again(HostData, GcHeapOutOfMemory<()>),
    /// The allocation has failed for good.
    Failed(HeapError),
}

/// What can go wrong with the traced heap.
#[derive(Clone, Copy, Debug, PartialEq, Eq, Structural)]
pub enum HeapError {
    /// The heap had no room for a new object, even after a collection.
    OutOfMemory,
    /// The runtime failed to allocate for another reason.
    Allocation,
    /// The object does not hold data of the type that was asked for.
    TypeMismatch,
}

/// The address space that `Heap::new` reserves for the heap at the start.
pub const INITIAL_RESERVATION: u64 = 0x10_0000;

/// The address space that `Heap::new` reserves again whenever the heap has
/// outgrown what was reserved.
pub const GROWTH_RESERVATION: u64 = 0x10_0000;

/// The size of the guard region that `Heap::new` puts behind the heap: none.
pub const GUARD_SIZE: u64 = 0;

/// The traced heap: the objects that handles refer to. Its store is private,
/// so every root of it was made by `Object::new` at the outermost scope, and
/// stays rooted as long as the heap lives.
pub struct Heap {
    store: Store<()>,
}

impl View for Heap {
    type V = Map<int, ObjectView>;

    /// What each object of the heap holds.
    open spec fn view(&self) -> Map<int, ObjectView> {
        self.data().map_values(|data: HostData| data@)
    }
}

impl Heap {
    /// The host data of each object of the heap.
    pub closed spec fn data(&self) -> Map<int, HostData> {
        store_data(self.store)
    }

    /// Whether `object` is an object of this heap.
    pub open spec fn contains(&self, object: Object) -> bool {
        self.data().contains_key(object_id(object))
    }

    /// Makes an engine with `Engine::new` whose configuration reserves
    /// `reservation` bytes of address space for a heap and `growth` bytes for
    /// its growth, with a guard region of `guard` bytes, and a store of it
    /// with `Store::new`. The store's heap is empty. `None` where
    /// `Engine::new` refuses.
    #[verifier::external_body]
    fn with_reservation(reservation: u64, growth: u64, guard: u64) -> (r: Option<Heap>)
        ensures
            r is Some ==> r.unwrap().data().dom() == Set::<int>::empty(),
    {
        let mut config = Config::new();
        config.memory_reservation(reservation);
        config.memory_reservation_for_growth(growth);
        config.memory_guard_size(guard);
        Engine::new(&config).ok().map(|engine| Heap { store: Store::new(&engine, ()) })
    }

    /// An empty heap, or `None` where the runtime cannot make one. The heap
    /// starts small and grows as objects are made.
    pub fn new() -> (r: Option<Heap>)
        ensures
            r is Some ==> r.unwrap()@ == Map::<int, ObjectView>::empty(),
    {
        let heap = Heap::with_reservation(INITIAL_RESERVATION, GROWTH_RESERVATION, GUARD_SIZE);
        proof {
            if heap is Some {
                assert(heap.unwrap()@ =~= Map::<int, ObjectView>::empty());
            }
        }
        heap
    }

    /// Calls `ExternRef::new` once. On success the heap has one more object,
    /// which is no object that it had, and holds `value`. On failure the heap
    /// holds what it held; where the failure is want of room, `value` comes
    /// back.
    #[verifier::external_body]
    fn try_allocate(&mut self, value: HostData) -> (r: Result<Object, AllocationFailure>)
        ensures
            match r {
                Ok(object) => !store_data(old(self).store).contains_key(object_id(object))
                    && store_data(final(self).store) == store_data(old(self).store).insert(
                    object_id(object),
                    value,
                ),
                Err(AllocationFailure::OutOfMemory(back, _)) => back == value && store_data(
                    final(self).store,
                ) == store_data(old(self).store),
                Err(AllocationFailure::Other(_)) => store_data(final(self).store) == store_data(
                    old(self).store,
                ),
            },
    {
        match ExternRef::new(&mut self.store, value) {
            Ok(object) => Ok(Object { object }),
            Err(e) => match e.downcast::<GcHeapOutOfMemory<HostData>>() {
                Ok(oom) => {
                    let (back, why) = oom.take_inner();
                    Err(AllocationFailure::OutOfMemory(back, why))
                },
                Err(e) => Err(AllocationFailure::Other(e)),
            },
        }
    }

    /// Calls `Store::gc`. A collection frees only what no root keeps alive:
    /// the heap holds what it held.
    #[verifier::external_body]
    fn collect(&mut self, why: &GcHeapOutOfMemory<()>)
        ensures
            store_data(final(self).store) == store_data(old(self).store),
    {
        self.store.gc(Some(why))
    }

    /// Calls `ExternRef::data` and downcasts to `HostData`: the host data of
    /// the object, as long as the heap has it. `wasmtime` panics on a root of
    /// another store.
    #[verifier::external_body]
    fn host_data<'a>(&'a self, object: &Object) -> (r: Option<&'a HostData>)
        requires
            store_data(self.store).contains_key(object_id(*object)),
        ensures
            r == Some(&store_data(self.store)[object_id(*object)]),
    {
        object.object.data(&self.store).ok().flatten().and_then(|any| any.downcast_ref::<HostData>())
    }

    /// Calls `ExternRef::data_mut` and downcasts to `HostData`: the host data
    /// of the object, to be written in place. Nothing else in the heap changes.
    /// `wasmtime` panics on a root of another store.
    #[verifier::external_body]
    fn host_data_mut<'a>(&'a mut self, object: &Object) -> (r: Option<&'a mut HostData>)
        requires
            store_data(old(self).store).contains_key(object_id(*object)),
        ensures
            r is Some,
            *r.unwrap() == store_data(old(self).store)[object_id(*object)],
            store_data(final(self).store) == store_data(old(self).store).insert(
                object_id(*object),
                *final(r.unwrap()),
            ),
    {
        object.object.data_mut(&mut self.store).ok().flatten().and_then(
            |any| any.downcast_mut::<HostData>(),
        )
    }

    /// Calls `Rooted::ref_eq`: whether two handles refer to the same object.
    /// `wasmtime` panics on a root of another store.
    #[verifier::external_body]
    fn same_object(&self, a: &Object, b: &Object) -> (r: bool)
        requires
            store_data(self.store).contains_key(object_id(*a)),
            store_data(self.store).contains_key(object_id(*b)),
        ensures
            r == (object_id(*a) == object_id(*b)),
    {
        Rooted::ref_eq(&self.store, &a.object, &b.object).unwrap_or_default()
    }
}

impl Object {
    /// The identity of the object that the handle refers to.
    pub open spec fn id(&self) -> int {
        object_id(*self)
    }

    /// Create a GC traced `Object` from provided value.
    ///
    /// Where the heap has no room, one collection is made and the allocation
    /// is tried once more; a second failure is returned. On success the heap
    /// has one more object, which holds `value`; on failure it holds what it
    /// held.
    pub fn new(heap: &mut Heap, value: HostData) -> (r: Result<Object, HeapError>)
        ensures
            match r {
                Ok(object) => !old(heap).contains(object) && final(heap).data() == old(
                    heap,
                ).data().insert(object.id(), value),
                Err(e) => final(heap).data() == old(heap).data() && (e == HeapError::OutOfMemory
                    || e == HeapError::Allocation),
            },
    {
        match Object::after_first_attempt(heap.try_allocate(value)) {
            Attempt::Done(object) => Ok(object),
            Attempt::Again(back, why) => {
                heap.collect(&why);
                Object::after_second_attempt(heap.try_allocate(back))
            },
            Attempt::Failed(e) => Err(e),
        }
    }

    /// What follows the first attempt to allocate: the object, where it was
    /// made; a collection and one more attempt with the value that came back,
    /// where the heap had no room; and `HeapError::Allocation` after any other
    /// failure.
    pub fn after_first_attempt(outcome: Result<Object, AllocationFailure>) -> (next: Attempt)
        ensures
            next == (match outcome {
                Ok(object) => Attempt::Done(object),
                Err(AllocationFailure::OutOfMemory(value, why)) => Attempt::Again(value, why),
                Err(AllocationFailure::Other(_)) => Attempt::Failed(HeapError::Allocation),
            }),
    {
        match outcome {
            Ok(object) => Attempt::Done(object),
            Err(AllocationFailure::OutOfMemory(value, why)) => Attempt::Again(value, why),
            Err(AllocationFailure::Other(_)) => Attempt::Failed(HeapError::Allocation),
        }
    }

    /// What follows the second attempt to allocate: the object, where it was
    /// made, and else the failure, which is handed on:
    /// `HeapError::OutOfMemory` where the heap still had no room, and
    /// `HeapError::Allocation` after any other failure.
    pub fn after_second_attempt(outcome: Result<Object, AllocationFailure>) -> (r: Result<
        Object,
        HeapError,
    >)
        ensures
            r == (match outcome {
                Ok(object) => Ok::<Object, HeapError>(object),
                Err(AllocationFailure::OutOfMemory(_, _)) => Err::<Object, HeapError>(
                    HeapError::OutOfMemory,
                ),
                Err(AllocationFailure::Other(_)) => Err::<Object, HeapError>(
                    HeapError::Allocation,
                ),
            }),
    {
        match outcome {
            Ok(object) => Ok(object),
            Err(AllocationFailure::OutOfMemory(_, _)) => Err(HeapError::OutOfMemory),
            Err(AllocationFailure::Other(_)) => Err(HeapError::Allocation),
        }
    }

    /// Get a shared borrow of the underlying data for this `Object`.
    pub fn data<'a>(&self, heap: &'a Heap) -> (r: &'a HostData)
        requires
            heap.contains(*self),
        ensures
            *r == heap.data()[self.id()],
    {
        match heap.host_data(self) {
            Some(data) => data,
            None => {
                proof {
                    assert(false);
                }
                unreached()
            },
        }
    }

    /// Get an exclusive borrow of the underlying data for this `Object`.
    /// What is written through it is what the object holds afterwards; no
    /// other object changes.
    pub fn data_mut<'a>(&self, heap: &'a mut Heap) -> (r: &'a mut HostData)
        requires
            old(heap).contains(*self),
        ensures
            *r == old(heap).data()[self.id()],
            final(heap).data() == old(heap).data().insert(self.id(), *final(r)),
    {
        match heap.host_data_mut(self) {
            Some(data) => data,
            None => {
                proof {
                    assert(false);
                }
                unreached()
            },
        }
    }

    /// Whether two handles refer to the same object.
    pub fn same(&self, other: &Object, heap: &Heap) -> (r: bool)
        requires
            heap.contains(*self),
            heap.contains(*other),
        ensures
            r == (self.id() == other.id()),
    {
        heap.same_object(self, other)
    }
}

} // verus!
