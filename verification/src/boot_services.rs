//! The boot services of the stub firmware that runs the test runner on the
//! host: a database of handles and the protocols installed on them, events,
//! configuration tables and the memory map.
//!
//! A handle names an entry of the database; it is the entry's position
//! counted from one, so that no handle is zero (null).

use crate::firmware::Object;
use crate::guid::{Guid, DEVICE_PATH};
use crate::status::{
    Status, BUFFER_TOO_SMALL, INVALID_PARAMETER, NOT_FOUND, SUCCESS, UNSUPPORTED,
};
use vstd::prelude::*;

verus! {

/// A handle: the position of a database entry, counted from one.
#[derive(Clone, Copy, Debug, PartialEq, Eq, Structural)]
pub struct Handle(pub usize);

/// A protocol installed on a handle.
#[derive(Clone, Copy, Debug, PartialEq, Eq, Structural)]
pub struct ProtocolWrapper {
    /// The protocol's GUID.
    pub guid: Guid,
    /// The address of the protocol's interface.
    pub interface: usize,
    /// Whether the protocol is open.
    pub in_use: bool,
}

/// The protocols installed on one handle, in the order of installation.
pub struct HandleImpl {
    /// The installed protocols.
    pub protocols: Vec<ProtocolWrapper>,
}

/// Whether `ps` holds a protocol with GUID `guid`.
pub open spec fn holds_protocol(ps: Seq<ProtocolWrapper>, guid: Guid) -> bool {
    exists|i: int| 0 <= i < ps.len() && ps[i].guid == guid
}

/// No GUID occurs twice among `ps`.
pub open spec fn distinct_guids(ps: Seq<ProtocolWrapper>) -> bool {
    forall|i: int, j: int|
        0 <= i < ps.len() && 0 <= j < ps.len() && i != j ==> #[trigger] ps[i].guid
            != #[trigger] ps[j].guid
}

impl HandleImpl {
    /// The position of the protocol with GUID `guid`, if one is installed.
    pub fn find_protocol(&self, guid: &Guid) -> (r: Option<usize>)
        ensures
            match r {
                Some(i) => i < self.protocols@.len() && self.protocols@[i as int].guid == *guid
                    && forall|j: int| 0 <= j < i ==> self.protocols@[j].guid != *guid,
                None => !holds_protocol(self.protocols@, *guid),
            },
    {
        let mut i: usize = 0;
        while i < self.protocols.len()
            invariant
                i <= self.protocols@.len(),
                forall|j: int| 0 <= j < i ==> self.protocols@[j].guid != *guid,
            decreases self.protocols@.len() - i,
        {
            if self.protocols[i].guid == *guid {
                return Some(i);
            }
            i = i + 1;
        }
        None
    }

    /// Whether a protocol with GUID `guid` is installed.
    pub fn has_protocol(&self, guid: &Guid) -> (r: bool)
        ensures
            r == holds_protocol(self.protocols@, *guid),
    {
        self.find_protocol(guid).is_some()
    }
}

/// An event and how it notifies.
#[derive(Clone, Copy, Debug, PartialEq, Eq, Structural)]
pub struct EventImpl {
    /// The event's type.
    pub ty: u32,
    /// Whether the event has a notification function.
    pub has_notify: bool,
    /// The context handed to the notification function.
    pub notify_ctx: usize,
}

/// The event type whose notification function runs when the event is
/// checked.
pub const EVT_NOTIFY_WAIT: u32 = 0x0000_0100;

/// What checking an event asks of the caller.
#[derive(Clone, Copy, Debug, PartialEq, Eq, Structural)]
pub enum CheckEventAction {
    /// Call the event's notification function with its context.
    Notify { ctx: usize },
    /// Nothing to do.
    Nothing,
}

/// An entry of the configuration table.
#[derive(Clone, Copy, Debug, PartialEq, Eq, Structural)]
pub struct ConfigurationTable {
    /// The vendor GUID of the table.
    pub vendor_guid: Guid,
    /// The address of the table.
    pub vendor_table: usize,
}

/// One range of memory in the memory map.
#[derive(Clone, Copy, Debug, PartialEq, Eq, Structural)]
pub struct MemoryDescriptor {
    /// The type of memory.
    pub ty: u32,
    /// The physical start address.
    pub phys_start: u64,
    /// The virtual start address.
    pub virt_start: u64,
    /// The number of 4 KiB pages.
    pub page_count: u64,
    /// The memory attributes.
    pub att: u64,
}

/// The size in bytes of a memory descriptor in the firmware's layout.
pub const MEMORY_DESCRIPTOR_SIZE: usize = 40;

/// The size in bytes of a handle in the firmware's layout (an address).
pub const HANDLE_SIZE: usize = 8;

/// The type of interface that `install_protocol_interface` accepts.
pub const NATIVE_INTERFACE: u32 = 0;

/// Memory type of loader code.
pub const LOADER_CODE: u32 = 1;

/// `ps` with the protocol whose GUID is `guid` marked in use (or not).
pub open spec fn set_in_use(ps: Seq<ProtocolWrapper>, guid: Guid, in_use: bool) -> Seq<ProtocolWrapper> {
    ps.map_values(
        |p: ProtocolWrapper|
            if p.guid == guid {
                ProtocolWrapper { in_use, ..p }
            } else {
                p
            },
    )
}

/// Whether the protocol with GUID `guid` in `ps` is open.
pub open spec fn open_in(ps: Seq<ProtocolWrapper>, guid: Guid) -> bool {
    exists|i: int| 0 <= i < ps.len() && ps[i].guid == guid && ps[i].in_use
}

/// Whether `interface` is the interface of the protocol with GUID `guid` in
/// `ps`.
pub open spec fn interface_in(ps: Seq<ProtocolWrapper>, guid: Guid, interface: usize) -> bool {
    exists|i: int| 0 <= i < ps.len() && ps[i].guid == guid && ps[i].interface == interface
}

/// With distinct GUIDs, marking the protocol at position `i` is marking the
/// protocol with its GUID.
proof fn lemma_set_in_use_at(ps: Seq<ProtocolWrapper>, i: int, in_use: bool)
    requires
        distinct_guids(ps),
        0 <= i < ps.len(),
    ensures
        ps.update(i, ProtocolWrapper { in_use, ..ps[i] }) =~= set_in_use(ps, ps[i].guid, in_use),
{
    assert forall|j: int| 0 <= j < ps.len() && j != i implies ps[j].guid != ps[i].guid by {
        assert(ps[j].guid != ps[i].guid);
    }
}

/// How `find_handles_impl` selects handles.
pub open spec fn search_selects(search_ty: i32, proto: Option<Guid>, ps: Seq<ProtocolWrapper>) -> bool {
    search_ty == 0 || (search_ty == 2 && holds_protocol(ps, proto.unwrap()))
}

/// The handles among the first `n` entries of `db` that a search selects,
/// in order.
pub open spec fn selected_handles(
    db: Seq<Seq<ProtocolWrapper>>,
    search_ty: i32,
    proto: Option<Guid>,
    n: int,
) -> Seq<Handle>
    decreases n,
{
    if n <= 0 {
        Seq::empty()
    } else {
        let prev = selected_handles(db, search_ty, proto, n - 1);
        if search_selects(search_ty, proto, db[n - 1]) {
            prev.push(Handle(n as usize))
        } else {
            prev
        }
    }
}

/// The position of the first of the first `n` entries of `db` that has the
/// protocol `guid`.
pub open spec fn first_with(db: Seq<Seq<ProtocolWrapper>>, guid: Guid, n: int) -> Option<int>
    decreases n,
{
    if n <= 0 {
        None
    } else {
        match first_with(db, guid, n - 1) {
            Some(k) => Some(k),
            None => if holds_protocol(db[n - 1], guid) {
                Some(n - 1)
            } else {
                None
            },
        }
    }
}

/// The position of the first of the first `n` entries of `db` that has
/// both protocols `a` and `b`.
pub open spec fn first_with_both(db: Seq<Seq<ProtocolWrapper>>, a: Guid, b: Guid, n: int) -> Option<
    int,
>
    decreases n,
{
    if n <= 0 {
        None
    } else {
        match first_with_both(db, a, b, n - 1) {
            Some(k) => Some(k),
            None => if holds_protocol(db[n - 1], a) && holds_protocol(db[n - 1], b) {
                Some(n - 1)
            } else {
                None
            },
        }
    }
}

proof fn lemma_first_with_extend(db: Seq<Seq<ProtocolWrapper>>, guid: Guid, i: int)
    requires
        0 <= i < db.len(),
        first_with(db, guid, i) is None,
    ensures
        holds_protocol(db[i], guid) ==> forall|n: int|
            i < n <= db.len() ==> #[trigger] first_with(db, guid, n) == Some(i),
        first_with(db, guid, i + 1) is None <==> !holds_protocol(db[i], guid),
{
    if holds_protocol(db[i], guid) {
        assert forall|n: int| i < n <= db.len() implies #[trigger] first_with(db, guid, n) == Some(i) by {
            lemma_first_with_stable(db, guid, i, n);
        }
    }
}

proof fn lemma_first_with_stable(db: Seq<Seq<ProtocolWrapper>>, guid: Guid, i: int, n: int)
    requires
        0 <= i < n <= db.len(),
        first_with(db, guid, i + 1) == Some(i),
    ensures
        first_with(db, guid, n) == Some(i),
    decreases n - i,
{
    if n > i + 1 {
        lemma_first_with_stable(db, guid, i, n - 1);
    }
}

proof fn lemma_first_with_both_stable(
    db: Seq<Seq<ProtocolWrapper>>,
    a: Guid,
    b: Guid,
    i: int,
    n: int,
)
    requires
        0 <= i < n <= db.len(),
        first_with_both(db, a, b, i) is None,
        holds_protocol(db[i], a) && holds_protocol(db[i], b),
    ensures
        first_with_both(db, a, b, n) == Some(i),
    decreases n - i,
{
    if n > i + 1 {
        lemma_first_with_both_stable(db, a, b, i, n - 1);
    }
}

proof fn lemma_selected_len(db: Seq<Seq<ProtocolWrapper>>, search_ty: i32, proto: Option<Guid>, n: int)
    requires
        0 <= n,
    ensures
        selected_handles(db, search_ty, proto, n).len() <= n,
    decreases n,
{
    if n > 0 {
        lemma_selected_len(db, search_ty, proto, n - 1);
    }
}

/// The boot services' state.
pub struct State {
    handle_db: Vec<HandleImpl>,
    events: Vec<EventImpl>,
    memory_descriptors: Vec<MemoryDescriptor>,
    configuration_tables: Vec<ConfigurationTable>,
    objects: Vec<Object>,
}

impl State {
    /// The protocols of each handle, by position.
    pub closed spec fn db(&self) -> Seq<Seq<ProtocolWrapper>> {
        self.handle_db@.map_values(|h: HandleImpl| h.protocols@)
    }

    /// The events, by position.
    pub closed spec fn events(&self) -> Seq<EventImpl> {
        self.events@
    }

    /// The memory map.
    pub closed spec fn memory_map(&self) -> Seq<MemoryDescriptor> {
        self.memory_descriptors@
    }

    /// The configuration table.
    pub closed spec fn configuration(&self) -> Seq<ConfigurationTable> {
        self.configuration_tables@
    }

    /// The objects that protocol interfaces refer to; an interface is the
    /// position of its object counted from one.
    pub closed spec fn objects(&self) -> Seq<Object> {
        self.objects@
    }

    /// Stores an object and returns the interface that refers to it.
    pub fn store_object(&mut self, o: Object) -> (id: usize)
        requires
            old(self).objects().len() < usize::MAX,
        ensures
            final(self).objects() == old(self).objects().push(o),
            id == final(self).objects().len(),
            final(self).db() == old(self).db(),
            final(self).events() == old(self).events(),
            final(self).memory_map() == old(self).memory_map(),
            final(self).configuration() == old(self).configuration(),
            final(self).wf() == old(self).wf(),
    {
        self.objects.push(o);
        self.objects.len()
    }

    /// The object that interface `id` refers to.
    pub fn object(&self, id: usize) -> (o: &Object)
        requires
            1 <= id <= self.objects().len(),
        ensures
            *o == self.objects()[id - 1],
    {
        &self.objects[id - 1]
    }

    /// Replaces the object that interface `id` refers to.
    pub fn set_object(&mut self, id: usize, o: Object)
        requires
            1 <= id <= old(self).objects().len(),
        ensures
            final(self).objects() == old(self).objects().update(id - 1, o),
            final(self).db() == old(self).db(),
            final(self).events() == old(self).events(),
            final(self).memory_map() == old(self).memory_map(),
            final(self).configuration() == old(self).configuration(),
            final(self).wf() == old(self).wf(),
    {
        self.objects.set(id - 1, o);
    }

    /// Whether `h` names an entry of the database.
    pub open spec fn valid_handle(&self, h: Handle) -> bool {
        1 <= h.0 <= self.db().len()
    }

    /// The protocols installed on `h`.
    pub open spec fn protocols(&self, h: Handle) -> Seq<ProtocolWrapper> {
        self.db()[h.0 - 1]
    }

    /// The state is well formed: no GUID occurs twice on a handle, and the
    /// handles fit in memory.
    pub open spec fn wf(&self) -> bool {
        &&& forall|i: int| 0 <= i < self.db().len() ==> distinct_guids(#[trigger] self.db()[i])
        &&& self.db().len() * HANDLE_SIZE <= usize::MAX
        &&& self.memory_map().len() * MEMORY_DESCRIPTOR_SIZE <= usize::MAX
    }

    /// There is room for one more handle.
    pub open spec fn room_for_handle(&self) -> bool {
        (self.db().len() + 1) * HANDLE_SIZE <= usize::MAX
    }

    /// A state with no handles or events, no configuration tables, and a
    /// memory map of one page of loader code.
    pub fn new() -> (s: State)
        ensures
            s.wf(),
            s.db() == Seq::<Seq<ProtocolWrapper>>::empty(),
            s.events() == Seq::<EventImpl>::empty(),
            s.configuration() == Seq::<ConfigurationTable>::empty(),
            s.objects() == Seq::<Object>::empty(),
            s.memory_map() == seq![
                MemoryDescriptor {
                    ty: LOADER_CODE,
                    phys_start: 0,
                    virt_start: 0,
                    page_count: 1,
                    att: 0,
                },
            ],
    {
        let mut memory_descriptors = Vec::new();
        memory_descriptors.push(
            MemoryDescriptor { ty: LOADER_CODE, phys_start: 0, virt_start: 0, page_count: 1, att: 0 },
        );
        let s = State {
            handle_db: Vec::new(),
            events: Vec::new(),
            memory_descriptors,
            configuration_tables: Vec::new(),
            objects: Vec::new(),
        };
        assert(s.db() =~= Seq::<Seq<ProtocolWrapper>>::empty());
        s
    }

    /// The entry that `handle` names, if any.
    fn find_handle_index(&self, handle: Handle) -> (r: Option<usize>)
        ensures
            r == (if self.valid_handle(handle) {
                Some((handle.0 - 1) as usize)
            } else {
                None
            }),
    {
        if handle.0 >= 1 && handle.0 <= self.handle_db.len() {
            Some(handle.0 - 1)
        } else {
            None
        }
    }

    /// Installs a protocol on `handle`, or on a new handle when `handle` is
    /// `None`, and returns the handle it was installed on.
    pub fn install_protocol_simple(
        &mut self,
        handle: Option<Handle>,
        guid: &Guid,
        interface: usize,
    ) -> (r: Result<Handle, Status>)
        requires
            old(self).wf(),
            handle.is_none() ==> old(self).room_for_handle(),
        ensures
            final(self).wf(),
            final(self).events() == old(self).events(),
            final(self).memory_map() == old(self).memory_map(),
            final(self).objects() == old(self).objects(),
            final(self).configuration() == old(self).configuration(),
            ({
                let pw = ProtocolWrapper { guid: *guid, interface, in_use: false };
                match handle {
                    None => {
                        &&& r == Ok::<Handle, Status>(Handle((old(self).db().len() + 1) as usize))
                        &&& final(self).db() == old(self).db().push(seq![pw])
                    },
                    Some(h) => if !old(self).valid_handle(h) || holds_protocol(
                        old(self).protocols(h),
                        *guid,
                    ) {
                        r == Err::<Handle, Status>(Status(INVALID_PARAMETER)) && final(self).db()
                            == old(self).db()
                    } else {
                        r == Ok::<Handle, Status>(h) && final(self).db() == old(self).db().update(
                            h.0 - 1,
                            old(self).protocols(h).push(pw),
                        )
                    },
                }
            }),
    {
        let mut in_out_handle = handle;
        let status = self.install_protocol_interface(
            &mut in_out_handle,
            guid,
            NATIVE_INTERFACE,
            interface,
        );
        if status.0 == SUCCESS {
            match in_out_handle {
                Some(h) => Ok(h),
                None => Err(status),
            }
        } else {
            Err(status)
        }
    }

    /// Opens the protocol with GUID `protocol` on `handle`: marks it in use
    /// and stores its interface in `*interface`.
    ///
    /// Fails with `INVALID_PARAMETER` if the handle names no entry and with
    /// `UNSUPPORTED` if the handle has no such protocol, changing nothing.
    /// Opening a protocol that is already open is not allowed.
    pub fn open_protocol(
        &mut self,
        handle: Handle,
        protocol: &Guid,
        interface: &mut usize,
        agent_handle: Handle,
        controller_handle: Handle,
        attributes: u32,
    ) -> (status: Status)
        requires
            old(self).wf(),
            old(self).valid_handle(handle) ==> !open_in(old(self).protocols(handle), *protocol),
        ensures
            final(self).wf(),
            final(self).events() == old(self).events(),
            final(self).memory_map() == old(self).memory_map(),
            final(self).objects() == old(self).objects(),
            final(self).configuration() == old(self).configuration(),
            if !old(self).valid_handle(handle) {
                status.0 == INVALID_PARAMETER && final(self).db() == old(self).db()
                    && *final(interface) == *old(interface)
            } else if !holds_protocol(old(self).protocols(handle), *protocol) {
                status.0 == UNSUPPORTED && final(self).db() == old(self).db()
                    && *final(interface) == *old(interface)
            } else {
                &&& status.0 == SUCCESS
                &&& final(self).db() == old(self).db().update(
                    handle.0 - 1,
                    set_in_use(old(self).protocols(handle), *protocol, true),
                )
                &&& interface_in(old(self).protocols(handle), *protocol, *final(interface))
            },
    {
        let idx = match self.find_handle_index(handle) {
            Some(idx) => idx,
            None => {
                return Status(INVALID_PARAMETER);
            },
        };
        match self.handle_db[idx].find_protocol(protocol) {
            Some(i) => {
                let ghost old_db = self.db();
                let ghost ps = old_db[idx as int];
                *interface = self.handle_db[idx].protocols[i].interface;
                self.set_protocol_in_use(idx, i, true);
                proof {
                    lemma_set_in_use_at(ps, i as int, true);
                }
                assert(self.db() =~= old_db.update(idx as int, set_in_use(ps, *protocol, true)));
                Status(SUCCESS)
            },
            None => Status(UNSUPPORTED),
        }
    }

    /// Closes the protocol with GUID `protocol` on `handle`, marking it no
    /// longer in use.
    ///
    /// Fails with `INVALID_PARAMETER` if the handle names no entry and with
    /// `NOT_FOUND` if the handle has no such protocol, changing nothing.
    /// Closing a protocol that is not open is not allowed.
    pub fn close_protocol(
        &mut self,
        handle: Handle,
        protocol: &Guid,
        agent_handle: Handle,
        controller_handle: Handle,
    ) -> (status: Status)
        requires
            old(self).wf(),
            old(self).valid_handle(handle) && holds_protocol(old(self).protocols(handle), *protocol)
                ==> open_in(old(self).protocols(handle), *protocol),
        ensures
            final(self).wf(),
            final(self).events() == old(self).events(),
            final(self).memory_map() == old(self).memory_map(),
            final(self).objects() == old(self).objects(),
            final(self).configuration() == old(self).configuration(),
            if !old(self).valid_handle(handle) {
                status.0 == INVALID_PARAMETER && final(self).db() == old(self).db()
            } else if !holds_protocol(old(self).protocols(handle), *protocol) {
                status.0 == NOT_FOUND && final(self).db() == old(self).db()
            } else {
                &&& status.0 == SUCCESS
                &&& final(self).db() == old(self).db().update(
                    handle.0 - 1,
                    set_in_use(old(self).protocols(handle), *protocol, false),
                )
            },
    {
        let idx = match self.find_handle_index(handle) {
            Some(idx) => idx,
            None => {
                return Status(INVALID_PARAMETER);
            },
        };
        match self.handle_db[idx].find_protocol(protocol) {
            Some(i) => {
                let ghost old_db = self.db();
                let ghost ps = old_db[idx as int];
                self.set_protocol_in_use(idx, i, false);
                proof {
                    lemma_set_in_use_at(ps, i as int, false);
                }
                assert(self.db() =~= old_db.update(idx as int, set_in_use(ps, *protocol, false)));
                Status(SUCCESS)
            },
            None => Status(NOT_FOUND),
        }
    }

    /// Sets whether the protocol at position `i` of entry `idx` is in use.
    fn set_protocol_in_use(&mut self, idx: usize, i: usize, in_use: bool)
        requires
            old(self).wf(),
            idx < old(self).db().len(),
            i < old(self).db()[idx as int].len(),
        ensures
            final(self).wf(),
            final(self).events() == old(self).events(),
            final(self).memory_map() == old(self).memory_map(),
            final(self).objects() == old(self).objects(),
            final(self).configuration() == old(self).configuration(),
            final(self).db() == old(self).db().update(
                idx as int,
                old(self).db()[idx as int].update(
                    i as int,
                    ProtocolWrapper { in_use, ..old(self).db()[idx as int][i as int] },
                ),
            ),
    {
        let ghost old_db = self.db();
        let mut entry = HandleImpl { protocols: Vec::new() };
        core::mem::swap(&mut entry, &mut self.handle_db[idx]);
        let mut pw = entry.protocols[i];
        pw.in_use = in_use;
        entry.protocols.set(i, pw);
        core::mem::swap(&mut entry, &mut self.handle_db[idx]);
        let ghost new_ps = old_db[idx as int].update(i as int, pw);
        assert(self.db() =~= old_db.update(idx as int, new_ps));
        assert(distinct_guids(new_ps)) by {
            assert(distinct_guids(old_db[idx as int]));
            assert forall|a: int, b: int|
                0 <= a < new_ps.len() && 0 <= b < new_ps.len() && a != b implies #[trigger] new_ps[a].guid
                != #[trigger] new_ps[b].guid by {
                assert(new_ps[a].guid == old_db[idx as int][a].guid);
                assert(new_ps[b].guid == old_db[idx as int][b].guid);
            }
        }
        assert forall|k: int| 0 <= k < self.db().len() implies distinct_guids(#[trigger] self.db()[k]) by {
            if k != idx {
                assert(self.db()[k] == old_db[k]);
            }
        }
    }

    /// The handles that a search selects, in database order: all handles
    /// (`search_ty` 0) or those with the protocol `proto` (`search_ty` 2).
    /// Searches by registered notification (1) are not provided, and no
    /// other search type is valid.
    pub fn find_handles_impl(&self, search_ty: i32, proto: Option<Guid>) -> (r: Vec<Handle>)
        requires
            search_ty == 0 || (search_ty == 2 && proto.is_some()),
        ensures
            r@ == selected_handles(self.db(), search_ty, proto, self.db().len() as int),
    {
        let mut out: Vec<Handle> = Vec::new();
        let mut i: usize = 0;
        while i < self.handle_db.len()
            invariant
                i <= self.db().len(),
                self.db().len() == self.handle_db@.len(),
                search_ty == 0 || (search_ty == 2 && proto.is_some()),
                out@ == selected_handles(self.db(), search_ty, proto, i as int),
            decreases self.db().len() - i,
        {
            let selected = if search_ty == 0 {
                true
            } else {
                match proto {
                    Some(g) => self.handle_db[i].has_protocol(&g),
                    None => false,
                }
            };
            assert(self.db()[i as int] == self.handle_db@[i as int].protocols@);
            if selected {
                out.push(Handle(i + 1));
            }
            i = i + 1;
        }
        out
    }

    /// Writes the handles that a search selects into `buf` if `*buf_sz`
    /// bytes can hold them; `*buf_sz` is set to the size they take. Fails
    /// with `BUFFER_TOO_SMALL`, leaving `buf` alone, if they do not fit.
    pub fn locate_handle(
        &self,
        search_ty: i32,
        proto: Option<Guid>,
        buf_sz: &mut usize,
        buf: &mut Vec<Handle>,
    ) -> (status: Status)
        requires
            self.wf(),
            search_ty == 0 || (search_ty == 2 && proto.is_some()),
        ensures
            ({
                let found = selected_handles(self.db(), search_ty, proto, self.db().len() as int);
                &&& *final(buf_sz) == found.len() * HANDLE_SIZE
                &&& if *old(buf_sz) < found.len() * HANDLE_SIZE {
                    status.0 == BUFFER_TOO_SMALL && final(buf)@ == old(buf)@
                } else {
                    status.0 == SUCCESS && final(buf)@ == found
                }
            }),
    {
        let matched = self.find_handles_impl(search_ty, proto);
        proof {
            lemma_selected_len(self.db(), search_ty, proto, self.db().len() as int);
        }
        let available_size_in_bytes = *buf_sz;
        let size_in_bytes = matched.len() * HANDLE_SIZE;
        *buf_sz = size_in_bytes;
        if available_size_in_bytes < size_in_bytes {
            return Status(BUFFER_TOO_SMALL);
        }
        *buf = matched;
        Status(SUCCESS)
    }

    /// Returns in `buf` the handles that a search selects, and their number
    /// in `*no_handles`.
    pub fn locate_handle_buffer(
        &self,
        search_ty: i32,
        proto: Option<Guid>,
        no_handles: &mut usize,
        buf: &mut Vec<Handle>,
    ) -> (status: Status)
        requires
            search_ty == 0 || (search_ty == 2 && proto.is_some()),
        ensures
            status.0 == SUCCESS,
            final(buf)@ == selected_handles(self.db(), search_ty, proto, self.db().len() as int),
            *final(no_handles) == final(buf)@.len(),
    {
        let matched = self.find_handles_impl(search_ty, proto);
        *no_handles = matched.len();
        *buf = matched;
        Status(SUCCESS)
    }

    /// Stores in `*out_proto` the interface of the protocol with GUID `proto`
    /// on the first handle that has it. Fails with `NOT_FOUND`, leaving
    /// `*out_proto` alone, if no handle has it.
    pub fn locate_protocol(&self, proto: &Guid, out_proto: &mut usize) -> (status: Status)
        requires
            self.wf(),
        ensures
            match first_with(self.db(), *proto, self.db().len() as int) {
                Some(k) => status.0 == SUCCESS && interface_in(
                    self.db()[k],
                    *proto,
                    *final(out_proto),
                ),
                None => status.0 == NOT_FOUND && *final(out_proto) == *old(out_proto),
            },
    {
        let mut i: usize = 0;
        while i < self.handle_db.len()
            invariant
                i <= self.db().len(),
                self.db().len() == self.handle_db@.len(),
                first_with(self.db(), *proto, i as int) is None,
                *out_proto == *old(out_proto),
            decreases self.db().len() - i,
        {
            assert(self.db()[i as int] == self.handle_db@[i as int].protocols@);
            match self.handle_db[i].find_protocol(proto) {
                Some(j) => {
                    *out_proto = self.handle_db[i].protocols[j].interface;
                    proof {
                        lemma_first_with_extend(self.db(), *proto, i as int);
                    }
                    return Status(SUCCESS);
                },
                None => {},
            }
            proof {
                lemma_first_with_extend(self.db(), *proto, i as int);
            }
            i = i + 1;
        }
        Status(NOT_FOUND)
    }

    /// Stores in `*out_handle` the first handle that has both a device path
    /// and the protocol `proto`. Fails with `NOT_FOUND`, leaving
    /// `*out_handle` alone, if no handle has both.
    pub fn locate_device_path(&self, proto: &Guid, out_handle: &mut Handle) -> (status: Status)
        requires
            self.wf(),
        ensures
            match first_with_both(self.db(), Guid(DEVICE_PATH), *proto, self.db().len() as int) {
                Some(k) => status.0 == SUCCESS && *final(out_handle) == Handle((k + 1) as usize),
                None => status.0 == NOT_FOUND && *final(out_handle) == *old(out_handle),
            },
    {
        let device_path = Guid(DEVICE_PATH);
        let mut i: usize = 0;
        while i < self.handle_db.len()
            invariant
                i <= self.db().len(),
                self.db().len() == self.handle_db@.len(),
                device_path == Guid(DEVICE_PATH),
                first_with_both(self.db(), device_path, *proto, i as int) is None,
                *out_handle == *old(out_handle),
            decreases self.db().len() - i,
        {
            assert(self.db()[i as int] == self.handle_db@[i as int].protocols@);
            if self.handle_db[i].has_protocol(&device_path) && self.handle_db[i].has_protocol(proto) {
                *out_handle = Handle(i + 1);
                proof {
                    lemma_first_with_both_stable(self.db(), device_path, *proto, i as int, self.db().len() as int);
                }
                return Status(SUCCESS);
            }
            i = i + 1;
        }
        Status(NOT_FOUND)
    }

    /// Returns in `protocol_buffer` the GUIDs of the protocols on `handle`,
    /// in the order they were installed, and their number in
    /// `*protocol_buffer_count`. Fails with `INVALID_PARAMETER`, changing
    /// nothing, if the handle names no entry.
    pub fn protocols_per_handle(
        &self,
        handle: Handle,
        protocol_buffer: &mut Vec<Guid>,
        protocol_buffer_count: &mut usize,
    ) -> (status: Status)
        ensures
            if self.valid_handle(handle) {
                &&& status.0 == SUCCESS
                &&& final(protocol_buffer)@ == self.protocols(handle).map_values(
                    |p: ProtocolWrapper| p.guid,
                )
                &&& *final(protocol_buffer_count) == self.protocols(handle).len()
            } else {
                &&& status.0 == INVALID_PARAMETER
                &&& final(protocol_buffer)@ == old(protocol_buffer)@
                &&& *final(protocol_buffer_count) == *old(protocol_buffer_count)
            },
    {
        let idx = match self.find_handle_index(handle) {
            Some(idx) => idx,
            None => {
                return Status(INVALID_PARAMETER);
            },
        };
        let ps = &self.handle_db[idx].protocols;
        assert(ps@ == self.protocols(handle));
        let mut guids: Vec<Guid> = Vec::new();
        let mut i: usize = 0;
        while i < ps.len()
            invariant
                i <= ps@.len(),
                guids@ == ps@.subrange(0, i as int).map_values(|p: ProtocolWrapper| p.guid),
            decreases ps@.len() - i,
        {
            guids.push(ps[i].guid);
            i = i + 1;
            assert(guids@ =~= ps@.subrange(0, i as int).map_values(|p: ProtocolWrapper| p.guid));
        }
        assert(ps@.subrange(0, ps@.len() as int) =~= ps@);
        *protocol_buffer_count = guids.len();
        *protocol_buffer = guids;
        Status(SUCCESS)
    }

    /// Writes the memory map into `map` if `*size` bytes can hold it;
    /// `*size` is set to the size it takes and `*desc_size` to the size of
    /// one descriptor. Fails with `BUFFER_TOO_SMALL`, leaving `map` alone,
    /// if it does not fit.
    pub fn get_memory_map(
        &self,
        size: &mut usize,
        map: &mut Vec<MemoryDescriptor>,
        desc_size: &mut usize,
    ) -> (status: Status)
        requires
            self.wf(),
        ensures
            *final(size) == self.memory_map().len() * MEMORY_DESCRIPTOR_SIZE,
            *final(desc_size) == MEMORY_DESCRIPTOR_SIZE,
            if *old(size) < self.memory_map().len() * MEMORY_DESCRIPTOR_SIZE {
                status.0 == BUFFER_TOO_SMALL && final(map)@ == old(map)@
            } else {
                status.0 == SUCCESS && final(map)@ == self.memory_map()
            },
    {
        let current_size = *size;
        let required_size = self.memory_descriptors.len() * MEMORY_DESCRIPTOR_SIZE;
        *size = required_size;
        *desc_size = MEMORY_DESCRIPTOR_SIZE;
        if current_size < required_size {
            return Status(BUFFER_TOO_SMALL);
        }
        *map = self.memory_descriptors.clone();
        Status(SUCCESS)
    }

    /// Creates an event and stores its handle, its position counted from
    /// one, in `*out_event`.
    pub fn create_event(
        &mut self,
        ty: u32,
        notify_tpl: usize,
        has_notify: bool,
        notify_ctx: usize,
        out_event: &mut usize,
    ) -> (status: Status)
        requires
            old(self).wf(),
            old(self).events().len() + 1 <= usize::MAX,
        ensures
            final(self).wf(),
            status.0 == SUCCESS,
            final(self).db() == old(self).db(),
            final(self).memory_map() == old(self).memory_map(),
            final(self).objects() == old(self).objects(),
            final(self).configuration() == old(self).configuration(),
            final(self).events() == old(self).events().push(
                EventImpl { ty, has_notify, notify_ctx },
            ),
            *final(out_event) == final(self).events().len(),
    {
        self.events.push(EventImpl { ty, has_notify, notify_ctx });
        *out_event = self.events.len();
        Status(SUCCESS)
    }

    /// Checks an event of type `EVT_NOTIFY_WAIT`: its notification
    /// function, if it has one, is to be called with its context. Only such
    /// events can be checked.
    pub fn check_event(&self, event: usize) -> (r: (Status, CheckEventAction))
        requires
            1 <= event <= self.events().len(),
            self.events()[event - 1].ty == EVT_NOTIFY_WAIT,
        ensures
            r.0.0 == SUCCESS,
            r.1 == if self.events()[event - 1].has_notify {
                CheckEventAction::Notify { ctx: self.events()[event - 1].notify_ctx }
            } else {
                CheckEventAction::Nothing
            },
    {
        let e = self.events[event - 1];
        let action = if e.has_notify {
            CheckEventAction::Notify { ctx: e.notify_ctx }
        } else {
            CheckEventAction::Nothing
        };
        (Status(SUCCESS), action)
    }

    /// Adds an entry to the configuration table.
    pub fn install_configuration_table(&mut self, guid_entry: &Guid, table: usize) -> (status: Status)
        requires
            old(self).wf(),
        ensures
            final(self).wf(),
            status.0 == SUCCESS,
            final(self).db() == old(self).db(),
            final(self).events() == old(self).events(),
            final(self).memory_map() == old(self).memory_map(),
            final(self).objects() == old(self).objects(),
            final(self).configuration() == old(self).configuration().push(
                ConfigurationTable { vendor_guid: *guid_entry, vendor_table: table },
            ),
    {
        self.configuration_tables.push(ConfigurationTable { vendor_guid: *guid_entry, vendor_table: table });
        Status(SUCCESS)
    }

    /// Installs a protocol interface on a handle, or on a new handle when
    /// `*in_out_handle` is `None`; the new handle is then stored there.
    ///
    /// Fails with `INVALID_PARAMETER`, changing nothing, when the interface
    /// type is not native, when the handle names no entry, or when the
    /// handle already has a protocol with this GUID.
    pub fn install_protocol_interface(
        &mut self,
        in_out_handle: &mut Option<Handle>,
        guid: &Guid,
        interface_type: u32,
        interface: usize,
    ) -> (status: Status)
        requires
            old(self).wf(),
            interface_type == NATIVE_INTERFACE && old(in_out_handle).is_none()
                ==> old(self).room_for_handle(),
        ensures
            final(self).wf(),
            final(self).events() == old(self).events(),
            final(self).memory_map() == old(self).memory_map(),
            final(self).objects() == old(self).objects(),
            final(self).configuration() == old(self).configuration(),
            ({
                let pw = ProtocolWrapper { guid: *guid, interface, in_use: false };
                if interface_type != NATIVE_INTERFACE {
                    status.0 == INVALID_PARAMETER && final(self).db() == old(self).db()
                        && *final(in_out_handle) == *old(in_out_handle)
                } else {
                    match *old(in_out_handle) {
                        None => {
                            &&& status.0 == SUCCESS
                            &&& final(self).db() == old(self).db().push(seq![pw])
                            &&& *final(in_out_handle) == Some(Handle((old(self).db().len() + 1) as usize))
                        },
                        Some(h) => {
                            &&& *final(in_out_handle) == *old(in_out_handle)
                            &&& if !old(self).valid_handle(h) || holds_protocol(
                                old(self).protocols(h),
                                *guid,
                            ) {
                                status.0 == INVALID_PARAMETER && final(self).db() == old(self).db()
                            } else {
                                status.0 == SUCCESS && final(self).db() == old(self).db().update(
                                    h.0 - 1,
                                    old(self).protocols(h).push(pw),
                                )
                            }
                        },
                    }
                }
            }),
    {
        if interface_type != NATIVE_INTERFACE {
            return Status(INVALID_PARAMETER);
        }
        let pw = ProtocolWrapper { guid: *guid, interface, in_use: false };
        match *in_out_handle {
            None => {
                let mut protocols = Vec::new();
                protocols.push(pw);
                let ghost old_db = self.db();
                self.handle_db.push(HandleImpl { protocols });
                *in_out_handle = Some(Handle(self.handle_db.len()));
                assert(self.db() =~= old_db.push(seq![pw]));
                Status(SUCCESS)
            },
            Some(h) => {
                let idx = match self.find_handle_index(h) {
                    Some(idx) => idx,
                    None => {
                        return Status(INVALID_PARAMETER);
                    },
                };
                if self.handle_db[idx].has_protocol(guid) {
                    return Status(INVALID_PARAMETER);
                }
                let ghost old_db = self.db();
                let ghost old_ps = self.handle_db@[idx as int].protocols@;
                let mut entry = HandleImpl { protocols: Vec::new() };
                core::mem::swap(&mut entry, &mut self.handle_db[idx]);
                entry.protocols.push(pw);
                core::mem::swap(&mut entry, &mut self.handle_db[idx]);
                assert(self.db() =~= old_db.update(idx as int, old_ps.push(pw)));
                assert(distinct_guids(old_ps.push(pw))) by {
                    assert(distinct_guids(old_db[idx as int]));
                }
                Status(SUCCESS)
            },
        }
    }
}

/// Opening a closed protocol and then closing it gives back the handle's
/// protocols as they were.
pub proof fn lemma_open_close_roundtrip(ps: Seq<ProtocolWrapper>, guid: Guid)
    requires
        distinct_guids(ps),
        holds_protocol(ps, guid),
        !open_in(ps, guid),
    ensures
        set_in_use(set_in_use(ps, guid, true), guid, false) == ps,
{
    assert(set_in_use(set_in_use(ps, guid, true), guid, false) =~= ps) by {
        assert forall|i: int| 0 <= i < ps.len() implies #[trigger] set_in_use(
            set_in_use(ps, guid, true),
            guid,
            false,
        )[i] == ps[i] by {
            if ps[i].guid == guid {
                assert(!ps[i].in_use);
            }
        }
    }
}

/// Opening a protocol leaves it open, and the handle still has the same
/// GUIDs in the same order.
pub proof fn lemma_open_marks_in_use(ps: Seq<ProtocolWrapper>, guid: Guid)
    requires
        holds_protocol(ps, guid),
    ensures
        open_in(set_in_use(ps, guid, true), guid),
        set_in_use(ps, guid, true).map_values(|p: ProtocolWrapper| p.guid) =~= ps.map_values(
            |p: ProtocolWrapper| p.guid,
        ),
{
    let i = choose|i: int| 0 <= i < ps.len() && ps[i].guid == guid;
    assert(set_in_use(ps, guid, true)[i].in_use);
}

/// Searching for all handles selects every handle, in order.
pub proof fn lemma_all_handles(db: Seq<Seq<ProtocolWrapper>>, proto: Option<Guid>, n: int)
    requires
        0 <= n <= db.len(),
        db.len() <= usize::MAX,
    ensures
        selected_handles(db, 0, proto, n) =~= Seq::new(n as nat, |i: int| Handle((i + 1) as usize)),
    decreases n,
{
    if n > 0 {
        lemma_all_handles(db, proto, n - 1);
    }
}

/// A protocol installed on a new handle is found by a search for it: the
/// new handle is the last one the search selects.
pub proof fn lemma_installed_is_found(db: Seq<Seq<ProtocolWrapper>>, pw: ProtocolWrapper)
    requires
        db.len() < usize::MAX,
    ensures
        ({
            let db2 = db.push(seq![pw]);
            let found = selected_handles(db2, 2, Some(pw.guid), db2.len() as int);
            found.len() > 0 && found.last() == Handle((db.len() + 1) as usize)
        }),
{
    let db2 = db.push(seq![pw]);
    assert(db2[db.len() as int] == seq![pw]);
    assert(holds_protocol(seq![pw], pw.guid)) by {
        assert(seq![pw][0].guid == pw.guid);
    }
}

/// A search by protocol selects exactly the handles that have the protocol.
pub proof fn lemma_search_by_protocol(db: Seq<Seq<ProtocolWrapper>>, guid: Guid, n: int, h: Handle)
    requires
        0 <= n <= db.len(),
        db.len() <= usize::MAX,
    ensures
        selected_handles(db, 2, Some(guid), n).contains(h) <==> (1 <= h.0 <= n && holds_protocol(
            db[h.0 - 1],
            guid,
        )),
    decreases n,
{
    if n > 0 {
        lemma_search_by_protocol(db, guid, n - 1, h);
        let prev = selected_handles(db, 2, Some(guid), n - 1);
        let x = Handle(n as usize);
        if holds_protocol(db[n - 1], guid) {
            let grown = prev.push(x);
            if grown.contains(h) {
                let k = choose|k: int| 0 <= k < grown.len() && #[trigger] grown[k] == h;
                if k < prev.len() {
                    assert(prev[k] == h);
                }
            }
            if prev.contains(h) {
                let k = choose|k: int| 0 <= k < prev.len() && #[trigger] prev[k] == h;
                assert(grown[k] == h);
            }
            if h == x {
                assert(grown[prev.len() as int] == h);
            }
        }
    }
}

} // verus!
