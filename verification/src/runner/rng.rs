//! The runner's check of the random number generator.

use crate::boot_services::{holds_protocol, interface_in, open_in, Handle, State};
use crate::firmware::Object;
use crate::guid::{Guid, RNG};
use crate::rng::Rng;
use vstd::prelude::*;

verus! {

/// The attribute with which a protocol is opened for exclusive use.
pub const OPEN_EXCLUSIVE: u32 = 0x20;

/// The firmware is ready for the check: some handle has a random number
/// generator, and every generator is closed and refers to the stub's.
pub open spec fn rng_ready(s: State) -> bool {
    &&& s.wf()
    &&& exists|k: int| 0 <= k < s.db().len() && #[trigger] holds_protocol(s.db()[k], Guid(RNG))
    &&& forall|k: int|
        0 <= k < s.db().len() && #[trigger] holds_protocol(s.db()[k], Guid(RNG)) ==> !open_in(
            s.db()[k],
            Guid(RNG),
        )
    &&& forall|k: int, iface: usize|
        0 <= k < s.db().len() && #[trigger] interface_in(s.db()[k], Guid(RNG), iface) ==> 1 <= iface
            <= s.objects().len() && s.objects()[iface - 1] is Rng
}

/// Opens the first random number generator, asks it for its algorithms,
/// and fills four bytes with random numbers from the first; they are not
/// all zero. The generator is closed again afterwards.
pub fn test(bt: &mut State)
    requires
        rng_ready(*old(bt)),
    ensures
        final(bt).db() == old(bt).db(),
        final(bt).objects() == old(bt).objects(),
        final(bt).events() == old(bt).events(),
{
    let ghost db0 = bt.db();
    let mut handles: Vec<Handle> = Vec::new();
    let mut no_handles: usize = 0;
    bt.locate_handle_buffer(2, Some(Guid(RNG)), &mut no_handles, &mut handles);
    proof {
        let k = choose|k: int| 0 <= k < db0.len() && #[trigger] holds_protocol(db0[k], Guid(RNG));
        crate::boot_services::lemma_search_by_protocol(db0, Guid(RNG), db0.len() as int, Handle((k + 1) as usize));
        assert(handles@.len() > 0);
        crate::boot_services::lemma_search_by_protocol(db0, Guid(RNG), db0.len() as int, handles@[0]);
        assert(handles@.contains(handles@[0]));
    }
    let handle = handles[0];
    let mut iface: usize = 0;
    bt.open_protocol(handle, &Guid(RNG), &mut iface, handle, Handle(0), OPEN_EXCLUSIVE);
    assert(interface_in(db0[handle.0 - 1], Guid(RNG), iface));
    match bt.object(iface) {
        Object::Rng => {},
        _ => {
            assert(false);
        },
    }

    let mut rng = Rng;
    let mut list: Vec<Guid> = vec![Guid(0), Guid(0), Guid(0), Guid(0)];
    let _ = rng.get_info(&mut list);
    let mut buf: Vec<u8> = vec![0, 0, 0, 0];
    let _ = rng.get_rng(Some(list[0]), &mut buf);
    assert(buf@ != seq![0u8, 0u8, 0u8, 0u8]) by {
        assert(buf@[0] == 1);
    }

    proof {
        crate::boot_services::lemma_open_close_roundtrip(db0[handle.0 - 1], Guid(RNG));
    }
    bt.close_protocol(handle, &Guid(RNG), handle, Handle(0));
    assert(bt.db() =~= db0);
}

} // verus!
