//! The registry of the devices that this device knows: at most one device
//! under each id, in no particular order.

use super::mdns::{device_views, DeviceInfo, DeviceInfoView};
use crate::text::{join2, same_text};
use crate::{Error, ErrorView};
use vstd::prelude::*;
use vstd::string::*;

verus! {

/// No two devices of the sequence share an id.
pub open spec fn distinct_ids(devices: Seq<DeviceInfoView>) -> bool {
    forall|i: int, j: int|
        0 <= i < j < devices.len() ==> (#[trigger] devices[i]).id != (#[trigger] devices[j]).id
}

/// Whether a device with the id `id` is in the sequence.
pub open spec fn has_id(devices: Seq<DeviceInfoView>, id: Seq<char>) -> bool {
    exists|i: int| 0 <= i < devices.len() && (#[trigger] devices[i]).id == id
}

/// The position of the device with the id `id`.
pub open spec fn position_of(devices: Seq<DeviceInfoView>, id: Seq<char>) -> int {
    choose|i: int| 0 <= i < devices.len() && (#[trigger] devices[i]).id == id
}

/// The registry that a sequence of devices stands for: each device under its
/// id.
pub open spec fn registry_of(devices: Seq<DeviceInfoView>) -> Map<Seq<char>, DeviceInfoView> {
    Map::new(|id: Seq<char>| has_id(devices, id), |id: Seq<char>| devices[position_of(devices, id)])
}

/// Each device of a sequence without repeated ids is in the registry, under
/// its id.
pub proof fn lemma_registry_holds(devices: Seq<DeviceInfoView>, i: int)
    requires
        distinct_ids(devices),
        0 <= i < devices.len(),
    ensures
        registry_of(devices).contains_pair(devices[i].id, devices[i]),
{
    let id = devices[i].id;
    assert(has_id(devices, id));
    let p = position_of(devices, id);
    assert(p == i);
}

pub open spec fn not_found_message(id: Seq<char>) -> Seq<char> {
    "Device not found: "@ + id
}

/// A registry with `d` put in under its id, in place of what was there.
pub open spec fn add_spec(
    registry: Map<Seq<char>, DeviceInfoView>,
    d: DeviceInfoView,
) -> Map<Seq<char>, DeviceInfoView> {
    registry.insert(d.id, d)
}

/// A registry without the device `id`; an error where it holds none.
pub open spec fn remove_spec(registry: Map<Seq<char>, DeviceInfoView>, id: Seq<char>) -> Result<
    Map<Seq<char>, DeviceInfoView>,
    ErrorView,
> {
    if registry.dom().contains(id) {
        Ok(registry.remove(id))
    } else {
        Err(ErrorView::NotFound(not_found_message(id)))
    }
}

/// A registry with the device `d.id` described anew; an error where it holds
/// none.
pub open spec fn update_spec(
    registry: Map<Seq<char>, DeviceInfoView>,
    d: DeviceInfoView,
) -> Result<Map<Seq<char>, DeviceInfoView>, ErrorView> {
    if registry.dom().contains(d.id) {
        Ok(registry.insert(d.id, d))
    } else {
        Err(ErrorView::NotFound(not_found_message(d.id)))
    }
}

/// Whether a snapshot lists a registry: every device of the registry once, and
/// nothing else.
pub open spec fn lists(
    snapshot: Seq<DeviceInfoView>,
    registry: Map<Seq<char>, DeviceInfoView>,
) -> bool {
    distinct_ids(snapshot) && registry_of(snapshot) == registry
}

/// The registry after an operation that may fail: the new one, or the old one
/// where the operation failed.
pub open spec fn registry_after(
    before: Map<Seq<char>, DeviceInfoView>,
    outcome: Result<Map<Seq<char>, DeviceInfoView>, ErrorView>,
) -> Map<Seq<char>, DeviceInfoView> {
    match outcome {
        Ok(after) => after,
        Err(_) => before,
    }
}

/// The value of the result of an operation on the registry that has left the
/// registry as `after`.
pub open spec fn registry_result(
    after: Map<Seq<char>, DeviceInfoView>,
    r: Result<(), Error>,
) -> Result<Map<Seq<char>, DeviceInfoView>, ErrorView> {
    match r {
        Ok(_) => Ok(after),
        Err(e) => Err(e@),
    }
}

/// The devices that this device knows, at most one under each id.
pub struct DeviceRegistry {
    devices: Vec<DeviceInfo>,
}

impl View for DeviceRegistry {
    type V = Map<Seq<char>, DeviceInfoView>;

    closed spec fn view(&self) -> Map<Seq<char>, DeviceInfoView> {
        registry_of(device_views(self.devices@))
    }
}

impl DeviceRegistry {
    #[verifier::type_invariant]
    spec fn no_id_twice(self) -> bool {
        distinct_ids(device_views(self.devices@))
    }

    /// A registry that holds no device.
    pub fn new() -> (r: DeviceRegistry)
        ensures
            r@ == Map::<Seq<char>, DeviceInfoView>::empty(),
    {
        let r = DeviceRegistry { devices: Vec::new() };
        assert(r@ =~= Map::<Seq<char>, DeviceInfoView>::empty());
        r
    }

    /// Hands out the devices and leaves the registry empty.
    fn take_devices(&mut self) -> (devices: Vec<DeviceInfo>)
        ensures
            devices@ == old(self).devices@,
            final(self).devices@.len() == 0,
    {
        let mut taken = DeviceRegistry { devices: Vec::new() };
        core::mem::swap(self, &mut taken);
        taken.devices
    }

    /// Where the device `id` stands, if it is there.
    fn find(&self, id: &str) -> (found: Option<usize>)
        ensures
            match found {
                Some(i) => i < self.devices@.len() && self.devices@[i as int].id@ == id@,
                None => !has_id(device_views(self.devices@), id@),
            },
    {
        let mut i: usize = 0;
        while i < self.devices.len()
            invariant
                i <= self.devices@.len(),
                forall|k: int| 0 <= k < i ==> (#[trigger] self.devices@[k]).id@ != id@,
            decreases self.devices@.len() - i,
        {
            if same_text(self.devices[i].id.as_str(), id) {
                return Some(i);
            }
            i = i + 1;
        }
        assert forall|k: int| 0 <= k < device_views(self.devices@).len() implies (
        #[trigger] device_views(self.devices@)[k]).id != id@ by {
            assert(device_views(self.devices@)[k] == self.devices@[k]@);
        }
        None
    }

    /// Whether the registry holds a device under `id`.
    pub fn contains(&self, id: &str) -> (r: bool)
        ensures
            r == self@.dom().contains(id@),
    {
        let found = self.find(id);
        proof {
            if let Some(i) = found {
                assert(device_views(self.devices@)[i as int] == self.devices@[i as int]@);
            }
        }
        found.is_some()
    }

    /// How many devices the registry holds.
    pub fn len(&self) -> (n: usize)
        ensures
            n == self@.dom().len(),
            self@.dom().finite(),
    {
        proof {
            use_type_invariant(self);
            lemma_registry_size(device_views(self.devices@));
        }
        self.devices.len()
    }

    /// Puts `device` in under its id, in place of the device that was there
    /// under that id, if any.
    pub fn add_device(&mut self, device: DeviceInfo)
        ensures
            final(self)@ == add_spec(old(self)@, device@),
    {
        proof {
            use_type_invariant(&*self);
        }
        let ghost before = device_views(self.devices@);
        let found = self.find(device.id.as_str());
        let mut devices = self.take_devices();
        match found {
            Some(i) => {
                devices.remove(i);
                assert(device_views(devices@) =~= before.remove(i as int));
                devices.push(device);
                assert(device_views(devices@) =~= before.remove(i as int).push(device@));
                proof {
                    lemma_replace(before, i as int, device@);
                }
            },
            None => {
                devices.push(device);
                assert(device_views(devices@) =~= before.push(device@));
                proof {
                    lemma_push(before, device@);
                }
            },
        }
        *self = DeviceRegistry { devices };
    }

    /// Takes the device `id` out; fails where the registry holds none.
    pub fn remove_device(&mut self, id: &str) -> (r: Result<(), Error>)
        ensures
            registry_result(final(self)@, r) == remove_spec(old(self)@, id@),
            r is Err ==> final(self)@ == old(self)@,
    {
        proof {
            use_type_invariant(&*self);
        }
        let ghost before = device_views(self.devices@);
        match self.find(id) {
            Some(i) => {
                let mut devices = self.take_devices();
                devices.remove(i);
                assert(device_views(devices@) =~= before.remove(i as int));
                proof {
                    assert(before[i as int].id == id@);
                    lemma_remove(before, i as int);
                    lemma_registry_holds(before, i as int);
                }
                *self = DeviceRegistry { devices };
                Ok(())
            },
            None => Err(Error::NotFound(join2("Device not found: ", id))),
        }
    }

    /// Describes the device `device.id` anew; fails where the registry holds
    /// none under that id.
    pub fn update_device(&mut self, device: DeviceInfo) -> (r: Result<(), Error>)
        ensures
            registry_result(final(self)@, r) == update_spec(old(self)@, device@),
            r is Err ==> final(self)@ == old(self)@,
    {
        proof {
            use_type_invariant(&*self);
        }
        let ghost before = device_views(self.devices@);
        match self.find(device.id.as_str()) {
            Some(i) => {
                let mut devices = self.take_devices();
                devices.remove(i);
                assert(device_views(devices@) =~= before.remove(i as int));
                devices.push(device);
                assert(device_views(devices@) =~= before.remove(i as int).push(device@));
                proof {
                    assert(before[i as int].id == device@.id);
                    lemma_replace(before, i as int, device@);
                    lemma_registry_holds(before, i as int);
                }
                *self = DeviceRegistry { devices };
                Ok(())
            },
            None => Err(Error::NotFound(join2("Device not found: ", device.id.as_str()))),
        }
    }

    /// A copy of every device in the registry, in no particular order.
    pub fn get_devices(&self) -> (snapshot: Vec<DeviceInfo>)
        ensures
            lists(device_views(snapshot@), self@),
            snapshot@.len() == self@.dom().len(),
    {
        proof {
            use_type_invariant(self);
            lemma_registry_size(device_views(self.devices@));
        }
        let mut snapshot: Vec<DeviceInfo> = Vec::new();
        let mut i: usize = 0;
        while i < self.devices.len()
            invariant
                i <= self.devices@.len(),
                snapshot@.len() == i,
                forall|k: int| 0 <= k < i ==> (#[trigger] snapshot@[k])@ == self.devices@[k]@,
            decreases self.devices@.len() - i,
        {
            snapshot.push(self.devices[i].duplicate());
            i = i + 1;
        }
        assert(device_views(snapshot@) =~= device_views(self.devices@));
        snapshot
    }

    /// Forgets every device.
    pub fn clear(&mut self)
        ensures
            final(self)@ == Map::<Seq<char>, DeviceInfoView>::empty(),
    {
        *self = DeviceRegistry { devices: Vec::new() };
        assert(self@ =~= Map::<Seq<char>, DeviceInfoView>::empty());
    }
}

/// A sequence without repeated ids stands for a registry of as many devices.
pub proof fn lemma_registry_size(devices: Seq<DeviceInfoView>)
    requires
        distinct_ids(devices),
    ensures
        registry_of(devices).dom().finite(),
        registry_of(devices).dom().len() == devices.len(),
    decreases devices.len(),
{
    if devices.len() == 0 {
        assert(registry_of(devices).dom() =~= Set::<Seq<char>>::empty());
    } else {
        let rest = devices.drop_last();
        let last = devices.last();
        lemma_registry_size(rest);
        assert(devices =~= rest.push(last));
        lemma_push(rest, last);
        assert(!has_id(rest, last.id));
        assert(registry_of(devices).dom() =~= registry_of(rest).dom().insert(last.id));
    }
}

/// Appending a device whose id is new puts it into the registry.
pub proof fn lemma_push(devices: Seq<DeviceInfoView>, d: DeviceInfoView)
    requires
        distinct_ids(devices),
        !has_id(devices, d.id),
    ensures
        distinct_ids(devices.push(d)),
        registry_of(devices.push(d)) == registry_of(devices).insert(d.id, d),
{
    let after = devices.push(d);
    assert forall|i: int, j: int| 0 <= i < j < after.len() implies (#[trigger] after[i]).id != (
    #[trigger] after[j]).id by {
        if j == devices.len() {
            assert(after[i] == devices[i]);
        } else {
            assert(after[i] == devices[i] && after[j] == devices[j]);
        }
    }
    assert forall|id: Seq<char>| #[trigger]
        registry_of(after).dom().contains(id) == registry_of(devices).insert(
            d.id,
            d,
        ).dom().contains(id) by {
        if has_id(devices, id) {
            let i = position_of(devices, id);
            assert(after[i].id == id);
        }
        if has_id(after, id) && id != d.id {
            let i = position_of(after, id);
            assert(devices[i].id == id);
        }
        assert(after[devices.len() as int].id == d.id);
    }
    assert forall|id: Seq<char>| #[trigger]
        registry_of(after).dom().contains(id) implies registry_of(after)[id] == registry_of(
        devices,
    ).insert(d.id, d)[id] by {
        let i = position_of(after, id);
        lemma_registry_holds(after, i);
        if i < devices.len() {
            assert(after[i] == devices[i]);
            lemma_registry_holds(devices, i);
        }
    }
    assert(registry_of(after) =~= registry_of(devices).insert(d.id, d));
}

/// Taking a device out of the sequence takes it out of the registry.
pub proof fn lemma_remove(devices: Seq<DeviceInfoView>, i: int)
    requires
        distinct_ids(devices),
        0 <= i < devices.len(),
    ensures
        distinct_ids(devices.remove(i)),
        !has_id(devices.remove(i), devices[i].id),
        registry_of(devices.remove(i)) == registry_of(devices).remove(devices[i].id),
{
    let after = devices.remove(i);
    let gone = devices[i].id;
    assert forall|a: int| 0 <= a < after.len() implies (#[trigger] after[a]) == devices[if a < i {
        a
    } else {
        a + 1
    }] by {}
    assert forall|a: int, b: int| 0 <= a < b < after.len() implies (#[trigger] after[a]).id != (
    #[trigger] after[b]).id by {
        let a2 = if a < i { a } else { a + 1 };
        let b2 = if b < i { b } else { b + 1 };
        assert(after[a] == devices[a2] && after[b] == devices[b2]);
    }
    assert(!has_id(after, gone)) by {
        if has_id(after, gone) {
            let a = position_of(after, gone);
            let a2 = if a < i { a } else { a + 1 };
            assert(after[a] == devices[a2]);
            assert(devices[a2].id == devices[i].id);
        }
    }
    assert forall|id: Seq<char>| #[trigger]
        registry_of(after).dom().contains(id) == registry_of(devices).remove(gone).dom().contains(
            id,
        ) by {
        if has_id(after, id) {
            let a = position_of(after, id);
            let a2 = if a < i { a } else { a + 1 };
            assert(after[a] == devices[a2]);
            assert(devices[a2].id == id);
        }
        if has_id(devices, id) && id != gone {
            let p = position_of(devices, id);
            let p2 = if p < i { p } else { p - 1 };
            assert(after[p2] == devices[p]);
            assert(after[p2].id == id);
        }
    }
    assert forall|id: Seq<char>| #[trigger]
        registry_of(after).dom().contains(id) implies registry_of(after)[id] == registry_of(
        devices,
    ).remove(gone)[id] by {
        let a = position_of(after, id);
        let a2 = if a < i { a } else { a + 1 };
        assert(after[a] == devices[a2]);
        lemma_registry_holds(after, a);
        lemma_registry_holds(devices, a2);
    }
    assert(registry_of(after) =~= registry_of(devices).remove(gone));
}

/// Taking out the device under an id and appending another under the same id
/// replaces the entry in the registry.
pub proof fn lemma_replace(devices: Seq<DeviceInfoView>, i: int, d: DeviceInfoView)
    requires
        distinct_ids(devices),
        0 <= i < devices.len(),
        devices[i].id == d.id,
    ensures
        distinct_ids(devices.remove(i).push(d)),
        registry_of(devices.remove(i).push(d)) == registry_of(devices).insert(d.id, d),
{
    lemma_remove(devices, i);
    lemma_push(devices.remove(i), d);
    assert(registry_of(devices).remove(d.id).insert(d.id, d) =~= registry_of(devices).insert(
        d.id,
        d,
    ));
}

/// A device that was just put into a registry is in every listing of it.
pub proof fn lemma_added_device_is_listed(
    registry: Map<Seq<char>, DeviceInfoView>,
    d: DeviceInfoView,
    snapshot: Seq<DeviceInfoView>,
)
    requires
        lists(snapshot, add_spec(registry, d)),
    ensures
        snapshot.contains(d),
{
    assert(registry_of(snapshot).dom().contains(d.id));
    assert(registry_of(snapshot)[d.id] == d);
    assert(has_id(snapshot, d.id));
    let p = position_of(snapshot, d.id);
    assert(registry_of(snapshot)[d.id] == snapshot[p]);
}

/// A device that was just taken out of a registry is in no listing of it, and
/// neither is any other device under its id.
pub proof fn lemma_removed_device_is_not_listed(
    registry: Map<Seq<char>, DeviceInfoView>,
    d: DeviceInfoView,
    snapshot: Seq<DeviceInfoView>,
)
    requires
        registry.dom().contains(d.id),
        lists(snapshot, registry_after(registry, remove_spec(registry, d.id))),
    ensures
        remove_spec(registry, d.id) is Ok,
        !has_id(snapshot, d.id),
        !snapshot.contains(d),
{
    assert(!registry_of(snapshot).dom().contains(d.id));
    if snapshot.contains(d) {
        let i = choose|i: int| 0 <= i < snapshot.len() && snapshot[i] == d;
        assert(snapshot[i].id == d.id);
    }
}

/// Taking out a device that a registry does not hold fails and says which
/// device was asked for.
pub proof fn lemma_remove_unknown_fails(registry: Map<Seq<char>, DeviceInfoView>, id: Seq<char>)
    requires
        !registry.dom().contains(id),
    ensures
        remove_spec(registry, id) == Err::<Map<Seq<char>, DeviceInfoView>, ErrorView>(
            ErrorView::NotFound(not_found_message(id)),
        ),
        registry_after(registry, remove_spec(registry, id)) == registry,
{
}

} // verus!
