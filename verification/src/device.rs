use vstd::prelude::*;
use vstd::string::*;
use crate::text::same_text;
use crate::store::StoreError;

verus! {

/// What a client posts to register or rename a device.
pub struct DevicePost {
    pub caption: String,
    pub kind: String,
}

/// A device of an identity. `id` is absent until the row is stored.
pub struct Device {
    pub id: Option<i32>,
    pub deviceid: String,
    pub kind: String,
    pub name: String,
    pub username: String,
}

/// A device as plain values.
pub struct DeviceModel {
    pub id: Option<int>,
    pub deviceid: Seq<char>,
    pub kind: Seq<char>,
    pub name: Seq<char>,
    pub username: Seq<char>,
}

impl View for Device {
    type V = DeviceModel;

    open spec fn view(&self) -> DeviceModel {
        DeviceModel {
            id: match self.id {
                Some(id) => Some(id as int),
                None => None,
            },
            deviceid: self.deviceid@,
            kind: self.kind@,
            name: self.name@,
            username: self.username@,
        }
    }
}

impl Clone for Device {
    fn clone(&self) -> (out: Self)
        ensures
            out@ == self@,
    {
        Device {
            id: self.id,
            deviceid: self.deviceid.clone(),
            kind: self.kind.clone(),
            name: self.name.clone(),
            username: self.username.clone(),
        }
    }
}

/// The devices among `rows` that belong to `name`, in their order.
pub open spec fn devices_of(rows: Seq<DeviceModel>, name: Seq<char>) -> Seq<DeviceModel> {
    rows.filter(|d: DeviceModel| d.username == name)
}

/// The devices among `rows` that do not belong to `name`, in their order.
pub open spec fn devices_of_others(rows: Seq<DeviceModel>, name: Seq<char>) -> Seq<DeviceModel> {
    rows.filter(|d: DeviceModel| d.username != name)
}

/// Filtering one row more either appends that row or changes nothing.
proof fn lemma_filter_next(rows: Seq<DeviceModel>, i: int, keep: spec_fn(DeviceModel) -> bool)
    requires
        0 <= i < rows.len(),
    ensures
        rows.subrange(0, i + 1).filter(keep) == if keep(rows[i]) {
            rows.subrange(0, i).filter(keep).push(rows[i])
        } else {
            rows.subrange(0, i).filter(keep)
        },
{
    reveal(Seq::filter);
    assert(rows.subrange(0, i + 1).drop_last() =~= rows.subrange(0, i));
}

/// The devices that are persisted, in the order in which they were saved.
pub struct DeviceStore {
    devices: Vec<Device>,
    next_id: i32,
}

impl View for DeviceStore {
    type V = Seq<DeviceModel>;

    closed spec fn view(&self) -> Seq<DeviceModel> {
        self.devices@.map_values(|d: Device| d@)
    }
}

impl DeviceStore {
    /// The identifier that the next saved row gets.
    pub closed spec fn next_id(&self) -> int {
        self.next_id as int
    }

    /// An empty store, whose first row will get the identifier 1.
    pub fn new() -> (out: Self)
        ensures
            out@ == Seq::<DeviceModel>::empty(),
            out.next_id() == 1,
    {
        let out = DeviceStore { devices: Vec::new(), next_id: 1 };
        assert(out@ =~= Seq::<DeviceModel>::empty());
        out
    }

    /// The number of stored devices.
    pub fn len(&self) -> (out: usize)
        ensures
            out == self@.len(),
    {
        self.devices.len()
    }
}

/// A device as it is listed to clients.
pub struct DeviceResponse {
    id: String,
    caption: String,
    type_: String,
    subscriptions: u32,
}

/// A listed device as plain values.
pub struct DeviceResponseModel {
    pub id: Seq<char>,
    pub caption: Seq<char>,
    pub kind: Seq<char>,
    pub subscriptions: nat,
}

impl View for DeviceResponse {
    type V = DeviceResponseModel;

    closed spec fn view(&self) -> DeviceResponseModel {
        DeviceResponseModel {
            id: self.id@,
            caption: self.caption@,
            kind: self.type_@,
            subscriptions: self.subscriptions as nat,
        }
    }
}

impl DeviceResponse {
    /// The device's identifier.
    pub fn id(&self) -> (out: &String)
        ensures
            out@ == self@.id,
    {
        &self.id
    }

    /// The device's caption.
    pub fn caption(&self) -> (out: &String)
        ensures
            out@ == self@.caption,
    {
        &self.caption
    }

    /// The device's kind.
    pub fn kind(&self) -> (out: &String)
        ensures
            out@ == self@.kind,
    {
        &self.type_
    }

    /// The number of subscriptions that the listing reports.
    pub fn subscriptions(&self) -> (out: u32)
        ensures
            out == self@.subscriptions,
    {
        self.subscriptions
    }
}

impl Device {
    /// A device that is not stored yet, from what the client posted.
    pub fn new(device_post: DevicePost, device_id: String, username: String) -> (out: Device)
        ensures
            out.id is None,
            out.deviceid == device_id,
            out.kind == device_post.kind,
            out.name == device_post.caption,
            out.username == username,
    {
        Device {
            id: None,
            deviceid: device_id,
            kind: device_post.kind,
            name: device_post.caption,
            username,
        }
    }

    /// Persists the device under a fresh identifier, whatever identifier it
    /// carries, and hands the stored row back. Where the identifiers are used
    /// up nothing changes.
    pub fn save(&self, store: &mut DeviceStore) -> (out: Result<Device, StoreError>)
        ensures
            match out {
                Ok(row) => {
                    &&& old(store).next_id() < i32::MAX
                    &&& row@ == (DeviceModel { id: Some(old(store).next_id()), ..self@ })
                    &&& final(store)@ == old(store)@.push(row@)
                    &&& final(store).next_id() == old(store).next_id() + 1
                },
                Err(e) => {
                    &&& e == StoreError::Exhausted
                    &&& old(store).next_id() >= i32::MAX
                    &&& final(store)@ == old(store)@
                    &&& final(store).next_id() == old(store).next_id()
                },
            },
    {
        if store.next_id == i32::MAX {
            return Err(StoreError::Exhausted);
        }
        let row = Device {
            id: Some(store.next_id),
            deviceid: self.deviceid.clone(),
            kind: self.kind.clone(),
            name: self.name.clone(),
            username: self.username.clone(),
        };
        let stored = row.clone();
        let ghost before = store@;
        store.devices.push(row);
        store.next_id = store.next_id + 1;
        assert(store@ =~= before.push(stored@));
        Ok(stored)
    }

    /// The stored devices of one identity, in the store's order.
    pub fn get_devices_of_user(store: &DeviceStore, username_to_insert: String) -> (out: Result<
        Vec<Device>,
        StoreError,
    >)
        ensures
            out is Ok,
            out->Ok_0@.map_values(|d: Device| d@) == devices_of(store@, username_to_insert@),
    {
        let mut found: Vec<Device> = Vec::new();
        let mut i: usize = 0;
        let ghost keep = |d: DeviceModel| d.username == username_to_insert@;
        assert(store@.subrange(0, 0).filter(keep) =~= Seq::<DeviceModel>::empty()) by {
            reveal(Seq::filter);
        }
        while i < store.devices.len()
            invariant
                i <= store.devices.len(),
                keep == |d: DeviceModel| d.username == username_to_insert@,
                found@.map_values(|d: Device| d@) =~= store@.subrange(0, i as int).filter(keep),
            decreases store.devices.len() - i,
        {
            proof {
                lemma_filter_next(store@, i as int, keep);
            }
            if same_text(store.devices[i].username.as_str(), username_to_insert.as_str()) {
                found.push(store.devices[i].clone());
            }
            i += 1;
        }
        assert(store@.subrange(0, i as int) =~= store@);
        Ok(found)
    }

    /// Deletes the devices of one identity and says how many rows went.
    pub fn delete_by_username(username1: String, store: &mut DeviceStore) -> (out: Result<
        usize,
        StoreError,
    >)
        ensures
            final(store)@ == devices_of_others(old(store)@, username1@),
            final(store).next_id() == old(store).next_id(),
            out == Ok::<usize, StoreError>((old(store)@.len() - final(store)@.len()) as usize),
    {
        let mut kept: Vec<Device> = Vec::new();
        let mut i: usize = 0;
        let ghost keep = |d: DeviceModel| d.username != username1@;
        assert(store@.subrange(0, 0).filter(keep) =~= Seq::<DeviceModel>::empty()) by {
            reveal(Seq::filter);
        }
        while i < store.devices.len()
            invariant
                i <= store.devices.len(),
                kept@.len() <= i,
                keep == |d: DeviceModel| d.username != username1@,
                kept@.map_values(|d: Device| d@) =~= store@.subrange(0, i as int).filter(keep),
            decreases store.devices.len() - i,
        {
            proof {
                lemma_filter_next(store@, i as int, keep);
            }
            if !same_text(store.devices[i].username.as_str(), username1.as_str()) {
                kept.push(store.devices[i].clone());
            }
            i += 1;
        }
        assert(store@.subrange(0, i as int) =~= store@);
        let removed = store.devices.len() - kept.len();
        store.devices = kept;
        Ok(removed)
    }

    /// The device as it is listed: identifier, caption and kind, with no
    /// subscriptions counted.
    pub fn to_dto(&self) -> (out: DeviceResponse)
        ensures
            out@ == (DeviceResponseModel {
                id: self.deviceid@,
                caption: self.name@,
                kind: self.kind@,
                subscriptions: 0,
            }),
    {
        DeviceResponse {
            id: self.deviceid.clone(),
            caption: self.name.clone(),
            type_: self.kind.clone(),
            subscriptions: 0,
        }
    }
}

} // verus!
