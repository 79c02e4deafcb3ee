use vstd::prelude::*;

use crate::text::{lemma_path_lt_connected, lemma_path_lt_trans, path_lt, str_lt};

verus! {

/// Capabilities a platform input device can expose.
#[derive(Debug, PartialEq, Eq, Structural, Clone, Copy)]
pub enum DeviceCapability {
    Keyboard,
    Pointer,
    Touch,
    TabletTool,
    TabletPad,
    Gesture,
    Switch,
}

/// Identity record for one input device that exposes gesture capability.
#[derive(Debug, Clone, PartialEq)]
pub struct Device {
    pub id: u32,
    pub path: String,
    pub name: String,
    pub product_id: u32,
    pub vendor_id: u32,
}

/// What the device registry reports about one directory entry before it
/// becomes a `Device`: its identity fields and the two probed facts the
/// validity decision depends on.
#[derive(Debug, Clone)]
pub struct DeviceCandidate {
    pub path: String,
    pub name: String,
    pub product_id: u32,
    pub vendor_id: u32,
    pub is_char_device: bool,
    pub capabilities: Vec<DeviceCapability>,
}

impl DeviceCandidate {
    /// Whether the probed capability list contains the gesture capability.
    pub fn has_gesture_capability(&self) -> (r: bool)
        ensures
            r == self.capabilities@.contains(DeviceCapability::Gesture),
    {
        let mut i: usize = 0;
        while i < self.capabilities.len()
            invariant
                i <= self.capabilities@.len(),
                forall|j: int| 0 <= j < i ==> self.capabilities@[j] != DeviceCapability::Gesture,
            decreases self.capabilities@.len() - i,
        {
            if self.capabilities[i] == DeviceCapability::Gesture {
                return true;
            }
            i = i + 1;
        }
        false
    }

    /// A candidate is accepted when it is a character device with gesture
    /// capability.
    pub open spec fn accepted(self) -> bool {
        self.is_char_device && self.capabilities@.contains(DeviceCapability::Gesture)
    }
}

impl Device {
    /// Builds the identity record, provided the path was confirmed to
    /// denote an existing character device.
    pub fn new_with_id(
        id: u32,
        path: String,
        name: String,
        product_id: u32,
        vendor_id: u32,
        is_char_device: bool,
    ) -> (r: Option<Device>)
        ensures
            is_char_device ==> r == (Some(
                Device { id, path, name, product_id, vendor_id },
            )),
            !is_char_device ==> r is None,
    {
        if is_char_device {
            Some(Device { id, path, name, product_id, vendor_id })
        } else {
            None
        }
    }

    /// Builds a device record under a caller-assigned identifier.
    pub fn new(
        id: u32,
        path: String,
        name: String,
        product_id: u32,
        vendor_id: u32,
        is_char_device: bool,
    ) -> (r: Option<Device>)
        ensures
            is_char_device ==> r == (Some(
                Device { id, path, name, product_id, vendor_id },
            )),
            !is_char_device ==> r is None,
    {
        Device::new_with_id(id, path, name, product_id, vendor_id, is_char_device)
    }
}

/// The device list keeps its entries in path order.
pub open spec fn sorted_by_path(s: Seq<Device>) -> bool {
    forall|p: int, q: int| 0 <= p < q < s.len() ==> !path_lt(s[q].path@, s[p].path@)
}

/// The device record an accepted candidate turns into.
pub open spec fn device_record(c: DeviceCandidate, id: int) -> Device {
    Device {
        id: id as u32,
        path: c.path,
        name: c.name,
        product_id: c.product_id,
        vendor_id: c.vendor_id,
    }
}

/// How many of the candidates are accepted.
pub open spec fn accepted_count(cands: Seq<DeviceCandidate>) -> int
    decreases cands.len(),
{
    if cands.len() == 0 {
        0
    } else {
        (if cands.first().accepted() {
            1int
        } else {
            0int
        }) + accepted_count(cands.drop_first())
    }
}

/// The device records of the accepted candidates, in candidate order, with
/// identifiers assigned sequentially from `first_id`.
pub open spec fn accepted_devices(cands: Seq<DeviceCandidate>, first_id: int) -> Seq<Device>
    decreases cands.len(),
{
    if cands.len() == 0 {
        Seq::empty()
    } else if cands.first().accepted() {
        seq![device_record(cands.first(), first_id)] + accepted_devices(
            cands.drop_first(),
            first_id + 1,
        )
    } else {
        accepted_devices(cands.drop_first(), first_id)
    }
}

/// The number of accepted candidates lies between zero and the number of
/// candidates.
pub proof fn lemma_accepted_count_bounds(cands: Seq<DeviceCandidate>)
    ensures
        0 <= accepted_count(cands) <= cands.len(),
    decreases cands.len(),
{
    if cands.len() > 0 {
        lemma_accepted_count_bounds(cands.drop_first());
    }
}

/// There are as many device records as accepted candidates; in particular
/// a scan that accepts nothing builds an empty list, so a rescan of the
/// same candidates returns the same, empty, answer.
pub proof fn lemma_accepted_devices_len(cands: Seq<DeviceCandidate>, first_id: int)
    ensures
        accepted_devices(cands, first_id).len() == accepted_count(cands),
    decreases cands.len(),
{
    if cands.len() > 0 {
        if cands.first().accepted() {
            lemma_accepted_devices_len(cands.drop_first(), first_id + 1);
        } else {
            lemma_accepted_devices_len(cands.drop_first(), first_id);
        }
    }
}

/// Appending one candidate extends the accepted records by at most one, at
/// the next free identifier.
pub proof fn lemma_accepted_snoc(cands: Seq<DeviceCandidate>, c: DeviceCandidate, first_id: int)
    ensures
        accepted_count(cands.push(c)) == accepted_count(cands) + (if c.accepted() {
            1int
        } else {
            0int
        }),
        accepted_devices(cands.push(c), first_id) == (if c.accepted() {
            accepted_devices(cands, first_id).push(
                device_record(c, first_id + accepted_count(cands)),
            )
        } else {
            accepted_devices(cands, first_id)
        }),
    decreases cands.len(),
{
    if cands.len() == 0 {
        assert(cands.push(c).drop_first() =~= cands);
        assert(cands.push(c).first() == c);
        if c.accepted() {
            assert(accepted_devices(cands, first_id + 1) =~= Seq::<Device>::empty());
            assert(accepted_devices(cands, first_id) =~= Seq::<Device>::empty());
            assert(accepted_devices(cands.push(c), first_id) =~= accepted_devices(
                cands,
                first_id,
            ).push(device_record(c, first_id)));
        }
    } else {
        assert(cands.push(c).first() == cands.first());
        assert(cands.push(c).drop_first() =~= cands.drop_first().push(c));
        if cands.first().accepted() {
            lemma_accepted_snoc(cands.drop_first(), c, first_id + 1);
            if c.accepted() {
                assert(accepted_devices(cands.push(c), first_id) =~= accepted_devices(
                    cands,
                    first_id,
                ).push(device_record(c, first_id + accepted_count(cands))));
            }
        } else {
            lemma_accepted_snoc(cands.drop_first(), c, first_id);
            if c.accepted() {
                assert(accepted_devices(cands.push(c), first_id) =~= accepted_devices(
                    cands,
                    first_id,
                ).push(device_record(c, first_id + accepted_count(cands))));
            }
        }
    }
}

/// Device-list caching: two requests in a row with the same candidates
/// answer alike. A first request on an empty cache leaves either a filled
/// cache, which the second request returns verbatim, or an empty one -
/// and then the second request's rescan of the same candidates builds the
/// same empty answer. The premises are the request contract: the result
/// is the cache, which a scan fills with a path-sorted arrangement of the
/// accepted candidates' records and their tally of identifiers.
pub proof fn lemma_device_list_requests_agree(
    id0: int,
    cands: Seq<DeviceCandidate>,
    list1: Seq<Device>,
    id1: int,
    r1: Seq<Device>,
    list2: Seq<Device>,
    r2: Seq<Device>,
)
    requires
        r1 == list1,
        list1.to_multiset() == accepted_devices(cands, id0).to_multiset(),
        id1 == id0 + accepted_count(cands),
        r2 == list2,
        list1.len() > 0 ==> list2 == list1,
        list1.len() == 0 ==> list2.to_multiset() == accepted_devices(cands, id1).to_multiset(),
    ensures
        r2 == r1,
{
    broadcast use vstd::seq_lib::to_multiset_len;

    if list1.len() == 0 {
        assert(list1.to_multiset().len() == list1.len());
        assert(accepted_devices(cands, id0).to_multiset().len() == accepted_devices(
            cands,
            id0,
        ).len());
        lemma_accepted_devices_len(cands, id0);
        assert(accepted_count(cands) == 0);
        lemma_accepted_devices_len(cands, id1);
        assert(accepted_devices(cands, id1).to_multiset().len() == accepted_devices(
            cands,
            id1,
        ).len());
        assert(list2.to_multiset().len() == list2.len());
        assert(list2.len() == 0);
        assert(list2 =~= list1);
    }
}

/// Inserts a device at its place in path order.
pub fn insert_device_sorted(list: &mut Vec<Device>, d: Device)
    requires
        sorted_by_path(old(list)@),
    ensures
        sorted_by_path(final(list)@),
        final(list)@.to_multiset() == old(list)@.to_multiset().insert(d),
        final(list)@.len() == old(list)@.len() + 1,
{
    let ghost orig = list@;
    let mut i: usize = 0;
    while i < list.len() && !str_lt(d.path.as_str(), list[i].path.as_str())
        invariant
            list@ == orig,
            sorted_by_path(orig),
            i <= orig.len(),
            forall|j: int| 0 <= j < i ==> !path_lt(d.path@, orig[j].path@),
        decreases orig.len() - i,
    {
        i = i + 1;
    }
    assert(i < orig.len() ==> path_lt(d.path@, orig[i as int].path@));
    list.insert(i, d);
    proof {
        broadcast use vstd::seq_lib::to_multiset_insert;

        assert(list@ == orig.insert(i as int, d));
        assert forall|p: int, q: int| 0 <= p < q < list@.len() implies !path_lt(
            list@[q].path@,
            list@[p].path@,
        ) by {
            if q < i {
                assert(list@[p] == orig[p] && list@[q] == orig[q]);
            } else if p < i && q == i {
                assert(list@[p] == orig[p] && list@[q] == d);
            } else if p < i && q > i {
                assert(list@[p] == orig[p] && list@[q] == orig[q - 1]);
            } else if p == i {
                assert(list@[p] == d && list@[q] == orig[q - 1]);
                assert(path_lt(d.path@, orig[i as int].path@));
                if q - 1 == i {
                    crate::text::lemma_path_lt_irrefl(orig[i as int].path@);
                }
                assert(!path_lt(orig[q - 1].path@, orig[i as int].path@));
                if path_lt(orig[q - 1].path@, d.path@) {
                    lemma_path_lt_trans(orig[q - 1].path@, d.path@, orig[i as int].path@);
                    assert(false);
                }
            } else {
                assert(list@[p] == orig[p - 1] && list@[q] == orig[q - 1]);
            }
        }
    }
}

/// Builds the valid device list: keeps the accepted candidates, gives each
/// an identifier counting on from `first_id`, and orders the records by
/// path. Returns the list and the next free identifier.
pub fn build_valid_device_list(candidates: &Vec<DeviceCandidate>, first_id: u32) -> (r: (
    Vec<Device>,
    u32,
))
    requires
        first_id + candidates@.len() <= u32::MAX,
    ensures
        sorted_by_path(r.0@),
        r.0@.to_multiset() == accepted_devices(candidates@, first_id as int).to_multiset(),
        r.0@.len() == accepted_count(candidates@),
        r.1 == first_id + accepted_count(candidates@),
{
    let mut list: Vec<Device> = Vec::new();
    let mut next_id: u32 = first_id;
    let mut i: usize = 0;
    proof {
        assert(candidates@.take(0) =~= Seq::<DeviceCandidate>::empty());
    }
    while i < candidates.len()
        invariant
            i <= candidates@.len(),
            first_id + candidates@.len() <= u32::MAX,
            sorted_by_path(list@),
            list@.to_multiset() == accepted_devices(
                candidates@.take(i as int),
                first_id as int,
            ).to_multiset(),
            list@.len() == accepted_count(candidates@.take(i as int)),
            next_id == first_id + accepted_count(candidates@.take(i as int)),
        decreases candidates@.len() - i,
    {
        proof {
            broadcast use vstd::seq_lib::to_multiset_build;

            assert(candidates@.take(i as int + 1) =~= candidates@.take(i as int).push(
                candidates@[i as int],
            ));
            lemma_accepted_snoc(candidates@.take(i as int), candidates@[i as int], first_id as int);
            lemma_accepted_count_bounds(candidates@.take(i as int));
        }
        let c = &candidates[i];
        if c.is_char_device && c.has_gesture_capability() {
            let d = Device {
                id: next_id,
                path: c.path.clone(),
                name: c.name.clone(),
                product_id: c.product_id,
                vendor_id: c.vendor_id,
            };
            proof {
                assert(d == device_record(
                    candidates@[i as int],
                    first_id as int + accepted_count(candidates@.take(i as int)),
                ));
            }
            insert_device_sorted(&mut list, d);
            next_id = next_id + 1;
        }
        i = i + 1;
    }
    proof {
        assert(candidates@.take(candidates@.len() as int) =~= candidates@);
    }
    (list, next_id)
}

/// A fresh copy of a device list, entry for entry.
pub fn copy_device_list(v: &Vec<Device>) -> (r: Vec<Device>)
    ensures
        r@ == v@,
{
    let mut r: Vec<Device> = Vec::new();
    let mut i: usize = 0;
    while i < v.len()
        invariant
            i <= v@.len(),
            r@ =~= v@.take(i as int),
        decreases v@.len() - i,
    {
        let d = Device {
            id: v[i].id,
            path: v[i].path.clone(),
            name: v[i].name.clone(),
            product_id: v[i].product_id,
            vendor_id: v[i].vendor_id,
        };
        r.push(d);
        proof {
            assert(r@ =~= v@.take(i as int + 1));
        }
        i = i + 1;
    }
    proof {
        assert(v@.take(v@.len() as int) =~= v@);
    }
    r
}

/// Looks a path up in a path-sorted device list by binary search.
pub fn find_device_by_path(list: &Vec<Device>, path: &String) -> (r: Option<usize>)
    requires
        sorted_by_path(list@),
    ensures
        match r {
            Some(i) => i < list@.len() && list@[i as int].path@ == path@,
            None => forall|j: int| 0 <= j < list@.len() ==> list@[j].path@ != path@,
        },
{
    let mut lo: usize = 0;
    let mut hi: usize = list.len();
    while lo < hi
        invariant
            lo <= hi <= list@.len(),
            sorted_by_path(list@),
            forall|j: int| 0 <= j < lo ==> path_lt(list@[j].path@, path@),
            forall|j: int| hi <= j < list@.len() ==> !path_lt(list@[j].path@, path@),
        decreases hi - lo,
    {
        let mid = lo + (hi - lo) / 2;
        if str_lt(list[mid].path.as_str(), path.as_str()) {
            proof {
                assert forall|j: int| 0 <= j <= mid implies path_lt(list@[j].path@, path@) by {
                    if j < mid {
                        assert(!path_lt(list@[mid as int].path@, list@[j].path@));
                        if !path_lt(list@[j].path@, path@) {
                            if path_lt(path@, list@[j].path@) {
                                lemma_path_lt_trans(
                                    list@[mid as int].path@,
                                    path@,
                                    list@[j].path@,
                                );
                            } else {
                                lemma_path_lt_connected(list@[j].path@, path@);
                            }
                            assert(false);
                        }
                    }
                }
            }
            lo = mid + 1;
        } else {
            proof {
                assert forall|j: int| mid <= j < list@.len() implies !path_lt(
                    list@[j].path@,
                    path@,
                ) by {
                    if j > mid {
                        assert(!path_lt(list@[j].path@, list@[mid as int].path@));
                        if path_lt(list@[j].path@, path@) {
                            if path_lt(path@, list@[mid as int].path@) {
                                lemma_path_lt_trans(
                                    list@[j].path@,
                                    path@,
                                    list@[mid as int].path@,
                                );
                            } else {
                                lemma_path_lt_connected(list@[mid as int].path@, path@);
                            }
                            assert(false);
                        }
                    }
                }
            }
            hi = mid;
        }
    }
    if lo < list.len() && list[lo].path == *path {
        Some(lo)
    } else {
        proof {
            if lo < list@.len() {
                assert(list@[lo as int].path@ != path@);
            }
            assert forall|j: int| 0 <= j < list@.len() implies list@[j].path@ != path@ by {
                if j < lo {
                    crate::text::lemma_path_lt_irrefl(path@);
                } else if j > lo {
                    if list@[j].path@ == path@ {
                        assert(!path_lt(list@[lo as int].path@, path@));
                        lemma_path_lt_connected(list@[lo as int].path@, path@);
                        assert(path_lt(path@, list@[lo as int].path@));
                        assert(!path_lt(list@[j].path@, list@[lo as int].path@));
                        assert(false);
                    }
                }
            }
        }
        None
    }
}

} // verus!
