//! An in-process model of the native library's object table.
//!
//! The real feed handler lives behind a proprietary C ABI: objects are
//! reachable only through opaque handles, and every read or write goes
//! through a `get field` / `set field` entry point that works on raw bytes
//! and returns a status code.  This module models exactly that surface —
//! an object table keyed by non-null handles, each object carrying its
//! kind code, its creation turnkey, and a byte-addressed field space that
//! stores exactly what it is given — so the marshalling layers above it
//! can be specified and checked against a native side with known
//! behaviour.

use vstd::prelude::*;

use crate::error::{XBADFIELD, XBADHANDLE, XBADSIZE, XBADSLOT, XCAPACITY, XSUCCESS};

verus! {

/// One stored field value, keyed by the (slot, field identifier) pair the
/// native `get field` / `set field` calls use.
pub struct FieldEntry {
    /// The slot index the value belongs to.
    pub slot: u32,
    /// The numeric field identifier.
    pub field: u64,
    /// The stored bytes, exactly as they were given.
    pub bytes: Vec<u8>,
}

/// One native object: its kind code, the opaque turnkey registered when it
/// was created, its slot capacity, and its field space.
pub struct NativeObject {
    /// The object-kind code the native library reports for this object.
    pub kind_code: u16,
    /// The opaque integer registered at creation, handed back on every
    /// callback for this object.
    pub turnkey: u64,
    /// The number of subscription slots the object was created with.
    pub max_slots: u32,
    /// Whether the object still exists; destroying an object clears this.
    pub alive: bool,
    /// The byte-addressed field space.
    pub fields: Vec<FieldEntry>,
    /// The per-item turnkeys registered by subscription requests, one per
    /// allocated slot.
    pub item_turnkeys: Vec<u64>,
}

/// The object table.  Handles are indices shifted by one, so a zero
/// handle never names an object.
pub struct Appliance {
    /// Every object ever created, destroyed ones included.
    pub objects: Vec<NativeObject>,
}

/// First-match lookup in a field space: the value stored under the given
/// (slot, field) pair, if any.
pub open spec fn spec_lookup(entries: Seq<FieldEntry>, slot: u32, field: u64) -> Option<Seq<u8>>
    decreases entries.len(),
{
    if entries.len() == 0 {
        None
    } else if entries[0].slot == slot && entries[0].field == field {
        Some(entries[0].bytes@)
    } else {
        spec_lookup(entries.drop_first(), slot, field)
    }
}

/// Replacing the bytes of an entry that is the first match for its own key
/// changes the lookup for that key alone.
proof fn lemma_lookup_update(entries: Seq<FieldEntry>, i: int, e: FieldEntry)
    requires
        0 <= i < entries.len(),
        e.slot == entries[i].slot,
        e.field == entries[i].field,
        forall|j: int|
            0 <= j < i ==> !(entries[j].slot == e.slot && entries[j].field == e.field),
    ensures
        spec_lookup(entries.update(i, e), e.slot, e.field) == Some(e.bytes@),
        forall|s2: u32, f2: u64|
            !(s2 == e.slot && f2 == e.field) ==> spec_lookup(entries.update(i, e), s2, f2)
                == spec_lookup(entries, s2, f2),
    decreases entries.len(),
{
    if i == 0 {
        assert forall|s2: u32, f2: u64| !(s2 == e.slot && f2 == e.field) implies spec_lookup(
            entries.update(i, e),
            s2,
            f2,
        ) == spec_lookup(entries, s2, f2) by {
            assert(entries.update(0, e).drop_first() =~= entries.drop_first());
        }
    } else {
        lemma_lookup_update(entries.drop_first(), i - 1, e);
        assert(forall|j: int| 0 <= j < i - 1 ==> entries.drop_first()[j] == entries[j + 1]);
        assert(entries.update(i, e).drop_first() =~= entries.drop_first().update(i - 1, e));
        assert(spec_lookup(entries.update(i, e), e.slot, e.field) == Some(e.bytes@));
        assert forall|s2: u32, f2: u64| !(s2 == e.slot && f2 == e.field) implies spec_lookup(
            entries.update(i, e),
            s2,
            f2,
        ) == spec_lookup(entries, s2, f2) by {
            assert(entries.update(i, e)[0] == entries[0]);
            if !(entries[0].slot == s2 && entries[0].field == f2) {
                assert(entries.update(i, e).drop_first() =~= entries.drop_first().update(
                    i - 1,
                    e,
                ));
                assert(spec_lookup(entries.drop_first().update(i - 1, e), s2, f2) == spec_lookup(
                    entries.drop_first(),
                    s2,
                    f2,
                ));
            }
        }
    }
}

/// Appending an entry whose key has no earlier match makes it the value
/// for that key and leaves every other key alone.
proof fn lemma_lookup_push(entries: Seq<FieldEntry>, e: FieldEntry)
    requires
        spec_lookup(entries, e.slot, e.field) is None,
    ensures
        spec_lookup(entries.push(e), e.slot, e.field) == Some(e.bytes@),
        forall|s2: u32, f2: u64|
            !(s2 == e.slot && f2 == e.field) ==> spec_lookup(entries.push(e), s2, f2)
                == spec_lookup(entries, s2, f2),
    decreases entries.len(),
{
    if entries.len() == 0 {
        assert forall|s2: u32, f2: u64| !(s2 == e.slot && f2 == e.field) implies spec_lookup(
            entries.push(e),
            s2,
            f2,
        ) == spec_lookup(entries, s2, f2) by {
            assert(entries.push(e).drop_first() =~= entries);
        }
    } else {
        lemma_lookup_push(entries.drop_first(), e);
        assert(entries.push(e).drop_first() =~= entries.drop_first().push(e));
        assert(spec_lookup(entries.push(e), e.slot, e.field) == Some(e.bytes@));
        assert forall|s2: u32, f2: u64| !(s2 == e.slot && f2 == e.field) implies spec_lookup(
            entries.push(e),
            s2,
            f2,
        ) == spec_lookup(entries, s2, f2) by {
            assert(entries.push(e)[0] == entries[0]);
            if !(entries[0].slot == s2 && entries[0].field == f2) {
                assert(entries.push(e).drop_first() =~= entries.drop_first().push(e));
                assert(spec_lookup(entries.drop_first().push(e), s2, f2) == spec_lookup(
                    entries.drop_first(),
                    s2,
                    f2,
                ));
            }
        }
    }
}

impl Appliance {
    /// An appliance with no objects.
    pub fn new() -> (r: Appliance)
        ensures
            r.objects@.len() == 0,
    {
        Appliance { objects: Vec::new() }
    }

    /// Whether the handle names a live object.
    pub open spec fn spec_has_object(self, handle: u64) -> bool {
        1 <= handle <= self.objects@.len() && self.objects@[handle - 1].alive
    }

    /// The object a live handle names.
    pub open spec fn spec_object(self, handle: u64) -> NativeObject {
        self.objects@[handle - 1]
    }

    /// The status and kind code the `object type` query reports for a
    /// handle.
    pub open spec fn spec_object_type(self, handle: u64) -> (u32, u16) {
        if self.spec_has_object(handle) {
            (XSUCCESS, self.spec_object(handle).kind_code)
        } else {
            (XBADHANDLE, 0u16)
        }
    }

    /// The status and bytes the `get field` call reports for a handle,
    /// slot, field and buffer size.
    pub open spec fn spec_get_field(self, handle: u64, slot: u32, field: u64, size: u32) -> (
        u32,
        Seq<u8>,
    ) {
        if !self.spec_has_object(handle) {
            (XBADHANDLE, Seq::<u8>::empty())
        } else {
            match spec_lookup(self.spec_object(handle).fields@, slot, field) {
                None => (XBADFIELD, Seq::<u8>::empty()),
                Some(b) => if b.len() == size {
                    (XSUCCESS, b)
                } else {
                    (XBADSIZE, Seq::<u8>::empty())
                },
            }
        }
    }

    /// Query the kind of the object behind a handle, as the native
    /// `object type` entry point does.
    pub fn object_type(&self, handle: u64) -> (r: (u32, u16))
        ensures
            r == self.spec_object_type(handle),
    {
        if 1 <= handle && handle <= self.objects.len() as u64 {
            let obj = &self.objects[(handle - 1) as usize];
            if obj.alive {
                return (XSUCCESS, obj.kind_code);
            }
        }
        (XBADHANDLE, 0u16)
    }

    /// Read a field as the native `get field` entry point does: the
    /// caller names a buffer size, and the call succeeds only when the
    /// stored value has exactly that size.
    pub fn get_field(&self, handle: u64, slot: u32, field: u64, size: u32) -> (r: (u32, Vec<u8>))
        ensures
            r.0 == self.spec_get_field(handle, slot, field, size).0,
            r.1@ == self.spec_get_field(handle, slot, field, size).1,
    {
        if !(1 <= handle && handle <= self.objects.len() as u64) {
            return (XBADHANDLE, Vec::new());
        }
        let obj = &self.objects[(handle - 1) as usize];
        if !obj.alive {
            return (XBADHANDLE, Vec::new());
        }
        let mut i: usize = 0;
        assert(obj.fields@.skip(0) =~= obj.fields@);
        while i < obj.fields.len()
            invariant
                i <= obj.fields@.len(),
                self.spec_has_object(handle),
                *obj == self.spec_object(handle),
                spec_lookup(obj.fields@, slot, field) == spec_lookup(
                    obj.fields@.skip(i as int),
                    slot,
                    field,
                ),
            decreases obj.fields@.len() - i,
        {
            let entry = &obj.fields[i];
            assert(obj.fields@.skip(i as int)[0] == obj.fields@[i as int]);
            if entry.slot == slot && entry.field == field {
                assert(spec_lookup(obj.fields@.skip(i as int), slot, field) == Some(
                    entry.bytes@,
                ));
                if entry.bytes.len() == size as usize {
                    let mut out: Vec<u8> = Vec::new();
                    let mut j: usize = 0;
                    while j < entry.bytes.len()
                        invariant
                            j <= entry.bytes@.len(),
                            out@ == entry.bytes@.take(j as int),
                        decreases entry.bytes@.len() - j,
                    {
                        out.push(entry.bytes[j]);
                        assert(out@ =~= entry.bytes@.take(j + 1));
                        j += 1;
                    }
                    assert(out@ =~= entry.bytes@);
                    assert(self.spec_has_object(handle));
                    assert(spec_lookup(self.spec_object(handle).fields@, slot, field) == Some(
                        entry.bytes@,
                    ));
                    return (XSUCCESS, out);
                } else {
                    return (XBADSIZE, Vec::new());
                }
            }
            assert(obj.fields@.skip(i as int).drop_first() =~= obj.fields@.skip(i + 1));
            i += 1;
        }
        assert(obj.fields@.skip(i as int) =~= Seq::<FieldEntry>::empty());
        (XBADFIELD, Vec::new())
    }

    /// The status and bytes the `get field` call reports when the caller
    /// offers a buffer of the given capacity and accepts any stored size
    /// up to it.
    pub open spec fn spec_get_field_upto(self, handle: u64, slot: u32, field: u64, cap: u32) -> (
        u32,
        Seq<u8>,
    ) {
        if !self.spec_has_object(handle) {
            (XBADHANDLE, Seq::<u8>::empty())
        } else {
            match spec_lookup(self.spec_object(handle).fields@, slot, field) {
                None => (XBADFIELD, Seq::<u8>::empty()),
                Some(b) => if b.len() <= cap {
                    (XSUCCESS, b)
                } else {
                    (XBADSIZE, Seq::<u8>::empty())
                },
            }
        }
    }

    /// Read a field into a buffer of the given capacity: succeeds for any
    /// stored value that fits, as the native call does for its
    /// variable-length string and record fields.
    pub fn get_field_upto(&self, handle: u64, slot: u32, field: u64, cap: u32) -> (r: (
        u32,
        Vec<u8>,
    ))
        ensures
            r.0 == self.spec_get_field_upto(handle, slot, field, cap).0,
            r.1@ == self.spec_get_field_upto(handle, slot, field, cap).1,
    {
        if !(1 <= handle && handle <= self.objects.len() as u64) {
            return (XBADHANDLE, Vec::new());
        }
        let obj = &self.objects[(handle - 1) as usize];
        if !obj.alive {
            return (XBADHANDLE, Vec::new());
        }
        let mut i: usize = 0;
        assert(obj.fields@.skip(0) =~= obj.fields@);
        while i < obj.fields.len()
            invariant
                i <= obj.fields@.len(),
                self.spec_has_object(handle),
                *obj == self.spec_object(handle),
                spec_lookup(obj.fields@, slot, field) == spec_lookup(
                    obj.fields@.skip(i as int),
                    slot,
                    field,
                ),
            decreases obj.fields@.len() - i,
        {
            let entry = &obj.fields[i];
            assert(obj.fields@.skip(i as int)[0] == obj.fields@[i as int]);
            if entry.slot == slot && entry.field == field {
                assert(spec_lookup(obj.fields@.skip(i as int), slot, field) == Some(
                    entry.bytes@,
                ));
                if entry.bytes.len() <= cap as usize {
                    let mut out: Vec<u8> = Vec::new();
                    let mut j: usize = 0;
                    while j < entry.bytes.len()
                        invariant
                            j <= entry.bytes@.len(),
                            out@ == entry.bytes@.take(j as int),
                        decreases entry.bytes@.len() - j,
                    {
                        out.push(entry.bytes[j]);
                        assert(out@ =~= entry.bytes@.take(j + 1));
                        j += 1;
                    }
                    assert(out@ =~= entry.bytes@);
                    assert(self.spec_has_object(handle));
                    assert(spec_lookup(self.spec_object(handle).fields@, slot, field) == Some(
                        entry.bytes@,
                    ));
                    return (XSUCCESS, out);
                } else {
                    return (XBADSIZE, Vec::new());
                }
            }
            assert(obj.fields@.skip(i as int).drop_first() =~= obj.fields@.skip(i + 1));
            i += 1;
        }
        assert(obj.fields@.skip(i as int) =~= Seq::<FieldEntry>::empty());
        (XBADFIELD, Vec::new())
    }

    /// Report the opaque turnkey registered when an object was created:
    /// the integer the native library hands back on every callback for
    /// that object.
    pub fn object_turnkey(&self, handle: u64) -> (r: (u32, u64))
        ensures
            !self.spec_has_object(handle) ==> r.0 == XBADHANDLE,
            self.spec_has_object(handle) ==> r == (XSUCCESS, self.spec_object(handle).turnkey),
    {
        if 1 <= handle && handle <= self.objects.len() as u64 {
            let obj = &self.objects[(handle - 1) as usize];
            if obj.alive {
                return (XSUCCESS, obj.turnkey);
            }
        }
        (XBADHANDLE, 0)
    }

    /// Report the per-item turnkey registered by the subscription that
    /// occupies the given slot: the integer the native library hands
    /// back on every callback for that item.
    pub fn item_turnkey(&self, handle: u64, slot: u32) -> (r: (u32, u64))
        ensures
            !self.spec_has_object(handle) ==> r.0 == XBADHANDLE,
            self.spec_has_object(handle) && slot >= self.spec_object(
                handle,
            ).item_turnkeys@.len() ==> r.0 == XBADSLOT,
            self.spec_has_object(handle) && slot < self.spec_object(handle).item_turnkeys@.len()
                ==> r == (XSUCCESS, self.spec_object(handle).item_turnkeys@[slot as int]),
    {
        if 1 <= handle && handle <= self.objects.len() as u64 {
            let obj = &self.objects[(handle - 1) as usize];
            if obj.alive {
                if (slot as usize) < obj.item_turnkeys.len() {
                    return (XSUCCESS, obj.item_turnkeys[slot as usize]);
                }
                return (XBADSLOT, 0);
            }
        }
        (XBADHANDLE, 0)
    }

    /// Everything of an object except its field space.
    pub open spec fn spec_same_shell(a: NativeObject, b: NativeObject) -> bool {
        &&& a.kind_code == b.kind_code
        &&& a.turnkey == b.turnkey
        &&& a.max_slots == b.max_slots
        &&& a.alive == b.alive
        &&& a.item_turnkeys == b.item_turnkeys
    }

    /// Write a field as the native `set field` entry point does: the
    /// object's field space stores exactly the bytes it is given, and no
    /// other field of any object moves.
    pub fn set_field(&mut self, handle: u64, slot: u32, field: u64, bytes: Vec<u8>) -> (r: u32)
        ensures
            !old(self).spec_has_object(handle) ==> r == XBADHANDLE && *final(self) == *old(self),
            old(self).spec_has_object(handle) ==> {
                &&& r == XSUCCESS
                &&& final(self).spec_has_object(handle)
                &&& final(self).objects@.len() == old(self).objects@.len()
                &&& forall|j: int|
                    0 <= j < old(self).objects@.len() && j != handle - 1 ==> final(self).objects@[j] == old(self).objects@[j]
                &&& Self::spec_same_shell(
                    final(self).spec_object(handle),
                    old(self).spec_object(handle),
                )
                &&& spec_lookup(final(self).spec_object(handle).fields@, slot, field) == Some(
                    bytes@,
                )
                &&& forall|s2: u32, f2: u64|
                    !(s2 == slot && f2 == field) ==> spec_lookup(
                        final(self).spec_object(handle).fields@,
                        s2,
                        f2,
                    ) == spec_lookup(old(self).spec_object(handle).fields@, s2, f2)
            },
    {
        if !(1 <= handle && handle <= self.objects.len() as u64) {
            return XBADHANDLE;
        }
        let idx = (handle - 1) as usize;
        if !self.objects[idx].alive {
            return XBADHANDLE;
        }
        let ghost old_fields = self.objects@[idx as int].fields@;
        let n = self.objects[idx].fields.len();
        let mut i: usize = 0;
        let mut hit: usize = n;
        while i < n
            invariant
                old_fields == self.objects@[idx as int].fields@,
                n == old_fields.len(),
                idx < self.objects@.len(),
                i <= n,
                hit <= n,
                hit == n ==> forall|j: int|
                    0 <= j < i ==> !(old_fields[j].slot == slot && old_fields[j].field == field),
                hit < n ==> old_fields[hit as int].slot == slot && old_fields[hit as int].field
                    == field,
                hit < n ==> forall|j: int|
                    0 <= j < hit ==> !(old_fields[j].slot == slot && old_fields[j].field == field),
            decreases n - i,
        {
            if hit == n {
                let entry = &self.objects[idx].fields[i];
                if entry.slot == slot && entry.field == field {
                    hit = i;
                }
            }
            i += 1;
        }
        let e = FieldEntry { slot, field, bytes };
        if hit < n {
            proof {
                lemma_lookup_update(old_fields, hit as int, e);
            }
            self.objects[idx].fields[hit] = e;
        } else {
            proof {
                lemma_lookup_not_found(old_fields, slot, field);
                lemma_lookup_push(old_fields, e);
            }
            self.objects[idx].fields.push(e);
        }
        XSUCCESS
    }

    /// Create an object of the given kind, registering the opaque turnkey
    /// the callbacks for this object will carry.  Returns the status and
    /// the new non-null handle.
    pub fn create_object(&mut self, kind_code: u16, turnkey: u64, max_slots: u32) -> (r: (
        u32,
        u64,
    ))
        ensures
            r.0 == XSUCCESS,
            r.1 == old(self).objects@.len() + 1,
            final(self).objects@.len() == old(self).objects@.len() + 1,
            forall|j: int|
                0 <= j < old(self).objects@.len() ==> final(self).objects@[j] == old(self).objects@[j],
            final(self).spec_has_object(r.1),
            final(self).spec_object(r.1).kind_code == kind_code,
            final(self).spec_object(r.1).turnkey == turnkey,
            final(self).spec_object(r.1).max_slots == max_slots,
            final(self).spec_object(r.1).fields@.len() == 0,
            final(self).spec_object(r.1).item_turnkeys@.len() == 0,
    {
        let obj = NativeObject {
            kind_code,
            turnkey,
            max_slots,
            alive: true,
            fields: Vec::new(),
            item_turnkeys: Vec::new(),
        };
        self.objects.push(obj);
        (XSUCCESS, self.objects.len() as u64)
    }

    /// Destroy the object behind a handle, as the native `destroy object`
    /// entry point does.  After this the handle no longer names an object
    /// and no further callbacks for it will arrive.
    pub fn destroy_object(&mut self, handle: u64) -> (r: u32)
        ensures
            !old(self).spec_has_object(handle) ==> r == XBADHANDLE && *final(self) == *old(self),
            old(self).spec_has_object(handle) ==> {
                &&& r == XSUCCESS
                &&& !final(self).spec_has_object(handle)
                &&& final(self).objects@.len() == old(self).objects@.len()
                &&& forall|j: int|
                    0 <= j < old(self).objects@.len() && j != handle - 1 ==> final(self).objects@[j] == old(self).objects@[j]
            },
    {
        if !(1 <= handle && handle <= self.objects.len() as u64) {
            return XBADHANDLE;
        }
        let idx = (handle - 1) as usize;
        if !self.objects[idx].alive {
            return XBADHANDLE;
        }
        self.objects[idx].alive = false;
        XSUCCESS
    }

    /// Register a subscription request on a container, as the native
    /// `request item` entry point does: allocates the next free slot,
    /// remembers the per-item turnkey, and reports the slot.  Fails with a
    /// capacity status when every slot is taken.
    pub fn request_item(&mut self, handle: u64, turnkey: u64) -> (r: (u32, u32))
        ensures
            !old(self).spec_has_object(handle) ==> r.0 == XBADHANDLE && *final(self) == *old(self),
            old(self).spec_has_object(handle) && old(self).spec_object(handle).item_turnkeys@.len()
                >= old(self).spec_object(handle).max_slots ==> r.0 == XCAPACITY && *final(self)
                == *old(self),
            old(self).spec_has_object(handle) && old(self).spec_object(handle).item_turnkeys@.len()
                < old(self).spec_object(handle).max_slots ==> {
                &&& r.0 == XSUCCESS
                &&& r.1 == old(self).spec_object(handle).item_turnkeys@.len()
                &&& final(self).objects@.len() == old(self).objects@.len()
                &&& forall|j: int|
                    0 <= j < old(self).objects@.len() && j != handle - 1 ==> final(self).objects@[j] == old(self).objects@[j]
                &&& final(self).spec_object(handle).item_turnkeys@ == old(self).spec_object(
                    handle,
                ).item_turnkeys@.push(turnkey)
                &&& final(self).spec_object(handle).kind_code == old(self).spec_object(
                    handle,
                ).kind_code
                &&& final(self).spec_object(handle).turnkey == old(self).spec_object(
                    handle,
                ).turnkey
                &&& final(self).spec_object(handle).max_slots == old(self).spec_object(
                    handle,
                ).max_slots
                &&& final(self).spec_object(handle).alive
                &&& final(self).spec_object(handle).fields@ == old(self).spec_object(
                    handle,
                ).fields@
            },
    {
        if !(1 <= handle && handle <= self.objects.len() as u64) {
            return (XBADHANDLE, 0);
        }
        let idx = (handle - 1) as usize;
        if !self.objects[idx].alive {
            return (XBADHANDLE, 0);
        }
        let taken = self.objects[idx].item_turnkeys.len();
        if taken as u64 >= self.objects[idx].max_slots as u64 {
            return (XCAPACITY, 0);
        }
        self.objects[idx].item_turnkeys.push(turnkey);
        (XSUCCESS, taken as u32)
    }
}

/// A scan that found no match in any prefix has no match in the whole.
proof fn lemma_lookup_not_found(entries: Seq<FieldEntry>, slot: u32, field: u64)
    requires
        forall|j: int|
            0 <= j < entries.len() ==> !(entries[j].slot == slot && entries[j].field == field),
    ensures
        spec_lookup(entries, slot, field) is None,
    decreases entries.len(),
{
    if entries.len() > 0 {
        assert(forall|j: int|
            0 <= j < entries.drop_first().len() ==> entries.drop_first()[j] == entries[j + 1]);
        lemma_lookup_not_found(entries.drop_first(), slot, field);
    }
}

} // verus!
