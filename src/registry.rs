use vstd::prelude::*;

use crate::error::{no_native_resource, BridgeError, ErrorKind};

verus! {

/// A table of native resources handed to the host as integer handles.
///
/// A handle is the index of its slot. Slots are never reused: once a resource
/// is taken its slot stays empty, so a stale handle is found out by lookup.
pub struct Registry<T> {
    slots: Vec<Option<T>>,
}

impl<T> View for Registry<T> {
    type V = Seq<Option<T>>;

    closed spec fn view(&self) -> Seq<Option<T>> {
        self.slots@
    }
}

/// Whether `h` names a slot that holds a resource.
pub open spec fn holds<T>(slots: Seq<Option<T>>, h: u64) -> bool {
    h < slots.len() && slots[h as int] is Some
}

impl<T> Registry<T> {
    pub fn new() -> (r: Registry<T>)
        ensures
            r@ == Seq::<Option<T>>::empty(),
    {
        Registry { slots: Vec::new() }
    }

    /// Number of handles ever given out.
    pub fn len(&self) -> (r: usize)
        ensures
            r == self@.len(),
    {
        self.slots.len()
    }

    /// Attaches a new resource under a fresh handle.
    pub fn install(&mut self, value: T) -> (h: u64)
        requires
            old(self)@.len() < u64::MAX,
        ensures
            h == old(self)@.len(),
            final(self)@ == old(self)@.push(Some(value)),
    {
        let h = self.slots.len() as u64;
        self.slots.push(Some(value));
        h
    }

    /// Whether `h` holds a resource.
    pub fn contains(&self, h: u64) -> (r: bool)
        ensures
            r == holds(self@, h),
    {
        h < self.slots.len() as u64 && self.slots[h as usize].is_some()
    }

    /// The resource under `h`, for the length of one operation.
    pub fn borrow(&self, h: u64) -> (r: Result<&T, BridgeError>)
        ensures
            r is Ok <==> holds(self@, h),
            r matches Ok(v) ==> self@[h as int] == Some(*v),
            r matches Err(e) ==> e.kind == ErrorKind::NoNativeResource,
    {
        if h < self.slots.len() as u64 {
            match &self.slots[h as usize] {
                Some(v) => Ok(v),
                None => Err(no_native_resource()),
            }
        } else {
            Err(no_native_resource())
        }
    }

    /// Removes the resource under `h` and hands it over; the slot stays empty.
    pub fn take(&mut self, h: u64) -> (r: Result<T, BridgeError>)
        ensures
            r is Ok <==> holds(old(self)@, h),
            r matches Ok(v) ==> old(self)@[h as int] == Some(v)
                && final(self)@ == old(self)@.update(h as int, None),
            r matches Err(e) ==> e.kind == ErrorKind::NoNativeResource && final(self)@ == old(self)@,
    {
        if h < self.slots.len() as u64 {
            match self.slots[h as usize].take() {
                Some(v) => Ok(v),
                None => Err(no_native_resource()),
            }
        } else {
            Err(no_native_resource())
        }
    }
}

/// Once a resource has been taken, its handle neither lends nor hands over
/// anything again: both fail with the no-native-resource error.
pub proof fn lemma_taken_handle_is_gone<T>(before: Seq<Option<T>>, after: Seq<Option<T>>, h: u64)
    requires
        holds(before, h),
        after == before.update(h as int, None),
    ensures
        !holds(after, h),
{
}

} // verus!
