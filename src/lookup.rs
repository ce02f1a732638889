//! A bounded, 1-indexed dictionary with rotating read and write cursors.
use vstd::prelude::*;

use crate::error::LookupError;

verus! {

/// How id 0 is resolved on a read.
#[derive(Debug, Clone, Copy, PartialEq, Eq, Structural)]
pub enum LookupType {
    /// Id 0 reads the slot after the last one read (IRI names).
    Inc,
    /// Id 0 reads the last slot read again, slot 1 before any read (IRI prefixes).
    Stay,
    /// Id 0 is an error (datatypes).
    Invalid,
}

/// Abstract state of a table: capacity, cursors, and slots `0..=cap`
/// (slot 0 is never written).
pub struct LookupModel {
    pub cap: nat,
    pub next_write: nat,
    pub last_read: nat,
    pub slots: Seq<Option<Seq<char>>>,
}

/// A table of capacity `cap` as created: every slot empty, cursors at rest.
pub open spec fn empty_table(cap: nat) -> LookupModel {
    LookupModel {
        cap,
        next_write: 1,
        last_read: 0,
        slots: Seq::new(cap + 1, |i: int| None::<Seq<char>>),
    }
}

impl LookupModel {
    pub open spec fn wf(self) -> bool {
        &&& self.cap < u32::MAX
        &&& self.slots.len() == self.cap + 1
        &&& 1 <= self.next_write <= self.cap + 1
        &&& self.last_read <= usize::MAX
        &&& self.slots[0] is None
    }
}

/// The slot that a read of external id `index` resolves to, given the
/// cursor `last_read`; `None` where the mode forbids id 0.
pub open spec fn resolve_read(last_read: nat, index: u32, ty: LookupType) -> Option<nat> {
    if index == 0 {
        match ty {
            LookupType::Inc => Some(last_read + 1),
            LookupType::Stay => Some(if last_read == 0 { 1 } else { last_read }),
            LookupType::Invalid => None,
        }
    } else {
        Some(index as nat)
    }
}

/// A read: the table afterwards and the value or error.  Every read that
/// the mode allows moves the cursor to the slot it resolves to, whether or
/// not that slot holds a value.  (The cursor is a machine index: an `Inc`
/// read from the largest one stays there.)
pub open spec fn lookup_get(t: LookupModel, index: u32, ty: LookupType) -> (
    LookupModel,
    Result<Seq<char>, LookupError>,
) {
    if t.cap == 0 {
        (t, Err(LookupError::LookupFromEmptyTable))
    } else {
        match resolve_read(t.last_read, index, ty) {
            None => (t, Err(LookupError::InvalidLookupAction)),
            Some(r) => {
                let id: nat = if r > usize::MAX { usize::MAX as nat } else { r };
                let t2 = LookupModel { last_read: id, ..t };
                if id > t.cap {
                    (t2, Err(LookupError::Missing(id as usize, (t.cap + 1) as usize)))
                } else {
                    match t.slots[id as int] {
                        Some(v) => (t2, Ok(v)),
                        None => (t2, Err(LookupError::Missing(id as usize, (t.cap + 1) as usize))),
                    }
                }
            },
        }
    }
}

/// The slot that a write of external id `index` goes to.
pub open spec fn resolve_write(next_write: nat, index: u32) -> nat {
    if index == 0 {
        next_write
    } else {
        index as nat
    }
}

/// A write: the slot is filled and the write cursor moves past it; a write
/// beyond the capacity fails and leaves the table as it was.
pub open spec fn lookup_set(t: LookupModel, index: u32, value: Seq<char>) -> (
    LookupModel,
    Result<(), LookupError>,
) {
    let id = resolve_write(t.next_write, index);
    if id > t.cap {
        (t, Err(LookupError::LookupTableTooSmall(t.cap as usize)))
    } else {
        (
            LookupModel { next_write: id + 1, slots: t.slots.update(id as int, Some(value)), ..t },
            Ok(()),
        )
    }
}

pub open spec fn opt_view(o: Option<String>) -> Option<Seq<char>> {
    match o {
        Some(s) => Some(s@),
        None => None,
    }
}

pub open spec fn result_view<E>(r: Result<String, E>) -> Result<Seq<char>, E> {
    match r {
        Ok(s) => Ok(s@),
        Err(e) => Err(e),
    }
}

impl LookupType {
    /// The slot that id 0 resolves to from the cursor `value`.
    pub fn apply(&self, value: usize) -> (r: Result<usize, LookupError>)
        requires
            *self == LookupType::Inc ==> value < usize::MAX,
        ensures
            match resolve_read(value as nat, 0, *self) {
                Some(id) => r == Ok::<usize, LookupError>(id as usize),
                None => r == Err::<usize, LookupError>(LookupError::InvalidLookupAction),
            },
    {
        match self {
            LookupType::Inc => Ok(value + 1),
            LookupType::Stay => if value == 0 {
                Ok(1)
            } else {
                Ok(value)
            },
            LookupType::Invalid => Err(LookupError::InvalidLookupAction),
        }
    }
}

pub struct Lookup {
    size: usize,
    next_written: usize,
    last_read: usize,
    arr: Vec<Option<String>>,
}

impl View for Lookup {
    type V = LookupModel;

    closed spec fn view(&self) -> LookupModel {
        LookupModel {
            cap: self.size as nat,
            next_write: self.next_written as nat,
            last_read: self.last_read as nat,
            slots: self.arr@.map_values(|o: Option<String>| opt_view(o)),
        }
    }
}

impl Lookup {
    pub open spec fn wf(&self) -> bool {
        self@.wf()
    }

    /// The number of addressable slots.
    pub fn capacity(&self) -> (r: usize)
        ensures
            r == self@.cap,
    {
        self.size
    }

    /// A deep copy: slots and both cursors.
    pub fn duplicate(&self) -> (r: Lookup)
        requires
            self.wf(),
        ensures
            r.wf(),
            r@ == self@,
    {
        let mut arr: Vec<Option<String>> = Vec::new();
        let mut i: usize = 0;
        while i < self.arr.len()
            invariant
                i <= self.arr@.len(),
                arr@.len() == i,
                forall|j: int| 0 <= j < i ==> opt_view(#[trigger] arr@[j]) == opt_view(self.arr@[j]),
            decreases self.arr@.len() - i,
        {
            let slot = match &self.arr[i] {
                Some(v) => Some(v.clone()),
                None => None,
            };
            arr.push(slot);
            i += 1;
        }
        let r = Lookup {
            size: self.size,
            next_written: self.next_written,
            last_read: self.last_read,
            arr,
        };
        assert(r@.slots =~= self@.slots);
        r
    }

    /// An empty table with `size` addressable slots.
    pub fn new(size: u32) -> (r: Lookup)
        requires
            size < u32::MAX,
        ensures
            r.wf(),
            r@ == empty_table(size as nat),
    {
        let mut arr: Vec<Option<String>> = Vec::new();
        let n: usize = size as usize + 1;
        let mut i: usize = 0;
        while i < n
            invariant
                n == size + 1,
                i <= n,
                arr@.len() == i,
                forall|j: int| 0 <= j < i ==> arr@[j] is None,
            decreases n - i,
        {
            arr.push(None);
            i += 1;
        }
        let r = Lookup { size: size as usize, next_written: 1, last_read: 0, arr };
        assert(r@.slots =~= empty_table(size as nat).slots);
        r
    }

    /// Reads external id `index` under mode `ty` (see `lookup_get`).
    pub fn get(&mut self, index: u32, ty: LookupType) -> (r: Result<String, LookupError>)
        requires
            old(self).wf(),
        ensures
            final(self).wf(),
            (final(self)@, result_view(r)) == lookup_get(old(self)@, index, ty),
            // id 0 under Stay, before any read, reads slot 1
            old(self)@.cap > 0 && index == 0 && ty == LookupType::Stay && old(self)@.last_read == 0
                ==> final(self)@.last_read == 1,
            // id 0 under Inc reads the slot after the last one read
            old(self)@.cap > 0 && index == 0 && ty == LookupType::Inc && old(self)@.last_read
                < usize::MAX ==> final(self)@.last_read == old(self)@.last_read + 1,
            // any other id reads its own slot
            old(self)@.cap > 0 && index > 0 ==> final(self)@.last_read == index as nat,
    {
        if self.size == 0 {
            return Err(LookupError::LookupFromEmptyTable);
        }
        let mut id: usize = index as usize;
        if index == 0 {
            if ty == LookupType::Inc && self.last_read == usize::MAX {
                id = usize::MAX;
            } else {
                id = ty.apply(self.last_read)?;
            }
        }
        self.last_read = id;
        if id > self.size {
            return Err(LookupError::Missing(id, self.arr.len()));
        }
        match &self.arr[id] {
            Some(v) => Ok(v.clone()),
            None => Err(LookupError::Missing(id, self.arr.len())),
        }
    }

    /// Writes `str` at external id `index` (see `lookup_set`).
    pub fn set(&mut self, index: u32, str: String) -> (r: Result<(), LookupError>)
        requires
            old(self).wf(),
        ensures
            final(self).wf(),
            (final(self)@, r) == lookup_set(old(self)@, index, str@),
    {
        let mut id: usize = index as usize;
        if index == 0 {
            id = self.next_written;
        }
        if id > self.size {
            return Err(LookupError::LookupTableTooSmall(self.size));
        }
        self.next_written = id + 1;
        self.arr.set(id, Some(str));
        assert(self@.slots =~= old(self)@.slots.update(id as int, Some(str@)));
        Ok(())
    }
}

} // verus!
