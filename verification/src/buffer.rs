//! Buffers that cross the boundary of the library.
//!
//! A buffer owns its elements and tracks how many it holds and how many it
//! has room for. It is filled by copying, handed out as a slice, and copied
//! element by element when cloned.

use vstd::prelude::*;

verus! {

/// A buffer of plain elements.
pub struct ForeignVec<T> {
    data: Vec<T>,
    cap: usize,
}

/// A buffer of bytes.
pub type U8Vec = ForeignVec<u8>;

/// A buffer of 32-bit numbers.
pub type U32Vec = ForeignVec<u32>;

/// A buffer of key scan codes.
pub type ScanCodeVec = ForeignVec<u32>;

/// A buffer of names of objects of the graphics library.
pub type GLuintVec = ForeignVec<u32>;

/// A buffer of signed numbers of the graphics library.
pub type GLintVec = ForeignVec<i32>;

impl<T> View for ForeignVec<T> {
    type V = Seq<T>;

    closed spec fn view(&self) -> Seq<T> {
        self.data@
    }
}

impl<T> ForeignVec<T> {
    #[verifier::type_invariant]
    spec fn holds_no_more_than_it_has_room_for(self) -> bool {
        self.data@.len() <= self.cap
    }

    /// How many elements the buffer has room for.
    pub closed spec fn room(self) -> nat {
        self.cap as nat
    }
}

impl<T: Copy> ForeignVec<T> {
    /// An empty buffer without room.
    pub fn new() -> (buffer: ForeignVec<T>)
        ensures
            buffer@ == Seq::<T>::empty(),
            buffer.room() == 0,
    {
        ForeignVec { data: Vec::new(), cap: 0 }
    }

    /// An empty buffer with room for `cap` elements.
    pub fn with_capacity(cap: usize) -> (buffer: ForeignVec<T>)
        ensures
            buffer@ == Seq::<T>::empty(),
            buffer.room() == cap,
    {
        ForeignVec { data: Vec::with_capacity(cap), cap }
    }

    /// A buffer that holds a copy of the elements of `source`, with room
    /// for exactly those.
    pub fn copy_from(source: &[T]) -> (buffer: ForeignVec<T>)
        ensures
            buffer@ == source@,
            buffer.room() == source@.len(),
    {
        let mut data: Vec<T> = Vec::with_capacity(source.len());
        let mut i: usize = 0;
        while i < source.len()
            invariant
                i <= source@.len(),
                data@ == source@.take(i as int),
            decreases source@.len() - i,
        {
            proof {
                assert(source@.take(i as int + 1) == source@.take(i as int).push(source@[i as int]));
            }
            data.push(source[i]);
            i = i + 1;
        }
        proof {
            assert(source@.take(source@.len() as int) == source@);
        }
        ForeignVec { data, cap: source.len() }
    }

    /// The number of elements.
    pub fn len(&self) -> (n: usize)
        ensures
            n == self@.len(),
            n <= self.room(),
    {
        proof {
            use_type_invariant(self);
        }
        self.data.len()
    }

    /// The number of elements that the buffer has room for.
    pub fn capacity(&self) -> (cap: usize)
        ensures
            cap == self.room(),
            self@.len() <= cap,
    {
        proof {
            use_type_invariant(self);
        }
        self.cap
    }

    /// Whether the buffer holds no element.
    pub fn is_empty(&self) -> (empty: bool)
        ensures
            empty == (self@.len() == 0),
    {
        self.data.len() == 0
    }

    /// The element at `index`, if there is one.
    pub fn get(&self, index: usize) -> (element: Option<&T>)
        ensures
            index < self@.len() ==> element == Some(&self@[index as int]),
            index >= self@.len() ==> element is None,
    {
        if index < self.data.len() {
            Some(&self.data[index])
        } else {
            None
        }
    }

    /// The elements as a slice.
    pub fn as_slice(&self) -> (slice: &[T])
        ensures
            slice@ == self@,
    {
        self.data.as_slice()
    }

    /// A buffer with copies of the same elements and the same room.
    pub fn deep_copy(&self) -> (copy: ForeignVec<T>)
        ensures
            copy@ == self@,
            copy.room() == self.room(),
    {
        proof {
            use_type_invariant(self);
        }
        let mut data: Vec<T> = Vec::with_capacity(self.cap);
        let mut i: usize = 0;
        while i < self.data.len()
            invariant
                i <= self.data@.len(),
                data@ == self.data@.take(i as int),
            decreases self.data@.len() - i,
        {
            proof {
                assert(self.data@.take(i as int + 1) == self.data@.take(i as int).push(
                    self.data@[i as int],
                ));
            }
            data.push(self.data[i]);
            i = i + 1;
        }
        proof {
            assert(self.data@.take(self.data@.len() as int) == self.data@);
        }
        ForeignVec { data, cap: self.cap }
    }

    /// The elements as a vector of their own; the buffer is given up.
    pub fn into_vec(self) -> (elements: Vec<T>)
        ensures
            elements@ == self@,
    {
        self.data
    }

    /// A buffer that takes over the elements of a vector, with room for
    /// exactly those.
    pub fn from_vec(elements: Vec<T>) -> (buffer: ForeignVec<T>)
        ensures
            buffer@ == elements@,
            buffer.room() == elements@.len(),
    {
        let cap = elements.len();
        ForeignVec { data: elements, cap }
    }
}

} // verus!
