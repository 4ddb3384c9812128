use vstd::prelude::*;

verus! {

/// A fixed number of the most recent values, oldest first.
pub struct CircularBuffer<T> {
    buffer: Vec<T>,
    start_index: usize,
}

impl<T> CircularBuffer<T> {
    pub closed spec fn wf(&self) -> bool {
        if self.buffer@.len() == 0 {
            self.start_index == 0
        } else {
            self.start_index < self.buffer@.len()
        }
    }

    /// The values, oldest first.
    pub closed spec fn spec_values(&self) -> Seq<T> {
        self.buffer@.subrange(self.start_index as int, self.buffer@.len() as int)
            + self.buffer@.subrange(0, self.start_index as int)
    }

    pub closed spec fn spec_start_index(&self) -> usize {
        self.start_index
    }
}

impl<T: Clone + Default> CircularBuffer<T> {
    /// A buffer of the given length holding default values.
    pub fn default_filled(len: u32) -> (r: Self)
        ensures
            r.wf(),
            r.spec_values().len() == len,
            exists|d: T| call_ensures(T::default, (), d)
                && forall|i: int| 0 <= i < len ==> cloned(d, #[trigger] r.spec_values()[i]),
    {
        let len: usize = len as usize;
        let d = T::default();
        let buffer = vec![d; len];
        let r = Self { buffer, start_index: 0 };
        assert(r.spec_values() =~= buffer@);
        r
    }
}

impl<T: Clone> CircularBuffer<T> {
    /// Replaces the oldest value with the new one, which becomes the newest.
    pub fn push(&mut self, value: T)
        requires
            old(self).wf(),
            old(self).spec_values().len() > 0,
        ensures
            final(self).wf(),
            final(self).spec_values() == old(self).spec_values().drop_first().push(value),
    {
        let ghost old_buffer = self.buffer@;
        let ghost s = self.start_index as int;
        let ghost n = old_buffer.len() as int;
        self.buffer.set(self.start_index, value);
        let len = self.buffer.len();
        let next = self.start_index + 1;
        if next == len {
            self.start_index = 0;
        } else {
            self.start_index = next;
        }
        proof {
            let nb = self.buffer@;
            assert(nb == old_buffer.update(s, value));
            let old_values = old_buffer.subrange(s, n) + old_buffer.subrange(0, s);
            if s + 1 == n {
                assert(self.spec_values() =~= nb.subrange(0, n));
                assert(old_values.drop_first().push(value) =~= nb.subrange(0, n));
            } else {
                assert(self.spec_values() =~= nb.subrange(s + 1, n) + nb.subrange(0, s + 1));
                assert(old_values.drop_first().push(value) =~= nb.subrange(s + 1, n) + nb.subrange(0, s + 1));
            }
        }
    }

    /// The storage from the start index to its end, then the storage before the start index.
    /// Together, first then second, they hold the values oldest first.
    pub fn slices(&self) -> (r: (&[T], &[T]))
        requires
            self.wf(),
        ensures
            r.0@ + r.1@ == self.spec_values(),
            r.0@.len() == self.spec_values().len() - self.spec_start_index(),
    {
        let len = self.buffer.len();
        let s = self.buffer.as_slice();
        (&s[self.start_index..len], &s[0..self.start_index])
    }
}

impl<T: Copy> CircularBuffer<T> {
    /// Copies the values, oldest first, into the second slot of each pair of the target.
    pub fn clone_to(&self, target: &mut [[T; 2]])
        requires
            self.wf(),
            old(target)@.len() == self.spec_values().len(),
        ensures
            final(target)@.len() == old(target)@.len(),
            forall|i: int| 0 <= i < final(target)@.len() ==> {
                &&& (#[trigger] final(target)@[i])@[0] == old(target)@[i]@[0]
                &&& final(target)@[i]@[1] == self.spec_values()[i]
            },
    {
        let len = self.buffer.len();
        let split_point = len - self.start_index;
        let mut i: usize = 0;
        while i < len
            invariant
                self.wf(),
                len == self.buffer@.len(),
                split_point == len - self.spec_start_index(),
                self.spec_values().len() == len,
                target@.len() == len,
                i <= len,
                forall|j: int| 0 <= j < len ==> (#[trigger] target@[j])@[0] == old(target)@[j]@[0],
                forall|j: int| 0 <= j < i ==> (#[trigger] target@[j])@[1] == self.spec_values()[j],
                forall|j: int| i <= j < len ==> (#[trigger] target@[j]) == old(target)@[j],
            decreases len - i,
        {
            let value = if i < split_point {
                self.buffer[self.start_index + i]
            } else {
                self.buffer[i - split_point]
            };
            let pair = [target[i][0], value];
            target[i] = pair;
            i = i + 1;
        }
    }
}

/// Pushing into a full buffer forgets the oldest value and remembers the new one as the newest.
pub proof fn lemma_push_keeps_length<T>(values: Seq<T>, value: T)
    requires
        values.len() > 0,
    ensures
        values.drop_first().push(value).len() == values.len(),
        values.drop_first().push(value).last() == value,
{
}

} // verus!
