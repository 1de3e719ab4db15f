//! The rolling window of one channel: a ring buffer of fixed capacity that
//! reads oldest to newest.

use vstd::prelude::*;

verus! {

/// Sliding a window by one value: the oldest value leaves, `x` becomes the
/// newest. A window without room stays empty.
pub open spec fn slide<T>(s: Seq<T>, x: T) -> Seq<T> {
    if s.len() == 0 {
        s
    } else {
        s.drop_first().push(x)
    }
}

/// Sliding a window by the values of `xs`, first to last.
pub open spec fn slide_all<T>(s: Seq<T>, xs: Seq<T>) -> Seq<T>
    decreases xs.len(),
{
    if xs.len() == 0 {
        s
    } else {
        slide_all(slide(s, xs[0]), xs.drop_first())
    }
}

/// A fixed-capacity history of the most recent values of one channel.
pub struct RollingWindow<T> {
    slots: Vec<T>,
    /// Slot of the oldest value.
    head: usize,
}

impl<T> View for RollingWindow<T> {
    type V = Seq<T>;

    /// The values held, oldest first.
    closed spec fn view(&self) -> Seq<T> {
        self.slots@.subrange(self.head as int, self.slots@.len() as int) + self.slots@.subrange(
            0,
            self.head as int,
        )
    }
}

impl<T> RollingWindow<T> {
    #[verifier::type_invariant]
    closed spec fn inv(&self) -> bool {
        self.head < self.slots@.len() || (self.head == 0 && self.slots@.len() == 0)
    }
}

impl<T: Copy> RollingWindow<T> {
    /// A window of `capacity` values, all equal to `fill`.
    pub fn new(capacity: usize, fill: T) -> (window: Self)
        ensures
            window@ == Seq::new(capacity as nat, |i: int| fill),
    {
        let mut slots: Vec<T> = Vec::new();
        let mut i: usize = 0;
        while i < capacity
            invariant
                i <= capacity,
                slots@ == Seq::new(i as nat, |k: int| fill),
            decreases capacity - i,
        {
            slots.push(fill);
            i += 1;
            assert(slots@ =~= Seq::new(i as nat, |k: int| fill));
        }
        let window = RollingWindow { slots, head: 0 };
        assert(window@ =~= Seq::new(capacity as nat, |i: int| fill));
        window
    }

    /// Number of values that the window holds, which never changes.
    pub fn capacity(&self) -> (capacity: usize)
        ensures
            capacity == self@.len(),
    {
        proof {
            use_type_invariant(self);
        }
        self.slots.len()
    }

    /// Takes `x` in as the newest value and drops the oldest.
    pub fn push(&mut self, x: T)
        ensures
            final(self)@ == slide(old(self)@, x),
            final(self)@.len() == old(self)@.len(),
    {
        proof {
            use_type_invariant(&*self);
        }
        let len: usize = self.slots.len();
        if len > 0 {
            let head: usize = self.head;
            self.slots[head] = x;
            self.head = if head + 1 == len {
                0
            } else {
                head + 1
            };
            assert(self@ =~= slide(old(self)@, x));
        }
    }

    /// The value at position `i`, where 0 is the oldest; `None` past the
    /// newest.
    pub fn get(&self, i: usize) -> (x: Option<T>)
        ensures
            x == if i < self@.len() {
                Some(self@[i as int])
            } else {
                None
            },
    {
        proof {
            use_type_invariant(self);
        }
        let len: usize = self.slots.len();
        if i >= len {
            return None;
        }
        let tail: usize = len - self.head;
        if i < tail {
            Some(self.slots[self.head + i])
        } else {
            Some(self.slots[i - tail])
        }
    }

    /// The newest value, if the window has room for any.
    pub fn newest(&self) -> (x: Option<T>)
        ensures
            x == if self@.len() == 0 {
                None
            } else {
                Some(self@.last())
            },
    {
        let len: usize = self.capacity();
        if len == 0 {
            None
        } else {
            self.get(len - 1)
        }
    }

    /// A copy of the whole window, oldest first.
    pub fn snapshot(&self) -> (values: Vec<T>)
        ensures
            values@ == self@,
    {
        let len: usize = self.capacity();
        let mut values: Vec<T> = Vec::new();
        let mut i: usize = 0;
        while i < len
            invariant
                i <= len,
                len == self@.len(),
                values@ == self@.subrange(0, i as int),
            decreases len - i,
        {
            match self.get(i) {
                Some(x) => values.push(x),
                None => {},
            }
            i += 1;
            assert(values@ =~= self@.subrange(0, i as int));
        }
        assert(values@ =~= self@);
        values
    }
}

/// Sliding never changes the length of a window.
pub proof fn lemma_slide_all_len<T>(s: Seq<T>, xs: Seq<T>)
    ensures
        slide_all(s, xs).len() == s.len(),
    decreases xs.len(),
{
    if xs.len() > 0 {
        lemma_slide_all_len(slide(s, xs[0]), xs.drop_first());
    }
}

/// A window that has taken in the values `xs` holds the last values of its
/// former content followed by `xs`, as many as fit.
pub proof fn lemma_slide_all_is_suffix<T>(s: Seq<T>, xs: Seq<T>)
    ensures
        slide_all(s, xs) == (s + xs).subrange(xs.len() as int, (xs.len() + s.len()) as int),
    decreases xs.len(),
{
    let n = xs.len() as int;
    let m = s.len() as int;
    if n == 0 {
        assert((s + xs).subrange(0, m) =~= s);
    } else if m == 0 {
        lemma_slide_all_is_suffix(s, xs.drop_first());
        assert(slide_all(s, xs) =~= (s + xs).subrange(n, n + m));
    } else {
        let next = slide(s, xs[0]);
        let rest = xs.drop_first();
        lemma_slide_all_is_suffix(next, rest);
        assert(next + rest =~= (s + xs).drop_first());
        assert((s + xs).drop_first().subrange(n - 1, n - 1 + m) =~= (s + xs).subrange(n, n + m));
    }
}

/// After at least as many pushes as the window has room for, the window
/// holds exactly the most recent values pushed, oldest first, and nothing
/// of what it held before.
pub proof fn lemma_window_holds_latest<T>(s: Seq<T>, xs: Seq<T>)
    requires
        xs.len() >= s.len(),
    ensures
        slide_all(s, xs).len() == s.len(),
        slide_all(s, xs) == xs.subrange(xs.len() - s.len(), xs.len() as int),
{
    lemma_slide_all_is_suffix(s, xs);
    assert((s + xs).subrange(xs.len() as int, (xs.len() + s.len()) as int) =~= xs.subrange(
        xs.len() - s.len(),
        xs.len() as int,
    ));
}

/// One push evicts exactly the oldest value and appends exactly the newest:
/// every value that stays moves one place towards the old end.
pub proof fn lemma_slide_shifts<T>(s: Seq<T>, x: T)
    requires
        s.len() > 0,
    ensures
        slide(s, x).len() == s.len(),
        slide(s, x).last() == x,
        forall|i: int| 0 <= i < s.len() - 1 ==> #[trigger] slide(s, x)[i] == s[i + 1],
{
}

} // verus!
