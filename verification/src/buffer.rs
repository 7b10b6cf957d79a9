//! The bounded rolling window of recent keystrokes.
//!
//! Decoded characters are appended at the back; once the window holds more
//! than its capacity, the oldest characters fall off the front.  Backspace
//! pops the newest character, and a successful match clears the window.

use vstd::prelude::*;

verus! {

/// The rolling window keeps at most this many recent characters.
pub const BUFFER_CAPACITY: usize = 128;

/// `s` trimmed to the capacity: the newest `BUFFER_CAPACITY` characters
/// survive, the oldest are dropped from the front.
pub open spec fn clamped(s: Seq<char>) -> Seq<char> {
    if s.len() <= BUFFER_CAPACITY {
        s
    } else {
        s.skip(s.len() - BUFFER_CAPACITY)
    }
}

/// `s` with its newest character removed; empty stays empty.
pub open spec fn popped(s: Seq<char>) -> Seq<char> {
    if s.len() == 0 {
        s
    } else {
        s.drop_last()
    }
}

/// The bounded window of recent keystrokes that the matcher scans.
pub struct RollingBuffer {
    chars: Vec<char>,
}

impl View for RollingBuffer {
    type V = Seq<char>;

    closed spec fn view(&self) -> Seq<char> {
        self.chars@
    }
}

impl RollingBuffer {
    #[verifier::type_invariant]
    spec fn bounded(self) -> bool {
        self.chars@.len() <= BUFFER_CAPACITY
    }

    pub fn new() -> (b: Self)
        ensures
            b@ == Seq::<char>::empty(),
    {
        RollingBuffer { chars: Vec::new() }
    }

    pub fn len(&self) -> (n: usize)
        ensures
            n == self@.len(),
    {
        self.chars.len()
    }

    pub fn get(&self, i: usize) -> (c: char)
        requires
            i < self@.len(),
        ensures
            c == self@[i as int],
    {
        self.chars[i]
    }

    /// Appends one character, dropping the oldest if the window is full.
    pub fn push_char(&mut self, c: char)
        ensures
            final(self)@ == clamped(old(self)@.push(c)),
    {
        proof {
            use_type_invariant(&*self);
        }
        let mut chars: Vec<char> = Vec::new();
        core::mem::swap(&mut chars, &mut self.chars);
        if chars.len() == BUFFER_CAPACITY {
            chars.remove(0);
        }
        chars.push(c);
        proof {
            assert(chars@ =~= clamped(old(self)@.push(c)));
        }
        self.chars = chars;
    }

    /// Appends a whole decoded event, oldest characters falling off first.
    pub fn push_chars(&mut self, chars: &Vec<char>)
        ensures
            final(self)@ == clamped(old(self)@ + chars@),
    {
        proof {
            use_type_invariant(&*self);
            assert(old(self)@ + chars@.take(0) =~= old(self)@);
        }
        let mut i: usize = 0;
        while i < chars.len()
            invariant
                i <= chars@.len(),
                self@ == clamped(old(self)@ + chars@.take(i as int)),
            decreases chars@.len() - i,
        {
            proof {
                lemma_clamped_push(old(self)@ + chars@.take(i as int), chars@[i as int]);
                assert((old(self)@ + chars@.take(i as int)).push(chars@[i as int]) =~= old(
                    self,
                )@ + chars@.take(i + 1));
            }
            self.push_char(chars[i]);
            i = i + 1;
        }
        proof {
            assert(chars@.take(chars@.len() as int) =~= chars@);
        }
    }

    /// Backspace: removes the newest character, if any.
    pub fn pop(&mut self)
        ensures
            final(self)@ == popped(old(self)@),
    {
        proof {
            use_type_invariant(&*self);
        }
        let mut chars: Vec<char> = Vec::new();
        core::mem::swap(&mut chars, &mut self.chars);
        let _ = chars.pop();
        proof {
            assert(chars@ =~= popped(old(self)@));
        }
        self.chars = chars;
    }

    /// Empties the window, as after a successful match.
    pub fn clear(&mut self)
        ensures
            final(self)@ == Seq::<char>::empty(),
    {
        self.chars = Vec::new();
    }

    /// A copy of the window's contents, oldest first.
    pub fn contents(&self) -> (v: Vec<char>)
        ensures
            v@ == self@,
    {
        let mut v: Vec<char> = Vec::new();
        let mut i: usize = 0;
        while i < self.chars.len()
            invariant
                i <= self.chars@.len(),
                v@ == self.chars@.take(i as int),
            decreases self.chars@.len() - i,
        {
            v.push(self.chars[i]);
            proof {
                assert(v@ =~= self.chars@.take(i + 1));
            }
            i = i + 1;
        }
        proof {
            assert(self.chars@.take(self.chars@.len() as int) =~= self.chars@);
        }
        v
    }
}

/// Trimming commutes with appending: trimming, appending one character and
/// trimming again is the same as appending to the untrimmed sequence and
/// trimming once.
pub proof fn lemma_clamped_push(s: Seq<char>, c: char)
    ensures
        clamped(clamped(s).push(c)) == clamped(s.push(c)),
{
    if s.len() <= BUFFER_CAPACITY {
        assert(clamped(clamped(s).push(c)) =~= clamped(s.push(c)));
    } else {
        assert(clamped(clamped(s).push(c)) =~= clamped(s.push(c)));
    }
}

/// The window is bounded by its capacity, and when input overflows it the
/// oldest characters are the ones dropped: what remains is a suffix of the
/// full input history.
pub proof fn law_buffer_bounded(s: Seq<char>)
    ensures
        clamped(s).len() <= BUFFER_CAPACITY,
        s.len() <= BUFFER_CAPACITY ==> clamped(s) == s,
        s.len() > BUFFER_CAPACITY ==> clamped(s) == s.skip(s.len() - BUFFER_CAPACITY),
        forall|i: int|
            0 <= i < clamped(s).len() ==> #[trigger] clamped(s)[i] == s[i + (s.len()
                - clamped(s).len())],
{
}

} // verus!
