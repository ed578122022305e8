use vstd::prelude::*;

verus! {

/// What a test ROM's debug output says about the test.
#[derive(Debug, Clone, Copy, PartialEq, Eq, Structural)]
pub enum DebugVerdict {
    /// Nothing was written.
    Empty,
    /// The output contains "Passed".
    Passed,
    /// The output contains "Failed" and not "Passed".
    Failed,
    /// Anything else.
    Other,
}

/// Whether `pattern` occurs in `text` at position `i`.
pub open spec fn occurs_at(text: Seq<char>, pattern: Seq<char>, i: int) -> bool {
    0 <= i && i + pattern.len() <= text.len() && text.subrange(i, i + pattern.len()) == pattern
}

/// Whether `pattern` occurs anywhere in `text`.
pub open spec fn contains(text: Seq<char>, pattern: Seq<char>) -> bool {
    exists|i: int| occurs_at(text, pattern, i)
}

/// Whether `pattern` occurs in `text` at position `i`.
fn matches_at(text: &Vec<char>, pattern: &str, i: usize) -> (r: bool)
    requires
        i <= text@.len(),
    ensures
        r == occurs_at(text@, pattern@, i as int),
{
    let n = pattern.unicode_len();
    let len = text.len();
    if n > len - i {
        return false;
    }
    let mut j: usize = 0;
    while j < n
        invariant
            n == pattern@.len(),
            len == text@.len(),
            i + n <= len,
            j <= n,
            forall|k: int| 0 <= k < j ==> text@[i + k] == pattern@[k],
        decreases n - j,
    {
        if text[i + j] != pattern.get_char(j) {
            assert(text@.subrange(i as int, i + n)[j as int] != pattern@[j as int]);
            return false;
        }
        j = j + 1;
    }
    assert(text@.subrange(i as int, i + n) =~= pattern@);
    true
}

/// Whether `pattern` occurs anywhere in `text`.
fn find(text: &Vec<char>, pattern: &str) -> (r: bool)
    ensures
        r == contains(text@, pattern@),
{
    let len = text.len();
    let mut i: usize = 0;
    while i < len
        invariant
            len == text@.len(),
            i <= len,
            forall|k: int| 0 <= k < i ==> !occurs_at(text@, pattern@, k),
        decreases len - i,
    {
        if matches_at(text, pattern, i) {
            return true;
        }
        i = i + 1;
    }
    if matches_at(text, pattern, len) {
        return true;
    }
    assert forall|k: int| !occurs_at(text@, pattern@, k) by {
        if 0 <= k && k + pattern@.len() <= text@.len() {
            assert(k <= i);
        }
    }
    false
}

/// Collects the characters that a test ROM writes to the serial port.
pub struct RomDebug {
    pub message: Vec<char>,
}

impl RomDebug {
    pub fn new() -> (r: RomDebug)
        ensures
            r.message@ == Seq::<char>::empty(),
    {
        RomDebug { message: Vec::new() }
    }

    pub fn add_char(&mut self, c: char)
        ensures
            final(self).message@ == old(self).message@.push(c),
    {
        self.message.push(c);
    }

    pub fn add_string(&mut self, s: &str)
        ensures
            final(self).message@ == old(self).message@ + s@,
    {
        let n = s.unicode_len();
        let mut i: usize = 0;
        while i < n
            invariant
                n == s@.len(),
                i <= n,
                self.message@ == old(self).message@ + s@.subrange(0, i as int),
            decreases n - i,
        {
            self.add_char(s.get_char(i));
            i = i + 1;
            assert(self.message@ =~= old(self).message@ + s@.subrange(0, i as int));
        }
        assert(s@.subrange(0, n as int) =~= s@);
    }

    /// The verdict of the output collected so far.
    pub fn verdict(&self) -> (r: DebugVerdict)
        ensures
            r == (if self.message@.len() == 0 {
                DebugVerdict::Empty
            } else if contains(self.message@, "Passed"@) {
                DebugVerdict::Passed
            } else if contains(self.message@, "Failed"@) {
                DebugVerdict::Failed
            } else {
                DebugVerdict::Other
            }),
    {
        if self.message.len() == 0 {
            DebugVerdict::Empty
        } else if find(&self.message, "Passed") {
            DebugVerdict::Passed
        } else if find(&self.message, "Failed") {
            DebugVerdict::Failed
        } else {
            DebugVerdict::Other
        }
    }
}

} // verus!
