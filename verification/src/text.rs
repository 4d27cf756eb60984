use vstd::prelude::*;

verus! {

/// The largest value that `set_max_length` accepts: a buffer with a maximum
/// never holds more characters than this.
pub const BUFFER_MAX_SIZE: u32 = 65535;

/// The number of characters a buffer without a maximum can hold. The cap
/// keeps every character count within the signed 32-bit range of the counts
/// the buffer reports, and every byte count within 32 bits unsigned.
pub const BUFFER_CAPACITY: usize = 0x3FFF_FFFF;

/// Text buffer for a text actor.
///
/// The `Buffer` holds the actual text displayed in a text widget, together
/// with the maximum length its contents may grow to. All positions and
/// lengths are counted in characters, not bytes.
pub struct Buffer {
    text: String,
    max_length: u32,
}

impl Buffer {
    /// Every buffer keeps its maximum within `BUFFER_MAX_SIZE`, its contents
    /// within its maximum when one is set, and its contents within
    /// `BUFFER_CAPACITY` always.
    #[verifier::type_invariant]
    spec fn well_formed(self) -> bool {
        &&& self.max_length <= BUFFER_MAX_SIZE
        &&& self.max_length > 0 ==> self.text@.len() <= self.max_length
        &&& self.text@.len() <= BUFFER_CAPACITY
    }

    /// The characters the buffer holds.
    pub closed spec fn spec_text(self) -> Seq<char> {
        self.text@
    }

    /// The maximum number of characters the buffer may hold; zero when no
    /// maximum is set.
    pub closed spec fn spec_max_length(self) -> u32 {
        self.max_length
    }

    /// The number of characters the buffer can still grow to: its maximum
    /// when one is set, and `BUFFER_CAPACITY` otherwise.
    pub open spec fn spec_capacity(self) -> int {
        if self.spec_max_length() == 0 {
            BUFFER_CAPACITY as int
        } else {
            self.spec_max_length() as int
        }
    }

    /// Creates a new, empty buffer with no maximum length set.
    pub fn new() -> (buffer: Buffer)
        ensures
            buffer.spec_text() == Seq::<char>::empty(),
            buffer.spec_max_length() == 0,
    {
        Buffer { text: String::new(), max_length: 0 }
    }

    /// Lets a caller use the bound the buffer maintains internally: the
    /// contents never exceed the capacity, and the maximum never exceeds
    /// `BUFFER_MAX_SIZE`. The call does nothing at run time.
    pub fn contents_within_capacity(&self)
        ensures
            self.spec_text().len() <= self.spec_capacity(),
            self.spec_max_length() <= BUFFER_MAX_SIZE,
    {
        proof {
            use_type_invariant(self);
        }
    }

    /// Retrieves the contents of the buffer.
    pub fn get_text(&self) -> (text: String)
        ensures
            text@ == self.spec_text(),
    {
        self.text.clone()
    }

    /// Retrieves the length in characters of the buffer.
    pub fn get_length(&self) -> (length: i32)
        ensures
            length == self.spec_text().len(),
    {
        proof {
            use_type_invariant(self);
        }
        let length: usize = self.text.as_str().unicode_len();
        length as i32
    }

    /// Retrieves the maximum allowed length of the text in the buffer, or
    /// zero when none is set.
    pub fn get_max_length(&self) -> (max_length: i32)
        ensures
            max_length == self.spec_max_length(),
    {
        proof {
            use_type_invariant(self);
        }
        self.max_length as i32
    }

    /// Creates a new buffer with no maximum length set, holding `chars` cut
    /// down to `BUFFER_CAPACITY` if it is longer than that.
    pub fn new_with_text(chars: &str) -> (buffer: Buffer)
        ensures
            buffer.spec_text() == spec_truncated(chars@, BUFFER_CAPACITY as int),
            buffer.spec_max_length() == 0,
    {
        let mut buffer = Buffer::new();
        buffer.set_text(chars);
        buffer
    }

    /// Sets the text in the buffer, replacing the current contents; the new
    /// text is cut down to the buffer's capacity if it is longer.
    pub fn set_text(&mut self, chars: &str)
        ensures
            final(self).spec_text() == spec_truncated(chars@, old(self).spec_capacity()),
            final(self).spec_max_length() == old(self).spec_max_length(),
    {
        proof {
            use_type_invariant(&*self);
        }
        let cap: usize = if self.max_length == 0 {
            BUFFER_CAPACITY
        } else {
            self.max_length as usize
        };
        let length: usize = chars.unicode_len();
        if length <= cap {
            self.text = String::from_str(chars);
        } else {
            let head = chars.substring_char(0, cap);
            self.text = String::from_str(head);
        }
    }

    /// Retrieves the length in bytes of the buffer's contents, as the text
    /// encodes in UTF-8.
    pub fn get_bytes(&self) -> (bytes: u32)
        ensures
            bytes == vstd::utf8::encode_utf8(self.spec_text()).len(),
    {
        proof {
            use_type_invariant(self);
            lemma_encode_utf8_len(self.text@);
        }
        let bytes: usize = self.text.as_str().len();
        bytes as u32
    }

    /// Sets the maximum allowed length of the contents of the buffer, in
    /// characters, clamped to the range from zero to `BUFFER_MAX_SIZE`;
    /// zero removes the maximum. Contents longer than the new maximum are
    /// cut down to fit.
    pub fn set_max_length(&mut self, max_length: i32)
        ensures
            final(self).spec_max_length() == spec_clamped_max(max_length),
            final(self).spec_text() == spec_truncated(
                old(self).spec_text(),
                final(self).spec_capacity(),
            ),
    {
        proof {
            use_type_invariant(&*self);
        }
        let clamped: u32 = if max_length < 0 {
            0
        } else if max_length > 65535 {
            65535
        } else {
            max_length as u32
        };
        if clamped > 0 {
            let length: usize = self.text.as_str().unicode_len();
            if length > clamped as usize {
                let head = self.text.as_str().substring_char(0, clamped as usize);
                self.text = String::from_str(head);
            }
        }
        self.max_length = clamped;
    }

    /// Inserts `chars` into the contents of the buffer at `position`.
    ///
    /// A position out of bounds is coerced to the end of the contents, and
    /// text that would grow the buffer past its capacity is cut down to
    /// fit. Positions are counted in characters, not bytes. Returns the
    /// number of characters actually inserted.
    pub fn insert_text(&mut self, position: i32, chars: &str) -> (inserted: i32)
        ensures
            ({
                let length = old(self).spec_text().len() as int;
                let at = spec_clamped_position(length, position);
                let room = old(self).spec_capacity() - length;
                let n = if chars@.len() <= room {
                    chars@.len() as int
                } else {
                    room
                };
                &&& 0 <= inserted == n
                &&& final(self).spec_text() == old(self).spec_text().take(at) + chars@.take(n)
                    + old(self).spec_text().skip(at)
                &&& final(self).spec_max_length() == old(self).spec_max_length()
            }),
    {
        proof {
            use_type_invariant(&*self);
        }
        let length: usize = self.text.as_str().unicode_len();
        let at: usize = if position >= 0 && position as usize <= length {
            position as usize
        } else {
            length
        };
        let cap: usize = if self.max_length == 0 {
            BUFFER_CAPACITY
        } else {
            self.max_length as usize
        };
        let room: usize = cap - length;
        let given: usize = chars.unicode_len();
        let n: usize = if given <= room {
            given
        } else {
            room
        };
        let left = self.text.as_str().substring_char(0, at);
        let middle = chars.substring_char(0, n);
        let right = self.text.as_str().substring_char(at, length);
        let mut grown = String::from_str(left);
        grown.append(middle);
        grown.append(right);
        self.text = grown;
        n as i32
    }

    /// Deletes a sequence of characters from the buffer: `n_chars`
    /// characters starting at `position`, with a negative `n_chars`
    /// deleting all characters to the end of the contents.
    ///
    /// A position or count out of bounds is coerced to the contents.
    /// Positions are counted in characters, not bytes. Returns the number
    /// of characters actually deleted.
    pub fn delete_text(&mut self, position: i32, n_chars: i32) -> (deleted: i32)
        ensures
            ({
                let length = old(self).spec_text().len() as int;
                let at = spec_clamped_position(length, position);
                let n = if n_chars < 0 || at + n_chars > length {
                    length - at
                } else {
                    n_chars as int
                };
                &&& 0 <= deleted == n
                &&& final(self).spec_text() == old(self).spec_text().take(at) + old(
                    self,
                ).spec_text().skip(at + n)
                &&& final(self).spec_max_length() == old(self).spec_max_length()
            }),
    {
        proof {
            use_type_invariant(&*self);
        }
        let length: usize = self.text.as_str().unicode_len();
        let at: usize = if position >= 0 && position as usize <= length {
            position as usize
        } else {
            length
        };
        let rest: usize = length - at;
        let n: usize = if n_chars < 0 {
            rest
        } else if n_chars as usize > rest {
            rest
        } else {
            n_chars as usize
        };
        let left = self.text.as_str().substring_char(0, at);
        let right = self.text.as_str().substring_char(at + n, length);
        let mut shrunk = String::from_str(left);
        shrunk.append(right);
        self.text = shrunk;
        n as i32
    }
}

/// `chars` cut down to at most `cap` characters.
pub open spec fn spec_truncated(chars: Seq<char>, cap: int) -> Seq<char> {
    if chars.len() <= cap {
        chars
    } else {
        chars.take(cap)
    }
}

/// The maximum that `set_max_length` keeps for a requested value: clamped
/// to the range from zero to `BUFFER_MAX_SIZE`.
pub open spec fn spec_clamped_max(max_length: i32) -> u32 {
    if max_length < 0 {
        0u32
    } else if max_length > BUFFER_MAX_SIZE {
        BUFFER_MAX_SIZE
    } else {
        max_length as u32
    }
}

/// The position at which an edit lands in contents of length `length`: a
/// position out of bounds is coerced to the end.
pub open spec fn spec_clamped_position(length: int, position: i32) -> int {
    if 0 <= position && position <= length {
        position as int
    } else {
        length
    }
}

/// The UTF-8 encoding of a character sequence takes at least one and at
/// most four bytes per character.
pub proof fn lemma_encode_utf8_len(chars: Seq<char>)
    ensures
        chars.len() <= vstd::utf8::encode_utf8(chars).len() <= 4 * chars.len(),
    decreases chars.len(),
{
    if chars.len() > 0 {
        lemma_encode_utf8_len(chars.drop_first());
        assert(1 <= vstd::utf8::encode_scalar(chars[0] as u32).len() <= 4);
    }
}

/// Inserting characters into contents and deleting the same span again
/// leaves the contents as they were.
pub proof fn lemma_insert_then_delete(text: Seq<char>, inserted: Seq<char>, at: int)
    requires
        0 <= at <= text.len(),
    ensures
        ({
            let grown = text.take(at) + inserted + text.skip(at);
            grown.take(at) + grown.skip(at + inserted.len()) == text
        }),
{
    let grown = text.take(at) + inserted + text.skip(at);
    assert(grown.take(at) + grown.skip(at + inserted.len()) =~= text);
}

} // verus!

