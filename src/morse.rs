//! Morse code for letters and digits, and the steps of a blinking transmitter.
use vstd::prelude::*;

verus! {

/// One signal of a Morse code.
#[derive(Clone, Copy, Debug, PartialEq, Eq, Structural)]
pub enum CodeBlip {
    Dot,
    Dash,
}

/// The Morse code of one character: `num_blips` signals, the `k`th a dash
/// when bit `k` of `dashes` is set and a dot otherwise.
#[derive(Clone, Copy, Debug, PartialEq, Eq, Structural)]
pub struct Code {
    pub dashes: u8,
    pub num_blips: u8,
}

/// Length and dash bits of the codes of `A` to `Z` (0 to 25) and `0` to `9`
/// (26 to 35).
pub open spec fn morse_table(i: int) -> (u8, u8) {
    if i == 0 {
        (2, 2)  // A
    } else if i == 1 {
        (4, 1)  // B
    } else if i == 2 {
        (4, 5)  // C
    } else if i == 3 {
        (3, 1)  // D
    } else if i == 4 {
        (1, 0)  // E
    } else if i == 5 {
        (4, 4)  // F
    } else if i == 6 {
        (3, 3)  // G
    } else if i == 7 {
        (4, 0)  // H
    } else if i == 8 {
        (2, 0)  // I
    } else if i == 9 {
        (4, 14)  // J
    } else if i == 10 {
        (3, 5)  // K
    } else if i == 11 {
        (4, 2)  // L
    } else if i == 12 {
        (2, 3)  // M
    } else if i == 13 {
        (2, 1)  // N
    } else if i == 14 {
        (3, 7)  // O
    } else if i == 15 {
        (4, 6)  // P
    } else if i == 16 {
        (4, 11)  // Q
    } else if i == 17 {
        (3, 2)  // R
    } else if i == 18 {
        (3, 0)  // S
    } else if i == 19 {
        (1, 1)  // T
    } else if i == 20 {
        (3, 4)  // U
    } else if i == 21 {
        (4, 8)  // V
    } else if i == 22 {
        (3, 6)  // W
    } else if i == 23 {
        (4, 9)  // X
    } else if i == 24 {
        (4, 13)  // Y
    } else if i == 25 {
        (4, 3)  // Z
    } else if i == 26 {
        (5, 31)  // 0
    } else if i == 27 {
        (5, 30)  // 1
    } else if i == 28 {
        (5, 28)  // 2
    } else if i == 29 {
        (5, 24)  // 3
    } else if i == 30 {
        (5, 16)  // 4
    } else if i == 31 {
        (5, 0)  // 5
    } else if i == 32 {
        (5, 1)  // 6
    } else if i == 33 {
        (5, 3)  // 7
    } else if i == 34 {
        (5, 7)  // 8
    } else {
        (5, 15)  // 9
    }
}

/// The code at position `i` of the table.
pub open spec fn table_code(i: int) -> Code {
    Code { num_blips: morse_table(i).0, dashes: morse_table(i).1 }
}

/// Position in the table of the code for byte `c`: letters of either case,
/// then digits; `None` for any other byte.
pub open spec fn table_index(c: u8) -> Option<int> {
    if 97 <= c <= 122 {
        Some(c - 97)
    } else if 65 <= c <= 90 {
        Some(c - 65)
    } else if 48 <= c <= 57 {
        Some(c - 22)
    } else {
        None
    }
}

/// The code for byte `c`, if it has one.
pub open spec fn code_of(c: u8) -> Option<Code> {
    match table_index(c) {
        Some(i) => Some(table_code(i)),
        None => None,
    }
}

fn code_at(i: u8) -> (r: Code)
    requires
        i < 36,
    ensures
        r == table_code(i as int),
{
    let (num_blips, dashes): (u8, u8) =
    if i == 0 {
        (2, 2)  // A
    } else if i == 1 {
        (4, 1)  // B
    } else if i == 2 {
        (4, 5)  // C
    } else if i == 3 {
        (3, 1)  // D
    } else if i == 4 {
        (1, 0)  // E
    } else if i == 5 {
        (4, 4)  // F
    } else if i == 6 {
        (3, 3)  // G
    } else if i == 7 {
        (4, 0)  // H
    } else if i == 8 {
        (2, 0)  // I
    } else if i == 9 {
        (4, 14)  // J
    } else if i == 10 {
        (3, 5)  // K
    } else if i == 11 {
        (4, 2)  // L
    } else if i == 12 {
        (2, 3)  // M
    } else if i == 13 {
        (2, 1)  // N
    } else if i == 14 {
        (3, 7)  // O
    } else if i == 15 {
        (4, 6)  // P
    } else if i == 16 {
        (4, 11)  // Q
    } else if i == 17 {
        (3, 2)  // R
    } else if i == 18 {
        (3, 0)  // S
    } else if i == 19 {
        (1, 1)  // T
    } else if i == 20 {
        (3, 4)  // U
    } else if i == 21 {
        (4, 8)  // V
    } else if i == 22 {
        (3, 6)  // W
    } else if i == 23 {
        (4, 9)  // X
    } else if i == 24 {
        (4, 13)  // Y
    } else if i == 25 {
        (4, 3)  // Z
    } else if i == 26 {
        (5, 31)  // 0
    } else if i == 27 {
        (5, 30)  // 1
    } else if i == 28 {
        (5, 28)  // 2
    } else if i == 29 {
        (5, 24)  // 3
    } else if i == 30 {
        (5, 16)  // 4
    } else if i == 31 {
        (5, 0)  // 5
    } else if i == 32 {
        (5, 1)  // 6
    } else if i == 33 {
        (5, 3)  // 7
    } else if i == 34 {
        (5, 7)  // 8
    } else {
        (5, 15)  // 9
    };
    Code { num_blips, dashes }
}

impl Code {
    /// The `k`th signal.
    pub open spec fn spec_blip(self, k: int) -> CodeBlip {
        if (self.dashes >> (k as u8)) & 1u8 == 1u8 {
            CodeBlip::Dash
        } else {
            CodeBlip::Dot
        }
    }

    /// The `k`th signal.
    pub fn blip(&self, k: u8) -> (r: CodeBlip)
        requires
            k < 8,
        ensures
            r == self.spec_blip(k as int),
    {
        if (self.dashes >> k) & 1u8 == 1u8 {
            CodeBlip::Dash
        } else {
            CodeBlip::Dot
        }
    }
}

/// The code of the character at `char_index` of the first `input_len` bytes
/// of `user_input`; `None` past the end or for a byte without a code.
pub fn next_letter(char_index: usize, input_len: usize, user_input: &[u8; 128]) -> (r: Option<Code>)
    requires
        input_len <= 128,
    ensures
        r == if char_index >= input_len { None } else { code_of(user_input@[char_index as int]) },
{
    if char_index >= input_len {
        return None;
    }
    let c: u8 = user_input[char_index];
    if c > 96 && c < 123 {
        Some(code_at(c - 97))
    } else if c > 64 && c < 91 {
        Some(code_at(c - 65))
    } else if c > 47 && c < 58 {
        Some(code_at(c - 22))
    } else {
        None
    }
}

/// Pause after a signal: between signals of a letter, between letters, or
/// between words.
#[derive(Clone, Copy, Debug, PartialEq, Eq, Structural)]
pub enum Gap {
    Signal,
    Letter,
    Word,
}

/// What the transmitter does in one step: optionally restart the message,
/// optionally light the LED for a dot or a dash, then optionally pause with
/// the LED off.
#[derive(Clone, Copy, Debug, PartialEq, Eq, Structural)]
pub struct BlinkAction {
    pub restarted: bool,
    pub blip: Option<CodeBlip>,
    pub gap: Option<Gap>,
}

/// Where the transmitter is in the message: the character being sent, the
/// signal within its code, and that code (`None` for a byte without one).
#[derive(Clone, Copy, Debug, PartialEq, Eq, Structural)]
pub struct BlinkState {
    pub char_index: usize,
    pub code_index: usize,
    pub current: Option<Code>,
}

/// Every code of the table has one to five signals.
proof fn lemma_table_lengths(i: int)
    requires
        0 <= i < 36,
    ensures
        1 <= table_code(i).num_blips <= 5,
{
}

impl BlinkState {
    /// The signal index lies within the current code, which has at most five signals.
    pub open spec fn wf(self) -> bool {
        self.current matches Some(c) ==> self.code_index < c.num_blips && c.num_blips <= 5
    }

    /// The code at a position of the message, if it is within the first
    /// `input_len` bytes and has one.
    pub open spec fn letter_at(char_index: int, input_len: int, user_input: Seq<u8>) -> Option<Code> {
        if char_index >= input_len { None } else { code_of(user_input[char_index]) }
    }

    /// The state and action of one step.
    pub open spec fn spec_step(self, input_len: int, user_input: Seq<u8>) -> (BlinkState, BlinkAction) {
        if self.char_index >= input_len {
            (
                BlinkState { char_index: 0, code_index: 0, current: Self::letter_at(0, input_len, user_input) },
                BlinkAction { restarted: true, blip: None, gap: Some(Gap::Word) },
            )
        } else {
            match self.current {
                Some(c) => {
                    let blip = Some(c.spec_blip(self.code_index as int));
                    if self.code_index + 1 >= c.num_blips {
                        let next = Self::letter_at(self.char_index + 1, input_len, user_input);
                        (
                            BlinkState { char_index: (self.char_index + 1) as usize, code_index: 0, current: next },
                            BlinkAction {
                                restarted: false,
                                blip,
                                gap: Some(if next is None { Gap::Word } else { Gap::Letter }),
                            },
                        )
                    } else {
                        (
                            BlinkState { code_index: (self.code_index + 1) as usize, ..self },
                            BlinkAction { restarted: false, blip, gap: Some(Gap::Signal) },
                        )
                    }
                },
                None => (
                    BlinkState {
                        char_index: (self.char_index + 1) as usize,
                        code_index: 0,
                        current: Self::letter_at(self.char_index + 1, input_len, user_input),
                    },
                    BlinkAction { restarted: false, blip: None, gap: None },
                ),
            }
        }
    }

    /// The start of a message: its first character.
    pub fn start(input_len: usize, user_input: &[u8; 128]) -> (r: BlinkState)
        requires
            input_len <= 128,
        ensures
            r.wf(),
            r.char_index == 0,
            r.code_index == 0,
            r.current == Self::letter_at(0, input_len as int, user_input@),
    {
        let current = next_letter(0, input_len, user_input);
        proof {
            if input_len > 0 {
                if let Some(i) = table_index(user_input@[0]) {
                    lemma_table_lengths(i);
                }
            }
        }
        BlinkState { char_index: 0, code_index: 0, current }
    }

    /// One step of the transmitter over the first `input_len` bytes of
    /// `user_input`. Past the end it restarts with a word gap; within a code
    /// it sends the next signal followed by a signal gap, or, after the last
    /// signal, by a letter gap (a word gap when no code follows); a byte
    /// without a code is skipped silently.
    pub fn step(&mut self, input_len: usize, user_input: &[u8; 128]) -> (r: BlinkAction)
        requires
            old(self).wf(),
            input_len <= 128,
        ensures
            final(self).wf(),
            (*final(self), r) == old(self).spec_step(input_len as int, user_input@),
    {
        if self.char_index >= input_len {
            *self = BlinkState::start(input_len, user_input);
            return BlinkAction { restarted: true, blip: None, gap: Some(Gap::Word) };
        }
        let next_index = self.char_index + 1;
        match self.current {
            Some(c) => {
                let blip = c.blip(self.code_index as u8);
                if self.code_index + 1 >= c.num_blips as usize {
                    let next = next_letter(next_index, input_len, user_input);
                    proof {
                        if next_index < input_len {
                            if let Some(i) = table_index(user_input@[next_index as int]) {
                                lemma_table_lengths(i);
                            }
                        }
                    }
                    *self = BlinkState { char_index: next_index, code_index: 0, current: next };
                    let gap = if next.is_none() { Gap::Word } else { Gap::Letter };
                    BlinkAction { restarted: false, blip: Some(blip), gap: Some(gap) }
                } else {
                    self.code_index = self.code_index + 1;
                    BlinkAction { restarted: false, blip: Some(blip), gap: Some(Gap::Signal) }
                }
            },
            None => {
                let next = next_letter(next_index, input_len, user_input);
                proof {
                    if next_index < input_len {
                        if let Some(i) = table_index(user_input@[next_index as int]) {
                            lemma_table_lengths(i);
                        }
                    }
                }
                *self = BlinkState { char_index: next_index, code_index: 0, current: next };
                BlinkAction { restarted: false, blip: None, gap: None }
            },
        }
    }
}

/// Byte that clears the message.
pub const SENTINEL: u8 = 33;

/// Longest message kept.
pub const MESSAGE_CAPACITY: usize = 128;

/// What a received byte did to the message.
#[derive(Clone, Copy, Debug, PartialEq, Eq, Structural)]
pub enum ByteEvent {
    /// The sentinel: the message is now empty and blinking stops.
    Cleared,
    /// A line end: nothing is stored.
    LineEnd,
    /// Appended to the message.
    Stored,
    /// The message is full: the byte is dropped.
    Dropped,
}

/// Takes one received byte into the message held in the first `input_len`
/// bytes of `user_input`.
pub fn accept_byte(user_input: &mut [u8; 128], input_len: &mut usize, b: u8) -> (r: ByteEvent)
    requires
        *old(input_len) <= MESSAGE_CAPACITY,
    ensures
        *final(input_len) <= MESSAGE_CAPACITY,
        b == SENTINEL ==> r == ByteEvent::Cleared && *final(input_len) == 0 && final(user_input)@ == old(user_input)@,
        b != SENTINEL && (b == 10 || b == 13) ==> {
            &&& r == ByteEvent::LineEnd
            &&& *final(input_len) == *old(input_len)
            &&& final(user_input)@ == old(user_input)@
        },
        b != SENTINEL && b != 10 && b != 13 && *old(input_len) < MESSAGE_CAPACITY ==> {
            &&& r == ByteEvent::Stored
            &&& *final(input_len) == *old(input_len) + 1
            &&& final(user_input)@ == old(user_input)@.update(*old(input_len) as int, b)
        },
        b != SENTINEL && b != 10 && b != 13 && *old(input_len) >= MESSAGE_CAPACITY ==> {
            &&& r == ByteEvent::Dropped
            &&& *final(input_len) == *old(input_len)
            &&& final(user_input)@ == old(user_input)@
        },
{
    if b == SENTINEL {
        *input_len = 0;
        ByteEvent::Cleared
    } else if b == 10 || b == 13 {
        ByteEvent::LineEnd
    } else if *input_len < MESSAGE_CAPACITY {
        user_input.set(*input_len, b);
        *input_len = *input_len + 1;
        ByteEvent::Stored
    } else {
        ByteEvent::Dropped
    }
}

} // verus!
