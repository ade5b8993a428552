//! Hexadecimal rendering of device serials and the latch that counts the
//! tasks still running at shutdown.

use vstd::prelude::*;
use vstd::string::*;

verus! {

/// The upper-case hexadecimal digit of a value below sixteen.
pub open spec fn hex_digit(n: u8) -> char {
    if n == 0 {
        '0'
    } else if n == 1 {
        '1'
    } else if n == 2 {
        '2'
    } else if n == 3 {
        '3'
    } else if n == 4 {
        '4'
    } else if n == 5 {
        '5'
    } else if n == 6 {
        '6'
    } else if n == 7 {
        '7'
    } else if n == 8 {
        '8'
    } else if n == 9 {
        '9'
    } else if n == 10 {
        'A'
    } else if n == 11 {
        'B'
    } else if n == 12 {
        'C'
    } else if n == 13 {
        'D'
    } else if n == 14 {
        'E'
    } else {
        'F'
    }
}

/// Two upper-case hexadecimal digits per byte, high nibble first.
pub open spec fn hex_of(bytes: Seq<u8>) -> Seq<char> {
    Seq::new(
        2 * bytes.len(),
        |i: int|
            if i % 2 == 0 {
                hex_digit(bytes[i / 2] / 16)
            } else {
                hex_digit(bytes[i / 2] % 16)
            },
    )
}

fn hex_digit_str(n: u8) -> (s: &'static str)
    requires
        n < 16,
    ensures
        s@ == seq![hex_digit(n)],
{
    proof {
        reveal_strlit("0");
        reveal_strlit("1");
        reveal_strlit("2");
        reveal_strlit("3");
        reveal_strlit("4");
        reveal_strlit("5");
        reveal_strlit("6");
        reveal_strlit("7");
        reveal_strlit("8");
        reveal_strlit("9");
        reveal_strlit("A");
        reveal_strlit("B");
        reveal_strlit("C");
        reveal_strlit("D");
        reveal_strlit("E");
        reveal_strlit("F");
    }
    let s: &'static str = match n {
        0 => "0",
        1 => "1",
        2 => "2",
        3 => "3",
        4 => "4",
        5 => "5",
        6 => "6",
        7 => "7",
        8 => "8",
        9 => "9",
        10 => "A",
        11 => "B",
        12 => "C",
        13 => "D",
        14 => "E",
        _ => "F",
    };
    assert(s@ =~= seq![hex_digit(n)]);
    s
}

/// Renders bytes as upper-case hexadecimal, two digits per byte.
pub fn bytes_to_hex(bytes: &[u8]) -> (s: String)
    ensures
        s@ == hex_of(bytes@),
{
    let mut s = String::new();
    let mut i: usize = 0;
    while i < bytes.len()
        invariant
            i <= bytes.len(),
            s@ == hex_of(bytes@.take(i as int)),
        decreases bytes.len() - i,
    {
        let byte: u8 = bytes[i];
        s.append(hex_digit_str(byte / 16));
        s.append(hex_digit_str(byte % 16));
        i += 1;
        assert(s@ =~= hex_of(bytes@.take(i as int)));
    }
    assert(bytes@.take(i as int) =~= bytes@);
    s
}

/// A count of running tasks that the orchestrator waits on before it exits.
pub trait CountDownLatch {
    /// How many tasks have been counted up and not yet counted down.
    spec fn count(&self) -> nat;

    /// Registers one more running task.
    fn count_up(&mut self)
        requires
            old(self).count() < usize::MAX,
        ensures
            final(self).count() == old(self).count() + 1,
    ;

    /// Registers that one running task has ended.
    fn count_down(&mut self)
        requires
            old(self).count() > 0,
        ensures
            final(self).count() == old(self).count() - 1,
    ;

    /// Says whether every counted task has ended; a caller that waits for the
    /// drain keeps waiting while this is `false`.
    fn wait_for_zero(&self) -> (drained: bool)
        ensures
            drained == (self.count() == 0),
    ;
}

/// A latch backed by a single `usize`.
#[derive(Debug, Clone)]
pub struct USizeCountDownLatch {
    counter: usize,
}

impl USizeCountDownLatch {
    /// A latch on which no task is counted.
    pub fn new() -> (latch: USizeCountDownLatch)
        ensures
            latch.count() == 0,
    {
        USizeCountDownLatch { counter: 0 }
    }

    /// The number of tasks counted up and not yet counted down.
    pub fn value(&self) -> (value: usize)
        ensures
            value == self.count(),
    {
        self.counter
    }
}

impl CountDownLatch for USizeCountDownLatch {
    closed spec fn count(&self) -> nat {
        self.counter as nat
    }

    fn count_up(&mut self) {
        self.counter = self.counter + 1;
    }

    fn count_down(&mut self) {
        self.counter = self.counter - 1;
    }

    fn wait_for_zero(&self) -> (drained: bool) {
        self.counter == 0
    }
}

} // verus!
