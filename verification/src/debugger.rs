//! What the host's debugger asks of the processor.

use vstd::prelude::*;
use vstd::string::StringSliceAdditionalSpecFns;

verus! {

/// Settings of a debugging session.
#[derive(Debug)]
pub struct DebugOptions {
    /// Show the processor state after every instruction.
    pub debug_print: bool,
    /// Stop after every instruction.
    pub debug_step: bool,
    /// Stop when the program counter is one of these.
    pub break_points: Vec<u16>,
    /// Stop when one of these addresses is written.
    pub watch_points: Vec<u16>,
    pub pause_on_branch: bool,
}

impl DebugOptions {
    /// Same settings, the lists compared by what they hold.
    pub open spec fn equiv(self, other: DebugOptions) -> bool {
        &&& self.debug_print == other.debug_print
        &&& self.debug_step == other.debug_step
        &&& self.break_points@ == other.break_points@
        &&& self.watch_points@ == other.watch_points@
        &&& self.pause_on_branch == other.pause_on_branch
    }

    /// Printing on, everything else off, no stops.
    pub open spec fn is_default(self) -> bool {
        &&& self.debug_print
        &&& !self.debug_step
        &&& !self.pause_on_branch
        &&& self.break_points@ == Seq::<u16>::empty()
        &&& self.watch_points@ == Seq::<u16>::empty()
    }

    pub fn default() -> (r: Self)
        ensures
            r.is_default(),
    {
        DebugOptions {
            debug_print: true,
            debug_step: false,
            pause_on_branch: false,
            break_points: Vec::new(),
            watch_points: Vec::new(),
        }
    }
}

impl Clone for DebugOptions {
    fn clone(&self) -> (r: Self)
        ensures
            r.equiv(*self),
    {
        DebugOptions {
            debug_print: self.debug_print,
            debug_step: self.debug_step,
            break_points: self.break_points.clone(),
            watch_points: self.watch_points.clone(),
            pause_on_branch: self.pause_on_branch,
        }
    }
}


/// The value of a byte read as a digit: `0-9`, then the letters, of either
/// case, for ten and above.
pub open spec fn digit(c: u8) -> Option<int> {
    if 0x30 <= c <= 0x39 {
        Some(c - 0x30)
    } else if 0x61 <= c <= 0x7A {
        Some(c - 0x61 + 10)
    } else if 0x41 <= c <= 0x5A {
        Some(c - 0x41 + 10)
    } else {
        None
    }
}

/// The number that the bytes of `s` from `first` up to `end` write as
/// digits of a radix; `None` if one of them is no digit of the radix. No
/// bytes write 0.
pub open spec fn value(s: Seq<u8>, first: int, end: int, radix: int) -> Option<int>
    decreases end - first,
{
    if end <= first {
        Some(0)
    } else {
        match (value(s, first, end - 1, radix), digit(s[end - 1])) {
            (Some(v), Some(d)) => if d < radix {
                Some(v * radix + d)
            } else {
                None
            },
            _ => None,
        }
    }
}

/// The sixteen-bit number that the bytes of `s` from `start` on write in a
/// radix: an optional `+`, then at least one digit, and a value of at most
/// 65535.
pub open spec fn number(s: Seq<u8>, start: int, radix: int) -> Option<u16> {
    let first = if start < s.len() && s[start] == 0x2B {
        start + 1
    } else {
        start
    };
    if first >= s.len() {
        None
    } else {
        match value(s, first, s.len() as int, radix) {
            Some(v) => if v <= 0xFFFF {
                Some(v as u16)
            } else {
                None
            },
            None => None,
        }
    }
}

/// The bytes of `s` from `i` on begin with `pre`.
pub open spec fn begins_at(s: Seq<u8>, i: int, pre: Seq<u8>) -> bool {
    i + pre.len() <= s.len() && forall|j: int| 0 <= j < pre.len() ==> s[i + j] == pre[j]
}

/// Where the bytes of `s` from `i` on stop beginning with `pre`: behind all
/// the copies of `pre` that stand there one after the other.
pub open spec fn prefix_end(s: Seq<u8>, i: int, pre: Seq<u8>) -> int
    decreases s.len() - i,
{
    if pre.len() > 0 && 0 <= i && begins_at(s, i, pre) {
        prefix_end(s, i + pre.len(), pre)
    } else {
        i
    }
}

/// The mark of hexadecimal numbers, `0x`.
pub open spec fn hex_mark() -> Seq<u8> {
    seq![0x30u8, 0x78]
}

/// The mark of binary numbers, `0b`.
pub open spec fn binary_mark() -> Seq<u8> {
    seq![0x30u8, 0x62]
}

/// The number that the bytes of `s` from `start` on write: hexadecimal
/// behind `0x`, binary behind `0b`, decimal otherwise; a mark may be repeated.
pub open spec fn number16_at(s: Seq<u8>, start: int) -> Option<u16> {
    if begins_at(s, start, hex_mark()) {
        number(s, prefix_end(s, start, hex_mark()), 16)
    } else if begins_at(s, start, binary_mark()) {
        number(s, prefix_end(s, start, binary_mark()), 2)
    } else {
        number(s, start, 10)
    }
}

/// The number that a text writes.
pub open spec fn number16(s: Seq<u8>) -> Option<u16> {
    number16_at(s, 0)
}

/// Once the digits read so far write more than 65535, so do the digits up
/// to any later end.
#[verifier::rlimit(50)]
proof fn value_grows(s: Seq<u8>, first: int, n: int, end: int, radix: int)
    requires
        first <= n <= end,
        2 <= radix,
        value(s, first, n, radix) matches Some(v) && v > 0xFFFF,
    ensures
        value(s, first, end, radix) matches Some(v) ==> v > 0xFFFF,
    decreases end - n,
{
    if n < end {
        value_grows(s, first, n, end - 1, radix);
        if value(s, first, end, radix) is Some {
            let v = value(s, first, end - 1, radix)->0;
            let d = digit(s[end - 1])->0;
            assert(v * radix + d > 0xFFFF) by (nonlinear_arith)
                requires
                    v > 0xFFFF,
                    radix >= 2,
                    d >= 0,
            ;
        }
    }
}

/// Once a byte was no digit, the bytes up to any later end write no number.
#[verifier::rlimit(50)]
proof fn value_stays_none(s: Seq<u8>, first: int, n: int, end: int, radix: int)
    requires
        first <= n <= end,
        value(s, first, n, radix) is None,
    ensures
        value(s, first, end, radix) is None,
    decreases end - n,
{
    if n < end {
        value_stays_none(s, first, n, end - 1, radix);
    }
}

fn digit_of(c: u8) -> (r: Option<u32>)
    ensures
        match r {
            Some(d) => digit(c) == Some(d as int) && d < 36,
            None => digit(c) is None,
        },
{
    if 0x30 <= c && c <= 0x39 {
        Some((c - 0x30) as u32)
    } else if 0x61 <= c && c <= 0x7A {
        Some((c - 0x61) as u32 + 10)
    } else if 0x41 <= c && c <= 0x5A {
        Some((c - 0x41) as u32 + 10)
    } else {
        None
    }
}

/// Reads the bytes from `start` on as a number in a radix.
#[verifier::rlimit(50)]
fn parse_radix(bytes: &[u8], start: usize, radix: u32) -> (r: Option<u16>)
    requires
        start <= bytes@.len(),
        2 <= radix <= 36,
    ensures
        r == number(bytes@, start as int, radix as int),
{
    let mut i: usize = start;
    if i < bytes.len() && bytes[i] == 0x2B {
        i += 1;
    }
    let first: usize = i;
    if i == bytes.len() {
        return None;
    }
    let mut acc: u32 = 0;
    while i < bytes.len()
        invariant
            start <= first <= i <= bytes@.len(),
            first < bytes@.len(),
            first == if start < bytes@.len() && bytes@[start as int] == 0x2B {
                start + 1
            } else {
                start as int
            },
            2 <= radix <= 36,
            value(bytes@, first as int, i as int, radix as int) == Some(acc as int),
            acc <= 0xFFFF,
        ensures
            i == bytes@.len(),
        decreases bytes@.len() - i,
    {
        match digit_of(bytes[i]) {
            Some(d) => {
                if d >= radix {
                    proof {
                        assert(value(bytes@, first as int, i + 1, radix as int) is None);
                        value_stays_none(
                            bytes@,
                            first as int,
                            i + 1,
                            bytes@.len() as int,
                            radix as int,
                        );
                    }
                    return None;
                }
                assert(acc * radix + d <= 0xFFFF * 36 + 35) by (nonlinear_arith)
                    requires
                        acc <= 0xFFFF,
                        radix <= 36,
                        d < 36,
                ;
                let next: u32 = acc * radix + d;
                assert(value(bytes@, first as int, i + 1, radix as int) == Some(next as int));
                if next > 0xFFFF {
                    proof {
                        value_grows(
                            bytes@,
                            first as int,
                            i + 1,
                            bytes@.len() as int,
                            radix as int,
                        );
                    }
                    return None;
                }
                acc = next;
            },
            None => {
                proof {
                    assert(value(bytes@, first as int, i + 1, radix as int) is None);
                    value_stays_none(
                        bytes@,
                        first as int,
                        i + 1,
                        bytes@.len() as int,
                        radix as int,
                    );
                }
                return None;
            },
        }
        i += 1;
    }
    Some(acc as u16)
}

/// Whether the bytes from `start` on begin with `prefix`.
#[verifier::rlimit(50)]
fn starts_at(text: &[u8], start: usize, prefix: &[u8]) -> (r: bool)
    requires
        start <= text@.len(),
    ensures
        r == begins_at(text@, start as int, prefix@),
{
    if prefix.len() > text.len() - start {
        return false;
    }
    let mut k: usize = 0;
    while k < prefix.len()
        invariant
            k <= prefix.len(),
            start <= text.len(),
            prefix.len() <= text.len() - start,
            forall|j: int| 0 <= j < k ==> text@[start + j] == prefix@[j],
        decreases prefix.len() - k,
    {
        if text[start + k] != prefix[k] {
            return false;
        }
        k += 1;
    }
    true
}

/// Skips the copies of `prefix` that the bytes from `start` on begin with.
#[verifier::rlimit(50)]
fn skip_prefix(text: &[u8], start: usize, prefix: &[u8]) -> (end: usize)
    requires
        start <= text@.len(),
    ensures
        start <= end <= text@.len(),
        end == prefix_end(text@, start as int, prefix@),
{
    let mut i: usize = start;
    if prefix.len() == 0 {
        return i;
    }
    while starts_at(text, i, prefix)
        invariant
            start <= i <= text.len(),
            prefix.len() > 0,
            prefix_end(text@, i as int, prefix@) == prefix_end(text@, start as int, prefix@),
        decreases text@.len() - i,
    {
        assert(begins_at(text@, i as int, prefix@));
        assert(i + prefix.len() <= text.len());
        i += prefix.len();
    }
    i
}

/// The bytes from `start` on, read as a number with or without a mark.
#[verifier::rlimit(50)]
fn parse_at(bytes: &[u8], start: usize) -> (r: Option<u16>)
    requires
        start <= bytes@.len(),
    ensures
        r == number16_at(bytes@, start as int),
{
    let hex: [u8; 2] = [0x30, 0x78];
    let binary: [u8; 2] = [0x30, 0x62];
    assert(hex@ =~= hex_mark());
    assert(binary@ =~= binary_mark());
    if starts_at(bytes, start, hex.as_slice()) {
        let end: usize = skip_prefix(bytes, start, hex.as_slice());
        parse_radix(bytes, end, 16)
    } else if starts_at(bytes, start, binary.as_slice()) {
        let end: usize = skip_prefix(bytes, start, binary.as_slice());
        parse_radix(bytes, end, 2)
    } else {
        parse_radix(bytes, start, 10)
    }
}

/// Reads a number: hexadecimal behind `0x`, binary behind `0b`, decimal
/// otherwise; `None` if the text writes no number of sixteen bits.
pub fn parse_number16(s: &str) -> (r: Option<u16>)
    ensures
        r == number16(s.spec_bytes()),
{
    parse_at(s.as_bytes(), 0)
}

/// Reads the number behind the prefix `pre`, repeated or not, of an
/// argument such as `--break0x100`: `None` if the argument does not begin
/// with the prefix, `Some(None)` if what follows writes no number.
pub fn number_prefixed(pre: &str, s: &str) -> (r: Option<Option<u16>>)
    ensures
        begins_at(s.spec_bytes(), 0, pre.spec_bytes()) ==> r == Some(
            number16_at(s.spec_bytes(), prefix_end(s.spec_bytes(), 0, pre.spec_bytes())),
        ),
        !begins_at(s.spec_bytes(), 0, pre.spec_bytes()) ==> r is None,
{
    let text = s.as_bytes();
    let prefix = pre.as_bytes();
    if !starts_at(text, 0, prefix) {
        return None;
    }
    let end: usize = skip_prefix(text, 0, prefix);
    Some(parse_at(text, end))
}

/// What a word says of a switch: `on`, `1` and `true` switch on, `off`, `0`
/// and `false` switch off, and anything else says nothing.
pub open spec fn switch(word: Seq<u8>) -> Option<bool> {
    if word == seq![0x6Fu8, 0x6E] || word == seq![0x31u8] || word == seq![0x74u8, 0x72, 0x75, 0x65] {
        Some(true)
    } else if word == seq![0x6Fu8, 0x66, 0x66] || word == seq![0x30u8] || word == seq![
        0x66u8,
        0x61,
        0x6C,
        0x73,
        0x65,
    ] {
        Some(false)
    } else {
        None
    }
}

/// Reads a switch position.
#[verifier::rlimit(50)]
pub fn parse_switch(s: &str) -> (r: Option<bool>)
    ensures
        r == switch(s.spec_bytes()),
{
    let b = s.as_bytes();
    let n: usize = b.len();
    if (n == 2 && b[0] == 0x6F && b[1] == 0x6E) || (n == 1 && b[0] == 0x31) || (n == 4 && b[0]
        == 0x74 && b[1] == 0x72 && b[2] == 0x75 && b[3] == 0x65) {
        assert(b@ =~= seq![0x6Fu8, 0x6E] || b@ =~= seq![0x31u8] || b@ =~= seq![
            0x74u8,
            0x72,
            0x75,
            0x65,
        ]);
        Some(true)
    } else if (n == 3 && b[0] == 0x6F && b[1] == 0x66 && b[2] == 0x66) || (n == 1 && b[0] == 0x30)
        || (n == 5 && b[0] == 0x66 && b[1] == 0x61 && b[2] == 0x6C && b[3] == 0x73 && b[4]
        == 0x65) {
        assert(b@ =~= seq![0x6Fu8, 0x66, 0x66] || b@ =~= seq![0x30u8] || b@ =~= seq![
            0x66u8,
            0x61,
            0x6C,
            0x73,
            0x65,
        ]);
        Some(false)
    } else {
        None
    }
}

/// Sets a switch from the word behind its name: no word switches on, a
/// word that says nothing leaves the switch as it is. Answers whether the
/// word was understood.
pub fn with_option_none_is_true(b: &mut bool, opt: Option<&str>) -> (understood: bool)
    ensures
        match opt {
            None => *final(b) && understood,
            Some(s) => match switch(s.spec_bytes()) {
                Some(position) => *final(b) == position && understood,
                None => *final(b) == *old(b) && !understood,
            },
        },
{
    match opt {
        Some(s) => match parse_switch(s) {
            Some(position) => {
                *b = position;
                true
            },
            None => false,
        },
        None => {
            *b = true;
            true
        },
    }
}

/// Position of the first `x` in the list, if it is there.
pub open spec fn first_index(items: Seq<u16>, x: u16) -> Option<int>
    decreases items.len(),
{
    if items.len() == 0 {
        None
    } else if items[0] == x {
        Some(0)
    } else {
        match first_index(items.subrange(1, items.len() as int), x) {
            Some(i) => Some(i + 1),
            None => None,
        }
    }
}

/// Whether `x` is in the list.
pub fn contains_point(items: &Vec<u16>, x: u16) -> (r: bool)
    ensures
        r == items@.contains(x),
{
    let mut i: usize = 0;
    while i < items.len()
        invariant
            i <= items@.len(),
            forall|j: int| 0 <= j < i ==> items@[j] != x,
        decreases items@.len() - i,
    {
        if items[i] == x {
            return true;
        }
        i += 1;
    }
    false
}

/// Takes the first `x` out of the list and says whether there was one.
#[verifier::rlimit(50)]
pub fn remove_point(items: &mut Vec<u16>, x: u16) -> (removed: bool)
    ensures
        removed == old(items)@.contains(x),
        !removed ==> final(items)@ == old(items)@,
        removed ==> exists|i: int|
            0 <= i < old(items)@.len() && old(items)@[i] == x && (forall|j: int|
                0 <= j < i ==> old(items)@[j] != x) && final(items)@ == old(items)@.remove(i),
{
    let mut i: usize = 0;
    while i < items.len()
        invariant
            i <= items@.len(),
            *items == *old(items),
            forall|j: int| 0 <= j < i ==> items@[j] != x,
        decreases items@.len() - i,
    {
        if items[i] == x {
            items.remove(i);
            return true;
        }
        i += 1;
    }
    false
}

impl DebugOptions {
    /// The debugger stops before the instruction at `pc`: it steps, or `pc`
    /// is a break point.
    pub fn stops_at(&self, pc: u16) -> (r: bool)
        ensures
            r == (self.debug_step || self.break_points@.contains(pc)),
    {
        self.debug_step || contains_point(&self.break_points, pc)
    }

    /// The address is watched.
    pub fn watches(&self, loc: u16) -> (r: bool)
        ensures
            r == self.watch_points@.contains(loc),
    {
        contains_point(&self.watch_points, loc)
    }
}

} // verus!
