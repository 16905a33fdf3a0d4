//! Text handed to the platform: NUL-terminated UTF-16 and ASCII strings.

use vstd::prelude::*;

verus! {

/// The UTF-16 code units of one character: itself below U+10000, else a
/// high and a low surrogate.
pub open spec fn wide_units(c: char) -> Seq<u16> {
    let v = c as u32;
    if v < 0x10000 {
        seq![v as u16]
    } else {
        seq![(0xD800 + (v - 0x10000) / 0x400) as u16, (0xDC00 + (v - 0x10000) % 0x400) as u16]
    }
}

/// The UTF-16 encoding of a text, without a terminator.
pub open spec fn wide(s: Seq<char>) -> Seq<u16>
    decreases s.len(),
{
    if s.len() == 0 {
        Seq::empty()
    } else {
        wide(s.drop_last()) + wide_units(s.last())
    }
}

/// The ASCII characters of a text as signed bytes, in order; every other
/// character is left out.
pub open spec fn narrow(s: Seq<char>) -> Seq<i8>
    decreases s.len(),
{
    if s.len() == 0 {
        Seq::empty()
    } else if (s.last() as u32) < 128 {
        narrow(s.drop_last()).push(s.last() as u32 as i8)
    } else {
        narrow(s.drop_last())
    }
}

/// The characters of the basic plane as single 16-bit units, in order; every
/// character above U+FFFF is left out.
pub open spec fn basic_plane(s: Seq<char>) -> Seq<u16>
    decreases s.len(),
{
    if s.len() == 0 {
        Seq::empty()
    } else if (s.last() as u32) < 0x10000 {
        basic_plane(s.drop_last()).push(s.last() as u32 as u16)
    } else {
        basic_plane(s.drop_last())
    }
}

/// Encodes a text as UTF-16 and appends the terminating zero.
pub fn encode_wide(input: &str) -> (out: Vec<u16>)
    ensures
        out@ == wide(input@).push(0u16),
{
    let mut out: Vec<u16> = Vec::new();
    let n: usize = input.unicode_len();
    let mut i: usize = 0;
    while i < n
        invariant
            n == input@.len(),
            i <= n,
            out@ == wide(input@.take(i as int)),
        decreases n - i,
    {
        let c: char = input.get_char(i);
        let v: u32 = c as u32;
        proof {
            let next = input@.take(i as int + 1);
            assert(next.drop_last() == input@.take(i as int));
            assert(next.last() == c);
        }
        if v < 0x10000 {
            out.push(v as u16);
        } else {
            let w: u32 = v - 0x10000;
            out.push((0xD800 + w / 0x400) as u16);
            out.push((0xDC00 + w % 0x400) as u16);
        }
        i = i + 1;
    }
    proof {
        assert(input@.take(n as int) == input@);
    }
    out.push(0u16);
    out
}

/// Keeps the ASCII characters of a text, as signed bytes, and appends the
/// terminating zero.
pub fn encode_ascii(input: &str) -> (out: Vec<i8>)
    ensures
        out@ == narrow(input@).push(0i8),
{
    let mut out: Vec<i8> = Vec::new();
    let n: usize = input.unicode_len();
    let mut i: usize = 0;
    while i < n
        invariant
            n == input@.len(),
            i <= n,
            out@ == narrow(input@.take(i as int)),
        decreases n - i,
    {
        let c: char = input.get_char(i);
        let v: u32 = c as u32;
        proof {
            let next = input@.take(i as int + 1);
            assert(next.drop_last() == input@.take(i as int));
            assert(next.last() == c);
        }
        if v < 128 {
            out.push(v as i8);
        }
        i = i + 1;
    }
    proof {
        assert(input@.take(n as int) == input@);
    }
    out.push(0i8);
    out
}

/// Keeps the characters that fit one 16-bit unit and appends the terminating
/// zero. Unlike [`encode_wide`] it writes no surrogate pairs.
pub fn convert_widestring(input: &str) -> (out: Vec<u16>)
    ensures
        out@ == basic_plane(input@).push(0u16),
{
    let mut out: Vec<u16> = Vec::new();
    let n: usize = input.unicode_len();
    let mut i: usize = 0;
    while i < n
        invariant
            n == input@.len(),
            i <= n,
            out@ == basic_plane(input@.take(i as int)),
        decreases n - i,
    {
        let c: char = input.get_char(i);
        let v: u32 = c as u32;
        proof {
            let next = input@.take(i as int + 1);
            assert(next.drop_last() == input@.take(i as int));
            assert(next.last() == c);
        }
        if v < 0x10000 {
            out.push(v as u16);
        }
        i = i + 1;
    }
    proof {
        assert(input@.take(n as int) == input@);
    }
    out.push(0u16);
    out
}

/// A text of ASCII characters keeps every character when narrowed.
pub proof fn lemma_narrow_ascii(s: Seq<char>)
    requires
        forall|i: int| 0 <= i < s.len() ==> (#[trigger] s[i] as u32) < 128,
    ensures
        narrow(s).len() == s.len(),
        forall|i: int| 0 <= i < s.len() ==> #[trigger] narrow(s)[i] == s[i] as u32 as i8,
    decreases s.len(),
{
    if s.len() > 0 {
        lemma_narrow_ascii(s.drop_last());
    }
}

/// Narrowing never lengthens a text, and every byte it keeps is an ASCII
/// code.
pub proof fn lemma_narrow_bounds(s: Seq<char>)
    ensures
        narrow(s).len() <= s.len(),
        forall|i: int| 0 <= i < narrow(s).len() ==> 0 <= #[trigger] narrow(s)[i],
    decreases s.len(),
{
    if s.len() > 0 {
        lemma_narrow_bounds(s.drop_last());
    }
}

/// The UTF-16 encoding holds one or two units for each character.
pub proof fn lemma_wide_len(s: Seq<char>)
    ensures
        s.len() <= wide(s).len() <= 2 * s.len(),
    decreases s.len(),
{
    if s.len() > 0 {
        lemma_wide_len(s.drop_last());
    }
}

} // verus!
