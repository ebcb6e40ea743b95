//! Textual attribute values: the enumerated settings a pin exposes through
//! its attribute files, and the parsing and rendering of their file
//! representations.  Attribute files carry short ASCII words, possibly
//! surrounded by whitespace (a trailing newline is typical).

use vstd::prelude::*;

use crate::error::Error;
use crate::sys::{bytes_to_string, lossy_utf8};

verus! {

/// The direction setting of a pin.  `High` and `Low` configure an output
/// together with its initial level, for glitch-free setup.
#[derive(Clone, Copy, Debug, PartialEq, Eq, Structural)]
pub enum Direction {
    In,
    Out,
    High,
    Low,
}

/// The edge setting of a pin: which transitions of its value trigger a
/// readiness notification for pollers.
#[derive(Clone, Copy, Debug, PartialEq, Eq, Structural)]
pub enum Edge {
    NoInterrupt,
    RisingEdge,
    FallingEdge,
    BothEdges,
}

/// The bytes that count as whitespace when an attribute file's content is
/// trimmed: horizontal tab through carriage return, and space.
pub open spec fn is_space(b: u8) -> bool {
    9 <= b <= 13 || b == 32
}

/// `s` without its leading whitespace.
pub open spec fn drop_leading(s: Seq<u8>) -> Seq<u8>
    decreases s.len(),
{
    if s.len() > 0 && is_space(s[0]) {
        drop_leading(s.drop_first())
    } else {
        s
    }
}

/// `s` without its trailing whitespace.
pub open spec fn drop_trailing(s: Seq<u8>) -> Seq<u8>
    decreases s.len(),
{
    if s.len() > 0 && is_space(s[s.len() - 1]) {
        drop_trailing(s.drop_last())
    } else {
        s
    }
}

/// `s` without surrounding whitespace.
pub open spec fn trimmed(s: Seq<u8>) -> Seq<u8> {
    drop_trailing(drop_leading(s))
}

proof fn lemma_drop_leading_at(s: Seq<u8>, i: int)
    requires
        0 <= i <= s.len(),
        forall|k: int| 0 <= k < i ==> is_space(s[k]),
        i < s.len() ==> !is_space(s[i]),
    ensures
        drop_leading(s) =~= s.subrange(i, s.len() as int),
    decreases i,
{
    if i == 0 {
        if s.len() > 0 && is_space(s[0]) {
            assert(!is_space(s[0]));
        }
    } else {
        let t = s.drop_first();
        assert(t =~= s.subrange(1, s.len() as int));
        lemma_drop_leading_at(t, i - 1);
        assert(t.subrange(i - 1, t.len() as int) =~= s.subrange(i, s.len() as int));
    }
}

proof fn lemma_drop_trailing_at(s: Seq<u8>, j: int)
    requires
        0 <= j <= s.len(),
        forall|k: int| j <= k < s.len() ==> is_space(s[k]),
        j > 0 ==> !is_space(s[j - 1]),
    ensures
        drop_trailing(s) =~= s.subrange(0, j),
    decreases s.len() - j,
{
    if j == s.len() {
        if s.len() > 0 && is_space(s[s.len() - 1]) {
            let t = s.drop_last();
            assert(t =~= s.subrange(0, s.len() - 1));
            lemma_drop_trailing_at(t, j - 1);
        } else {
            assert(s =~= s.subrange(0, j));
        }
    } else {
        if s.len() > 0 && is_space(s[s.len() - 1]) {
            let t = s.drop_last();
            assert(t =~= s.subrange(0, s.len() - 1));
            lemma_drop_trailing_at(t, j);
            assert(t.subrange(0, j) =~= s.subrange(0, j));
        }
    }
}

/// The bounds of the trimmed region of `s`: the content between them is
/// `s` without surrounding whitespace.
fn trim_bounds(s: &[u8]) -> (b: (usize, usize))
    ensures
        b.0 <= b.1 <= s@.len(),
        s@.subrange(b.0 as int, b.1 as int) == trimmed(s@),
{
    let n: usize = s.len();
    let mut lo: usize = 0;
    while lo < n && is_space_byte(s[lo])
        invariant
            0 <= lo <= n,
            n == s@.len(),
            forall|k: int| 0 <= k < lo ==> is_space(s@[k]),
        decreases n - lo,
    {
        lo += 1;
    }
    let mut hi: usize = n;
    while hi > lo && is_space_byte(s[hi - 1])
        invariant
            lo <= hi <= n,
            n == s@.len(),
            forall|k: int| 0 <= k < lo ==> is_space(s@[k]),
            lo < s@.len() ==> !is_space(s@[lo as int]),
            forall|k: int| hi <= k < n ==> is_space(s@[k]),
        decreases hi,
    {
        hi -= 1;
    }
    proof {
        lemma_drop_leading_at(s@, lo as int);
        let t = s@.subrange(lo as int, s@.len() as int);
        lemma_drop_trailing_at(t, hi - lo);
        assert(t.subrange(0, hi - lo) =~= s@.subrange(lo as int, hi as int));
    }
    (lo, hi)
}

/// Whether a byte counts as whitespace for trimming.
fn is_space_byte(b: u8) -> (r: bool)
    ensures
        r == is_space(b),
{
    9 <= b && b <= 13 || b == 32
}

/// Whether the region `lo..hi` of `s` holds exactly the bytes of `w`.
fn region_eq(s: &[u8], lo: usize, hi: usize, w: &[u8]) -> (r: bool)
    requires
        lo <= hi <= s@.len(),
    ensures
        r == (s@.subrange(lo as int, hi as int) =~= w@),
{
    if hi - lo != w.len() {
        return false;
    }
    let mut k: usize = 0;
    while k < w.len()
        invariant
            lo <= hi <= s@.len(),
            hi - lo == w@.len(),
            0 <= k <= w@.len(),
            forall|t: int| 0 <= t < k ==> s@[lo + t] == w@[t],
        decreases w@.len() - k,
    {
        if s[lo + k] != w[k] {
            assert(s@.subrange(lo as int, hi as int)[k as int] != w@[k as int]);
            return false;
        }
        k += 1;
    }
    assert(s@.subrange(lo as int, hi as int) =~= w@);
    true
}

/// The file representation of a direction setting.
pub open spec fn direction_bytes(d: Direction) -> Seq<u8> {
    match d {
        Direction::In => seq!['i' as u8, 'n' as u8],
        Direction::Out => seq!['o' as u8, 'u' as u8, 't' as u8],
        Direction::High => seq!['h' as u8, 'i' as u8, 'g' as u8, 'h' as u8],
        Direction::Low => seq!['l' as u8, 'o' as u8, 'w' as u8],
    }
}

/// The file representation of an edge setting.
pub open spec fn edge_bytes(e: Edge) -> Seq<u8> {
    match e {
        Edge::NoInterrupt => seq!['n' as u8, 'o' as u8, 'n' as u8, 'e' as u8],
        Edge::RisingEdge => seq!['r' as u8, 'i' as u8, 's' as u8, 'i' as u8, 'n' as u8, 'g' as u8],
        Edge::FallingEdge => seq![
            'f' as u8,
            'a' as u8,
            'l' as u8,
            'l' as u8,
            'i' as u8,
            'n' as u8,
            'g' as u8,
        ],
        Edge::BothEdges => seq!['b' as u8, 'o' as u8, 't' as u8, 'h' as u8],
    }
}

/// No two direction settings share a file representation.
proof fn lemma_direction_words_distinct()
    ensures
        forall|a: Direction, b: Direction| a != b ==> direction_bytes(a) != direction_bytes(b),
{
    assert(direction_bytes(Direction::Out)[0] != direction_bytes(Direction::Low)[0]);
}

/// No two edge settings share a file representation.
proof fn lemma_edge_words_distinct()
    ensures
        forall|a: Edge, b: Edge| a != b ==> edge_bytes(a) != edge_bytes(b),
{
    assert(edge_bytes(Edge::NoInterrupt)[0] != edge_bytes(Edge::BothEdges)[0]);
}

/// Renders the word written to the `direction` attribute file.
pub fn direction_word(d: Direction) -> (v: Vec<u8>)
    ensures
        v@ == direction_bytes(d),
{
    let mut v: Vec<u8> = Vec::new();
    match d {
        Direction::In => {
            v.push('i' as u8);
            v.push('n' as u8);
        }
        Direction::Out => {
            v.push('o' as u8);
            v.push('u' as u8);
            v.push('t' as u8);
        }
        Direction::High => {
            v.push('h' as u8);
            v.push('i' as u8);
            v.push('g' as u8);
            v.push('h' as u8);
        }
        Direction::Low => {
            v.push('l' as u8);
            v.push('o' as u8);
            v.push('w' as u8);
        }
    }
    proof {
        assert(v@ =~= direction_bytes(d));
    }
    v
}

/// Renders the word written to the `edge` attribute file.
pub fn edge_word(e: Edge) -> (v: Vec<u8>)
    ensures
        v@ == edge_bytes(e),
{
    let mut v: Vec<u8> = Vec::new();
    match e {
        Edge::NoInterrupt => {
            v.push('n' as u8);
            v.push('o' as u8);
            v.push('n' as u8);
            v.push('e' as u8);
        }
        Edge::RisingEdge => {
            v.push('r' as u8);
            v.push('i' as u8);
            v.push('s' as u8);
            v.push('i' as u8);
            v.push('n' as u8);
            v.push('g' as u8);
        }
        Edge::FallingEdge => {
            v.push('f' as u8);
            v.push('a' as u8);
            v.push('l' as u8);
            v.push('l' as u8);
            v.push('i' as u8);
            v.push('n' as u8);
            v.push('g' as u8);
        }
        Edge::BothEdges => {
            v.push('b' as u8);
            v.push('o' as u8);
            v.push('t' as u8);
            v.push('h' as u8);
        }
    }
    proof {
        assert(v@ =~= edge_bytes(e));
    }
    v
}

/// Parses the content of a pin's `direction` attribute file.
///
/// The content, with surrounding whitespace trimmed, must be one of the
/// four direction words; any other content fails with
/// [`Error::Unexpected`], carrying the offending content.
pub fn parse_direction(raw: &[u8]) -> (r: Result<Direction, Error>)
    ensures
        forall|d: Direction| r == Ok::<Direction, Error>(d) <==> trimmed(raw@) == direction_bytes(d),
        r is Err <==> (forall|d: Direction| trimmed(raw@) != direction_bytes(d)),
        r matches Err(e) ==> e matches Error::Unexpected(m) && m@ == lossy_utf8(raw@),
{
    proof {
        lemma_direction_words_distinct();
    }
    let (lo, hi) = trim_bounds(raw);
    let w_in = direction_word(Direction::In);
    let w_out = direction_word(Direction::Out);
    let w_high = direction_word(Direction::High);
    let w_low = direction_word(Direction::Low);
    if region_eq(raw, lo, hi, w_in.as_slice()) {
        Ok(Direction::In)
    } else if region_eq(raw, lo, hi, w_out.as_slice()) {
        Ok(Direction::Out)
    } else if region_eq(raw, lo, hi, w_high.as_slice()) {
        Ok(Direction::High)
    } else if region_eq(raw, lo, hi, w_low.as_slice()) {
        Ok(Direction::Low)
    } else {
        Err(Error::Unexpected(bytes_to_string(raw)))
    }
}

/// Parses the content of a pin's `edge` attribute file.
///
/// The content, with surrounding whitespace trimmed, must be one of the
/// four edge words; any other content fails with [`Error::Unexpected`],
/// carrying the offending content.
pub fn parse_edge(raw: &[u8]) -> (r: Result<Edge, Error>)
    ensures
        forall|e: Edge| r == Ok::<Edge, Error>(e) <==> trimmed(raw@) == edge_bytes(e),
        r is Err <==> (forall|e: Edge| trimmed(raw@) != edge_bytes(e)),
        r matches Err(e) ==> e matches Error::Unexpected(m) && m@ == lossy_utf8(raw@),
{
    proof {
        lemma_edge_words_distinct();
    }
    let (lo, hi) = trim_bounds(raw);
    let w_none = edge_word(Edge::NoInterrupt);
    let w_rising = edge_word(Edge::RisingEdge);
    let w_falling = edge_word(Edge::FallingEdge);
    let w_both = edge_word(Edge::BothEdges);
    if region_eq(raw, lo, hi, w_none.as_slice()) {
        Ok(Edge::NoInterrupt)
    } else if region_eq(raw, lo, hi, w_rising.as_slice()) {
        Ok(Edge::RisingEdge)
    } else if region_eq(raw, lo, hi, w_falling.as_slice()) {
        Ok(Edge::FallingEdge)
    } else if region_eq(raw, lo, hi, w_both.as_slice()) {
        Ok(Edge::BothEdges)
    } else {
        Err(Error::Unexpected(bytes_to_string(raw)))
    }
}

/// The file representation of a value level: `0` for low, `1` for high.
pub open spec fn level_bytes(high: bool) -> Seq<u8> {
    if high {
        seq!['1' as u8]
    } else {
        seq!['0' as u8]
    }
}

/// Renders the word for a level: `1` for high, `0` for low.
pub fn level_word(high: bool) -> (v: Vec<u8>)
    ensures
        v@ == level_bytes(high),
{
    let mut v: Vec<u8> = Vec::new();
    if high {
        v.push('1' as u8);
    } else {
        v.push('0' as u8);
    }
    v
}

/// Renders the value written to a pin's `value` attribute file: a zero
/// sets the pin low, any other value sets it high.
pub fn value_word(value: u8) -> (v: Vec<u8>)
    ensures
        v@ == level_bytes(value != 0),
{
    level_word(value != 0)
}

/// Parses the content of a pin's `active_low` attribute file: `1` means
/// the pin's polarity is inverted.
///
/// The content, with surrounding whitespace trimmed, must be exactly `0`
/// or `1`; any other content fails with [`Error::Unexpected`], carrying
/// the offending content.
pub fn parse_active_low(raw: &[u8]) -> (r: Result<bool, Error>)
    ensures
        r == Ok::<bool, Error>(false) <==> trimmed(raw@) == level_bytes(false),
        r == Ok::<bool, Error>(true) <==> trimmed(raw@) == level_bytes(true),
        r matches Err(e) ==> e matches Error::Unexpected(m) && m@ == lossy_utf8(raw@),
{
    match parse_pin_value(raw) {
        Ok(v) => Ok(v == 1),
        Err(e) => Err(e),
    }
}

/// Parses the content of a pin's `value` attribute file.
///
/// The content, with surrounding whitespace trimmed, must be exactly `0`
/// or `1`; it parses to the matching integer.  Any other content fails
/// with [`Error::Unexpected`], carrying the offending content; no content
/// makes this panic.
pub fn parse_pin_value(raw: &[u8]) -> (r: Result<u8, Error>)
    ensures
        r == Ok::<u8, Error>(0u8) <==> trimmed(raw@) == level_bytes(false),
        r == Ok::<u8, Error>(1u8) <==> trimmed(raw@) == level_bytes(true),
        r matches Ok(v) ==> v == 0 || v == 1,
        r is Err <==> trimmed(raw@) != level_bytes(false) && trimmed(raw@) != level_bytes(true),
        r matches Err(e) ==> e matches Error::Unexpected(m) && m@ == lossy_utf8(raw@),
{
    let (lo, hi) = trim_bounds(raw);
    if hi - lo == 1 && raw[lo] == '0' as u8 {
        proof {
            assert(trimmed(raw@) =~= level_bytes(false));
            assert(level_bytes(false)[0] != level_bytes(true)[0]);
        }
        Ok(0)
    } else if hi - lo == 1 && raw[lo] == '1' as u8 {
        proof {
            assert(trimmed(raw@) =~= level_bytes(true));
            assert(level_bytes(false)[0] != level_bytes(true)[0]);
        }
        Ok(1)
    } else {
        proof {
            assert(trimmed(raw@).len() == hi - lo);
            if hi - lo == 1 {
                assert(trimmed(raw@)[0] == raw@[lo as int]);
            }
            assert(trimmed(raw@) != level_bytes(false));
            assert(trimmed(raw@) != level_bytes(true));
        }
        Err(Error::Unexpected(bytes_to_string(raw)))
    }
}

} // verus!
