//! Paths of the sysfs GPIO control interface, built as byte strings: the
//! class directory, a pin's attribute directory and files, and the
//! extraction of a pin number from such a path.

use vstd::prelude::*;
use vstd::string::StringSliceAdditionalSpecFns;

use crate::error::Error;

verus! {

/// The decimal digit `d` as its ASCII byte.
pub open spec fn digit(d: nat) -> u8
    recommends
        d < 10,
{
    (('0' as u8) + d) as u8
}

/// The decimal digits of `n`, most significant first.
pub open spec fn decimal(n: nat) -> Seq<u8>
    decreases n,
{
    if n < 10 {
        seq![digit(n)]
    } else {
        decimal(n / 10).push(digit(n % 10))
    }
}

fn digit_byte(d: u64) -> (r: u8)
    requires
        d < 10,
    ensures
        r == digit(d as nat),
{
    ('0' as u8) + (d as u8)
}

/// Renders `n` in decimal, most significant digit first.
pub fn u64_to_decimal(n: u64) -> (v: Vec<u8>)
    ensures
        v@ == decimal(n as nat),
    decreases n,
{
    if n < 10 {
        let mut v: Vec<u8> = Vec::new();
        v.push(digit_byte(n));
        proof {
            assert(v@ =~= decimal(n as nat));
        }
        v
    } else {
        let mut v = u64_to_decimal(n / 10);
        v.push(digit_byte(n % 10));
        v
    }
}

/// The bytes of the GPIO class directory path.
pub open spec fn class_dir_bytes() -> Seq<u8> {
    seq![
        '/' as u8,
        's' as u8,
        'y' as u8,
        's' as u8,
        '/' as u8,
        'c' as u8,
        'l' as u8,
        'a' as u8,
        's' as u8,
        's' as u8,
        '/' as u8,
        'g' as u8,
        'p' as u8,
        'i' as u8,
        'o' as u8,
    ]
}

/// The bytes of the word `gpio`, the prefix of a pin's directory name.
pub open spec fn gpio_bytes() -> Seq<u8> {
    seq!['g' as u8, 'p' as u8, 'i' as u8, 'o' as u8]
}

/// The attribute files of a pin's directory.
#[derive(Clone, Copy, Debug, PartialEq, Eq, Structural)]
pub enum AttrName {
    Value,
    Direction,
    EdgeName,
    ActiveLow,
}

/// The file name of an attribute.
pub open spec fn attr_name_bytes(a: AttrName) -> Seq<u8> {
    match a {
        AttrName::Value => seq!['v' as u8, 'a' as u8, 'l' as u8, 'u' as u8, 'e' as u8],
        AttrName::Direction => seq![
            'd' as u8,
            'i' as u8,
            'r' as u8,
            'e' as u8,
            'c' as u8,
            't' as u8,
            'i' as u8,
            'o' as u8,
            'n' as u8,
        ],
        AttrName::EdgeName => seq!['e' as u8, 'd' as u8, 'g' as u8, 'e' as u8],
        AttrName::ActiveLow => seq![
            'a' as u8,
            'c' as u8,
            't' as u8,
            'i' as u8,
            'v' as u8,
            'e' as u8,
            '_' as u8,
            'l' as u8,
            'o' as u8,
            'w' as u8,
        ],
    }
}

/// The directory of an exported pin: the class directory, a separator,
/// and `gpio` followed by the pin number.
pub open spec fn pin_dir_bytes(pin: nat) -> Seq<u8> {
    class_dir_bytes() + seq!['/' as u8] + gpio_bytes() + decimal(pin)
}

/// The path of one attribute file of an exported pin.
pub open spec fn attr_path_bytes(pin: nat, a: AttrName) -> Seq<u8> {
    pin_dir_bytes(pin) + seq!['/' as u8] + attr_name_bytes(a)
}

/// The path of the class control file named by `word`.
pub open spec fn control_path_bytes(word: Seq<u8>) -> Seq<u8> {
    class_dir_bytes() + seq!['/' as u8] + word
}

/// The bytes of the word `export`.
pub open spec fn export_bytes() -> Seq<u8> {
    seq!['e' as u8, 'x' as u8, 'p' as u8, 'o' as u8, 'r' as u8, 't' as u8]
}

/// The bytes of the word `unexport`.
pub open spec fn unexport_bytes() -> Seq<u8> {
    seq!['u' as u8, 'n' as u8] + export_bytes()
}

fn class_dir_vec() -> (v: Vec<u8>)
    ensures
        v@ == class_dir_bytes(),
{
    let mut v: Vec<u8> = Vec::new();
    v.push('/' as u8);
    v.push('s' as u8);
    v.push('y' as u8);
    v.push('s' as u8);
    v.push('/' as u8);
    v.push('c' as u8);
    v.push('l' as u8);
    v.push('a' as u8);
    v.push('s' as u8);
    v.push('s' as u8);
    v.push('/' as u8);
    v.push('g' as u8);
    v.push('p' as u8);
    v.push('i' as u8);
    v.push('o' as u8);
    proof {
        assert(v@ =~= class_dir_bytes());
    }
    v
}

/// Builds the directory path of an exported pin.
pub fn pin_dir_path(pin: u64) -> (v: Vec<u8>)
    ensures
        v@ == pin_dir_bytes(pin as nat),
{
    let mut v = class_dir_vec();
    v.push('/' as u8);
    v.push('g' as u8);
    v.push('p' as u8);
    v.push('i' as u8);
    v.push('o' as u8);
    let mut d = u64_to_decimal(pin);
    v.append(&mut d);
    proof {
        assert(v@ =~= pin_dir_bytes(pin as nat));
    }
    v
}

/// Builds the path of one attribute file of an exported pin.
pub fn attr_file_path(pin: u64, a: AttrName) -> (v: Vec<u8>)
    ensures
        v@ == attr_path_bytes(pin as nat, a),
{
    let mut v = pin_dir_path(pin);
    v.push('/' as u8);
    match a {
        AttrName::Value => {
            v.push('v' as u8);
            v.push('a' as u8);
            v.push('l' as u8);
            v.push('u' as u8);
            v.push('e' as u8);
        }
        AttrName::Direction => {
            v.push('d' as u8);
            v.push('i' as u8);
            v.push('r' as u8);
            v.push('e' as u8);
            v.push('c' as u8);
            v.push('t' as u8);
            v.push('i' as u8);
            v.push('o' as u8);
            v.push('n' as u8);
        }
        AttrName::EdgeName => {
            v.push('e' as u8);
            v.push('d' as u8);
            v.push('g' as u8);
            v.push('e' as u8);
        }
        AttrName::ActiveLow => {
            v.push('a' as u8);
            v.push('c' as u8);
            v.push('t' as u8);
            v.push('i' as u8);
            v.push('v' as u8);
            v.push('e' as u8);
            v.push('_' as u8);
            v.push('l' as u8);
            v.push('o' as u8);
            v.push('w' as u8);
        }
    }
    proof {
        assert(v@ =~= attr_path_bytes(pin as nat, a));
    }
    v
}

/// Builds the path of the class `export` control file.
pub fn export_path() -> (v: Vec<u8>)
    ensures
        v@ == control_path_bytes(export_bytes()),
{
    let mut v = class_dir_vec();
    v.push('/' as u8);
    v.push('e' as u8);
    v.push('x' as u8);
    v.push('p' as u8);
    v.push('o' as u8);
    v.push('r' as u8);
    v.push('t' as u8);
    proof {
        assert(v@ =~= control_path_bytes(export_bytes()));
    }
    v
}

/// Builds the path of the class `unexport` control file.
pub fn unexport_path() -> (v: Vec<u8>)
    ensures
        v@ == control_path_bytes(unexport_bytes()),
{
    let mut v = class_dir_vec();
    v.push('/' as u8);
    v.push('u' as u8);
    v.push('n' as u8);
    v.push('e' as u8);
    v.push('x' as u8);
    v.push('p' as u8);
    v.push('o' as u8);
    v.push('r' as u8);
    v.push('t' as u8);
    proof {
        assert(v@ =~= control_path_bytes(unexport_bytes()));
    }
    v
}

/// `b` without its trailing path separators.
pub open spec fn strip_slashes(b: Seq<u8>) -> Seq<u8>
    decreases b.len(),
{
    if b.len() > 0 && b[b.len() - 1] == '/' as u8 {
        strip_slashes(b.drop_last())
    } else {
        b
    }
}

/// The suffix of `b` after its last path separator (all of `b` when it
/// has none; empty when it ends with one).
pub open spec fn after_last_slash(b: Seq<u8>) -> Seq<u8>
    decreases b.len(),
{
    if b.len() == 0 {
        b
    } else if b[b.len() - 1] == '/' as u8 {
        Seq::empty()
    } else {
        after_last_slash(b.drop_last()).push(b[b.len() - 1])
    }
}

/// The file-name component of a path: the part after the last separator,
/// with trailing separators ignored.
pub open spec fn component(b: Seq<u8>) -> Seq<u8> {
    after_last_slash(strip_slashes(b))
}

/// `b` with every leading repetition of the word `gpio` removed.
pub open spec fn strip_gpio(b: Seq<u8>) -> Seq<u8>
    decreases b.len(),
{
    if gpio_bytes().is_prefix_of(b) {
        strip_gpio(b.skip(4))
    } else {
        b
    }
}

/// Whether every byte of `b` is a decimal digit.
pub open spec fn all_digits(b: Seq<u8>) -> bool {
    forall|i: int| 0 <= i < b.len() ==> '0' as u8 <= #[trigger] b[i] <= '9' as u8
}

/// The number the digit string `b` denotes.
pub open spec fn digits_value(b: Seq<u8>) -> int
    decreases b.len(),
{
    if b.len() == 0 {
        0
    } else {
        digits_value(b.drop_last()) * 10 + (b[b.len() - 1] - ('0' as u8))
    }
}

proof fn lemma_strip_slashes_at(b: Seq<u8>, j: int)
    requires
        0 <= j <= b.len(),
        forall|k: int| j <= k < b.len() ==> b[k] == '/' as u8,
        j > 0 ==> b[j - 1] != '/' as u8,
    ensures
        strip_slashes(b) =~= b.subrange(0, j),
    decreases b.len() - j,
{
    if j == b.len() {
        if b.len() > 0 && b[b.len() - 1] == '/' as u8 {
            let t = b.drop_last();
            assert(t =~= b.subrange(0, b.len() - 1));
            lemma_strip_slashes_at(t, j - 1);
        } else {
            assert(b =~= b.subrange(0, j));
        }
    } else {
        let t = b.drop_last();
        assert(t =~= b.subrange(0, b.len() - 1));
        lemma_strip_slashes_at(t, j);
        assert(t.subrange(0, j) =~= b.subrange(0, j));
    }
}

proof fn lemma_after_last_slash_at(b: Seq<u8>, i: int)
    requires
        0 <= i <= b.len(),
        forall|k: int| i <= k < b.len() ==> b[k] != '/' as u8,
        i > 0 ==> b[i - 1] == '/' as u8,
    ensures
        after_last_slash(b) =~= b.subrange(i, b.len() as int),
    decreases b.len() - i,
{
    if i == b.len() {
    } else {
        let t = b.drop_last();
        assert(t =~= b.subrange(0, b.len() - 1));
        lemma_after_last_slash_at(t, i);
        assert(after_last_slash(t).push(b[b.len() - 1]) =~= b.subrange(i, b.len() as int));
    }
}

/// Appending a digit never shrinks the denoted number.
proof fn lemma_digits_value_prefix(b: Seq<u8>, j: int)
    requires
        all_digits(b),
        0 <= j <= b.len(),
    ensures
        digits_value(b.subrange(0, j)) <= digits_value(b),
        digits_value(b) >= 0,
    decreases b.len() - j,
{
    if j == b.len() {
        assert(b.subrange(0, j) =~= b);
        lemma_digits_value_nonneg(b);
    } else {
        lemma_digits_value_prefix(b, j + 1);
        let p = b.subrange(0, j + 1);
        assert(p.drop_last() =~= b.subrange(0, j));
        lemma_digits_value_nonneg(b.subrange(0, j));
    }
}

proof fn lemma_digits_value_nonneg(b: Seq<u8>)
    requires
        all_digits(b),
    ensures
        digits_value(b) >= 0,
    decreases b.len(),
{
    if b.len() > 0 {
        assert(all_digits(b.drop_last()));
        lemma_digits_value_nonneg(b.drop_last());
    }
}

/// The decimal rendering of `n` consists of digits, at least one, and
/// denotes `n` again.
proof fn lemma_decimal_digits(n: nat)
    ensures
        all_digits(decimal(n)),
        decimal(n).len() >= 1,
        digits_value(decimal(n)) == n,
    decreases n,
{
    if n < 10 {
        let s = decimal(n);
        assert(s.len() == 1);
        assert(s.drop_last() =~= Seq::<u8>::empty());
        assert(digits_value(Seq::<u8>::empty()) == 0);
        assert(digits_value(s) == digits_value(s.drop_last()) * 10 + (s[0] - ('0' as u8)));
        assert(digits_value(s) == n);
    } else {
        lemma_decimal_digits(n / 10);
        let s = decimal(n / 10);
        let d = digit(n % 10);
        assert(s.push(d).drop_last() =~= s);
        assert(digits_value(s.push(d)) == (n / 10) * 10 + (n % 10));
        assert forall|i: int| 0 <= i < s.push(d).len() implies '0' as u8 <= #[trigger] s.push(d)[i]
            <= '9' as u8 by {
            if i < s.len() {
                assert(s.push(d)[i] == s[i]);
            }
        }
    }
}

/// Rendering a pin's attribute directory and reading the number back
/// agree: the file-name component of the rendered directory path, with
/// its `gpio` prefix shed, is exactly the pin number's decimal rendering,
/// which denotes the pin number again.  Together with the contract of
/// [`extract_pin_from_path`], extraction on such a path returns the pin.
pub proof fn lemma_pin_path_round_trip(pin: u64)
    ensures
        strip_gpio(component(pin_dir_bytes(pin as nat))) == decimal(pin as nat),
        all_digits(decimal(pin as nat)),
        decimal(pin as nat).len() >= 1,
        digits_value(decimal(pin as nat)) == pin,
{
    lemma_decimal_digits(pin as nat);
    let d = decimal(pin as nat);
    let b = pin_dir_bytes(pin as nat);
    let tail = gpio_bytes() + d;
    assert(b.len() == 20 + d.len());
    // no separator follows the one before the gpio entry
    assert(b[b.len() - 1] == d[d.len() - 1]);
    assert(strip_slashes(b) == b);
    assert forall|k: int| 16 <= k < b.len() implies #[trigger] b[k] != '/' as u8 by {
        if k < 20 {
            assert(b[k] == gpio_bytes()[k - 16]);
        } else {
            assert(b[k] == d[k - 20]);
        }
    }
    assert(b[15] == '/' as u8);
    lemma_after_last_slash_at(b, 16);
    assert(component(b) =~= tail);
    // the gpio prefix is shed exactly once: digits cannot begin another
    assert(gpio_bytes().is_prefix_of(tail)) by {
        assert(tail.subrange(0, 4) =~= gpio_bytes());
    }
    assert(tail.skip(4) =~= d);
    if gpio_bytes().is_prefix_of(d) {
        assert(d[0] == gpio_bytes()[0]);
        assert(false);
    }
    assert(strip_gpio(tail) == strip_gpio(d));
    assert(strip_gpio(d) == d);
}

/// Extracts the pin number from a path that names a pin's attribute
/// directory, such as the class directory's `gpio` entries or a symbolic
/// link to one.
///
/// The file-name component of the path, after shedding every leading
/// `gpio`, must be a non-empty string of decimal digits denoting a number
/// in range; otherwise the path is rejected with [`Error::InvalidPath`],
/// carrying the path itself.
pub fn extract_pin_from_path(path: &str) -> (r: Result<u64, Error>)
    ensures
        ({
            let digits = strip_gpio(component(path.spec_bytes()));
            &&& r matches Ok(n) ==> digits.len() > 0 && all_digits(digits) && digits_value(digits)
                == n
            &&& r is Ok <==> digits.len() > 0 && all_digits(digits) && digits_value(digits)
                <= u64::MAX
            &&& r matches Err(e) ==> e matches Error::InvalidPath(m) && m@ == path@
        }),
{
    let b: &[u8] = path.as_bytes();
    let n: usize = b.len();
    let mut end: usize = n;
    while end > 0 && b[end - 1] == '/' as u8
        invariant
            0 <= end <= n,
            n == b@.len(),
            forall|k: int| end <= k < n ==> b@[k] == '/' as u8,
        decreases end,
    {
        end -= 1;
    }
    proof {
        lemma_strip_slashes_at(b@, end as int);
    }
    let ghost stripped = b@.subrange(0, end as int);
    let mut start: usize = end;
    while start > 0 && b[start - 1] != '/' as u8
        invariant
            0 <= start <= end <= n,
            n == b@.len(),
            forall|k: int| start <= k < end ==> b@[k] != '/' as u8,
        decreases start,
    {
        start -= 1;
    }
    proof {
        lemma_after_last_slash_at(stripped, start as int);
        assert(stripped.subrange(start as int, end as int) =~= b@.subrange(
            start as int,
            end as int,
        ));
        assert(component(b@) == b@.subrange(start as int, end as int));
    }
    while end - start >= 4 && b[start] == 'g' as u8 && b[start + 1] == 'p' as u8 && b[start + 2]
        == 'i' as u8 && b[start + 3] == 'o' as u8
        invariant
            0 <= start <= end <= n,
            n == b@.len(),
            strip_gpio(component(b@)) == strip_gpio(b@.subrange(start as int, end as int)),
        decreases end - start,
    {
        proof {
            let cur = b@.subrange(start as int, end as int);
            assert(gpio_bytes() =~= cur.subrange(0, 4));
            assert(cur.skip(4) =~= b@.subrange(start + 4, end as int));
        }
        start += 4;
    }
    let ghost digits = strip_gpio(component(b@));
    proof {
        let cur = b@.subrange(start as int, end as int);
        if gpio_bytes().is_prefix_of(cur) {
            assert(cur[0] == 'g' as u8 && cur[1] == 'p' as u8 && cur[2] == 'i' as u8 && cur[3]
                == 'o' as u8);
            assert(false);
        }
        assert(digits == cur);
    }
    if start == end {
        return Err(Error::InvalidPath(path.to_owned()));
    }
    let mut acc: u64 = 0;
    let mut i: usize = start;
    while i < end
        invariant
            start <= i <= end <= n,
            n == b@.len(),
            b@ == path.spec_bytes(),
            end - start >= 1,
            digits == b@.subrange(start as int, end as int),
            digits == strip_gpio(component(b@)),
            forall|k: int| start <= k < i ==> '0' as u8 <= #[trigger] b@[k] <= '9' as u8,
            acc == digits_value(b@.subrange(start as int, i as int)),
        decreases end - i,
    {
        let c: u8 = b[i];
        if c < '0' as u8 || c > '9' as u8 {
            proof {
                assert(digits[i - start] == b@[i as int]);
                assert(!all_digits(digits));
            }
            return Err(Error::InvalidPath(path.to_owned()));
        }
        let d: u64 = (c - ('0' as u8)) as u64;
        if acc > (u64::MAX - d) / 10 {
            proof {
                let p = b@.subrange(start as int, i + 1);
                assert(p.drop_last() =~= b@.subrange(start as int, i as int));
                assert(digits_value(p) == acc * 10 + d);
                assert(acc >= (u64::MAX - d) / 10 + 1);
                assert(acc * 10 >= ((u64::MAX - d) / 10 + 1) * 10);
                assert(digits_value(p) > u64::MAX);
                if all_digits(digits) {
                    assert(p =~= digits.subrange(0, i + 1 - start));
                    lemma_digits_value_prefix(digits, i + 1 - start);
                    assert(digits_value(digits) > u64::MAX);
                }
                assert(!(digits.len() > 0 && all_digits(digits) && digits_value(digits)
                    <= u64::MAX));
            }
            return Err(Error::InvalidPath(path.to_owned()));
        }
        proof {
            let p = b@.subrange(start as int, i + 1);
            assert(p.drop_last() =~= b@.subrange(start as int, i as int));
            assert(acc * 10 <= ((u64::MAX - d) / 10) * 10);
        }
        acc = acc * 10 + d;
        i += 1;
    }
    proof {
        assert(b@.subrange(start as int, i as int) =~= digits);
    }
    Ok(acc)
}

} // verus!
