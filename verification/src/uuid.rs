//! Universally Unique Identifiers (UUIDs) in the form the SPDK uses: sixteen bytes, shown
//! as 36 characters of lower-case hex digits and dashes.
use vstd::prelude::*;
use vstd::string::*;

use crate::errors::{Errno, EINVAL};
use crate::text::{chars_of, digit_char, digit_str};

verus! {

/// The length of the text form of a UUID, its terminating NUL included.
pub const SPDK_UUID_STRING_LEN: usize = 37;

/// Whether the text form puts a dash before byte `k`.
pub open spec fn dash_before(k: int) -> bool {
    k == 4 || k == 6 || k == 8 || k == 10
}

/// The length of the text form of the first `n` bytes of a UUID.
pub open spec fn text_len(n: int) -> int {
    2 * n + (if n > 4 { 1int } else { 0 }) + (if n > 6 { 1int } else { 0 }) + (if n > 8 {
        1int
    } else {
        0
    }) + (if n > 10 { 1int } else { 0 })
}

/// Where the two hex digits of byte `k` stand in the text form.
pub open spec fn digit_pos(k: int) -> int {
    text_len(k) + (if dash_before(k) { 1int } else { 0 })
}

/// The two lower-case hex digits of the byte `b`.
pub open spec fn hex_pair(b: u8) -> Seq<char> {
    seq![digit_char((b / 16) as nat), digit_char((b % 16) as nat)]
}

/// The text form of the first `n` bytes of `b`.
pub open spec fn text_prefix(b: Seq<u8>, n: nat) -> Seq<char>
    decreases n,
{
    if n == 0 {
        Seq::empty()
    } else {
        text_prefix(b, (n - 1) as nat) + (if dash_before(n - 1) {
            seq!['-']
        } else {
            Seq::empty()
        }) + hex_pair(b[n - 1])
    }
}

/// The text form of the UUID with bytes `b`: `xxxxxxxx-xxxx-xxxx-xxxx-xxxxxxxxxxxx` in
/// lower-case hex.
pub open spec fn uuid_text(b: Seq<u8>) -> Seq<char> {
    text_prefix(b, 16)
}

/// Whether position `i` of a UUID's text form holds a dash.
pub open spec fn is_dash_pos(i: int) -> bool {
    i == 8 || i == 13 || i == 18 || i == 23
}

/// The value of the hex digit `c` (either case), if it is one.
pub open spec fn hex_value(c: char) -> Option<u8> {
    if '0' <= c && c <= '9' {
        Some((c as u32 - '0' as u32) as u8)
    } else if 'a' <= c && c <= 'f' {
        Some((c as u32 - 'a' as u32 + 10) as u8)
    } else if 'A' <= c && c <= 'F' {
        Some((c as u32 - 'A' as u32 + 10) as u8)
    } else {
        None
    }
}

/// Whether `s` is the text form of a UUID: 36 characters, dashes at positions 8, 13, 18
/// and 23, and hex digits (either case) elsewhere.
pub open spec fn is_uuid_text(s: Seq<char>) -> bool {
    &&& s.len() == 36
    &&& forall|i: int|
        0 <= i < 36 ==> if is_dash_pos(i) {
            s[i] == '-'
        } else {
            #[trigger] hex_value(s[i]) is Some
        }
}

/// The bytes that the text form `s` denotes.
pub open spec fn parsed_bytes(s: Seq<char>) -> Seq<u8> {
    Seq::new(
        16,
        |k: int|
            (hex_value(s[digit_pos(k)])->0 * 16 + hex_value(s[digit_pos(k) + 1])->0) as u8,
    )
}

/// A hex digit reads back as the value it was written for, and is no dash.
proof fn lemma_hex_digit(x: nat)
    requires
        x < 16,
    ensures
        hex_value(digit_char(x)) == Some(x as u8),
        digit_char(x) != '-',
{
}

/// The shape of the text form of the first `n` bytes of `b`: its length, the digits
/// written for each byte, and a dash or a hex digit at each position.
proof fn lemma_text_prefix(b: Seq<u8>, n: nat)
    requires
        n <= 16,
        b.len() == 16,
    ensures
        text_prefix(b, n).len() == text_len(n as int),
        forall|k: int|
            0 <= k < n ==> #[trigger] text_prefix(b, n)[digit_pos(k)] == digit_char((b[k] / 16) as nat)
                && text_prefix(b, n)[digit_pos(k) + 1] == digit_char((b[k] % 16) as nat),
        forall|i: int|
            0 <= i < text_len(n as int) ==> if is_dash_pos(i) {
                text_prefix(b, n)[i] == '-'
            } else {
                #[trigger] hex_value(text_prefix(b, n)[i]) is Some
            },
    decreases n,
{
    if n > 0 {
        let m = (n - 1) as nat;
        lemma_text_prefix(b, m);
        let p = text_prefix(b, m);
        let d = if dash_before(m as int) {
            seq!['-']
        } else {
            Seq::<char>::empty()
        };
        let h = hex_pair(b[m as int]);
        let t = text_prefix(b, n);
        assert(t == p + d + h);
        lemma_hex_digit((b[m as int] / 16) as nat);
        lemma_hex_digit((b[m as int] % 16) as nat);
        assert(is_dash_pos(text_len(m as int)) == dash_before(m as int));
        assert(!is_dash_pos(digit_pos(m as int)) && !is_dash_pos(digit_pos(m as int) + 1));
        assert forall|k: int| 0 <= k < n implies #[trigger] t[digit_pos(k)] == digit_char(
            (b[k] / 16) as nat,
        ) && t[digit_pos(k) + 1] == digit_char((b[k] % 16) as nat) by {
            if k < m {
                assert(p[digit_pos(k)] == digit_char((b[k] / 16) as nat));
                assert(digit_pos(k) + 1 < text_len(m as int));
            }
        }
        assert forall|i: int| 0 <= i < text_len(n as int) implies if is_dash_pos(i) {
            t[i] == '-'
        } else {
            #[trigger] hex_value(t[i]) is Some
        } by {
            if i < text_len(m as int) {
                assert(t[i] == p[i]);
            }
        }
    }
}

/// What `to_string` writes, `parse` reads back: the text form of any sixteen bytes is
/// well formed and denotes those bytes.
pub proof fn lemma_uuid_text_round_trip(b: Seq<u8>)
    requires
        b.len() == 16,
    ensures
        is_uuid_text(uuid_text(b)),
        parsed_bytes(uuid_text(b)) == b,
{
    lemma_text_prefix(b, 16);
    let t = uuid_text(b);
    assert forall|k: int| 0 <= k < 16 implies #[trigger] parsed_bytes(t)[k] == b[k] by {
        assert(t[digit_pos(k)] == digit_char((b[k] / 16) as nat));
        lemma_hex_digit((b[k] / 16) as nat);
        lemma_hex_digit((b[k] % 16) as nat);
    }
    assert(parsed_bytes(t) =~= b);
}

/// A Universally Unique Identifier (UUID).
#[derive(Clone, Copy, Debug)]
pub struct Uuid {
    bytes: [u8; 16],
}

impl Uuid {
    /// The bytes of this UUID.
    pub closed spec fn spec_bytes(&self) -> Seq<u8> {
        self.bytes@
    }

    /// Creates a UUID from its bytes.
    pub fn from_bytes(bytes: [u8; 16]) -> (u: Self)
        ensures
            u.spec_bytes() == bytes@,
    {
        Uuid { bytes }
    }

    /// Returns the bytes of this UUID.
    pub fn as_bytes(&self) -> (b: [u8; 16])
        ensures
            b@ == self.spec_bytes(),
    {
        self.bytes
    }

    /// Returns whether this is the null UUID (all bytes zero).
    pub fn is_null(&self) -> (b: bool)
        ensures
            b == (forall|k: int| 0 <= k < 16 ==> self.spec_bytes()[k] == 0),
    {
        let mut i: usize = 0;
        while i < 16
            invariant
                i <= 16,
                self.bytes@.len() == 16,
                forall|k: int| 0 <= k < i ==> self.bytes@[k] == 0,
            decreases 16 - i,
        {
            if self.bytes[i] != 0 {
                assert(self.spec_bytes()[i as int] != 0);
                return false;
            }
            i = i + 1;
        }
        true
    }

    /// Sets this UUID to the null UUID.
    pub fn set_null(&mut self)
        ensures
            forall|k: int| 0 <= k < 16 ==> final(self).spec_bytes()[k] == 0,
            final(self).spec_bytes().len() == 16,
    {
        self.bytes = [0u8; 16];
    }

    /// Returns whether this UUID has the same bytes as `other`.
    pub fn equals(&self, other: &Self) -> (b: bool)
        ensures
            b == (self.spec_bytes() == other.spec_bytes()),
    {
        let mut i: usize = 0;
        while i < 16
            invariant
                i <= 16,
                self.bytes@.len() == 16,
                other.bytes@.len() == 16,
                forall|k: int| 0 <= k < i ==> self.bytes@[k] == other.bytes@[k],
            decreases 16 - i,
        {
            if self.bytes[i] != other.bytes[i] {
                return false;
            }
            i = i + 1;
        }
        assert(self.bytes@ =~= other.bytes@);
        true
    }

    /// Compares this UUID with `other` byte by byte: negative when it orders first, zero
    /// when equal, positive when it orders last.
    pub fn compare(&self, other: &Self) -> (c: i32)
        ensures
            c == 0 <==> self.spec_bytes() == other.spec_bytes(),
            c < 0 <==> exists|k: int|
                0 <= k < 16 && self.spec_bytes()[k] < other.spec_bytes()[k] && forall|j: int|
                    0 <= j < k ==> self.spec_bytes()[j] == other.spec_bytes()[j],
            c > 0 <==> exists|k: int|
                0 <= k < 16 && self.spec_bytes()[k] > other.spec_bytes()[k] && forall|j: int|
                    0 <= j < k ==> self.spec_bytes()[j] == other.spec_bytes()[j],
    {
        let mut i: usize = 0;
        while i < 16
            invariant
                i <= 16,
                self.bytes@.len() == 16,
                other.bytes@.len() == 16,
                forall|k: int| 0 <= k < i ==> self.bytes@[k] == other.bytes@[k],
            decreases 16 - i,
        {
            if self.bytes[i] < other.bytes[i] {
                assert(self.spec_bytes()[i as int] < other.spec_bytes()[i as int] && forall|j: int|
                    0 <= j < i ==> self.spec_bytes()[j] == other.spec_bytes()[j]);
                assert(self.spec_bytes() != other.spec_bytes());
                assert forall|k: int|
                    0 <= k < 16 && self.bytes@[k] > other.bytes@[k] implies exists|j: int|
                    0 <= j < k && self.bytes@[j] != other.bytes@[j] by {
                    if k > i {
                        assert(self.bytes@[i as int] != other.bytes@[i as int]);
                    }
                }
                return -1;
            }
            if self.bytes[i] > other.bytes[i] {
                assert(self.spec_bytes()[i as int] > other.spec_bytes()[i as int] && forall|j: int|
                    0 <= j < i ==> self.spec_bytes()[j] == other.spec_bytes()[j]);
                assert(self.spec_bytes() != other.spec_bytes());
                assert forall|k: int|
                    0 <= k < 16 && self.bytes@[k] < other.bytes@[k] implies exists|j: int|
                    0 <= j < k && self.bytes@[j] != other.bytes@[j] by {
                    if k > i {
                        assert(self.bytes@[i as int] != other.bytes@[i as int]);
                    }
                }
                return 1;
            }
            i = i + 1;
        }
        assert(self.bytes@ =~= other.bytes@);
        0
    }

    /// Renders this UUID in its text form.
    pub fn to_string(&self) -> (s: String)
        ensures
            s@ == uuid_text(self.spec_bytes()),
    {
        let mut s = String::new();
        let mut i: usize = 0;
        while i < 16
            invariant
                i <= 16,
                self.bytes@.len() == 16,
                s@ == text_prefix(self.bytes@, i as nat),
            decreases 16 - i,
        {
            let ghost before = s@;
            if i == 4 || i == 6 || i == 8 || i == 10 {
                proof {
                    reveal_strlit("-");
                }
                s.append("-");
                assert(s@ =~= before + seq!['-']);
            } else {
                assert(s@ =~= before + Seq::<char>::empty());
            }
            let ghost mid = s@;
            assert(mid == before + (if dash_before(i as int) {
                seq!['-']
            } else {
                Seq::<char>::empty()
            }));
            let b = self.bytes[i];
            s.append(digit_str((b / 16) as u64));
            s.append(digit_str((b % 16) as u64));
            assert(s@ =~= mid + hex_pair(b));
            assert(text_prefix(self.bytes@, (i + 1) as nat) == text_prefix(self.bytes@, i as nat)
                + (if dash_before(i as int) {
                seq!['-']
            } else {
                Seq::<char>::empty()
            }) + hex_pair(self.bytes@[i as int]));
            i = i + 1;
            assert(s@ =~= text_prefix(self.bytes@, i as nat));
        }
        s
    }
}

impl PartialEq for Uuid {
    fn eq(&self, other: &Self) -> (b: bool) {
        self.equals(other)
    }
}

impl Eq for Uuid {}

impl vstd::std_specs::cmp::PartialEqSpecImpl for Uuid {
    open spec fn obeys_eq_spec() -> bool {
        true
    }

    open spec fn eq_spec(&self, other: &Self) -> bool {
        self.spec_bytes() == other.spec_bytes()
    }
}

/// The value of the hex digit `c`, if it is one.
fn hex_digit(c: char) -> (v: Option<u8>)
    ensures
        v == hex_value(c),
{
    if '0' <= c && c <= '9' {
        Some((c as u32 - '0' as u32) as u8)
    } else if 'a' <= c && c <= 'f' {
        Some((c as u32 - 'a' as u32 + 10) as u8)
    } else if 'A' <= c && c <= 'F' {
        Some((c as u32 - 'A' as u32 + 10) as u8)
    } else {
        None
    }
}

/// Parses the text form of a UUID: 36 characters with dashes at positions 8, 13, 18 and
/// 23 and hex digits (either case) elsewhere. Any other text is refused with `EINVAL`.
pub fn parse(s: &str) -> (r: Result<Uuid, Errno>)
    ensures
        is_uuid_text(s@) ==> (r matches Ok(u) && u.spec_bytes() == parsed_bytes(s@)),
        !is_uuid_text(s@) ==> r == Err::<Uuid, Errno>(Errno(EINVAL)),
{
    let c = chars_of(s);
    if c.len() != 36 {
        return Err(Errno(EINVAL));
    }
    let mut i: usize = 0;
    while i < 36
        invariant
            c@ == s@,
            c@.len() == 36,
            i <= 36,
            forall|j: int|
                0 <= j < i ==> if is_dash_pos(j) {
                    c@[j] == '-'
                } else {
                    #[trigger] hex_value(c@[j]) is Some
                },
        decreases 36 - i,
    {
        if i == 8 || i == 13 || i == 18 || i == 23 {
            if c[i] != '-' {
                return Err(Errno(EINVAL));
            }
        } else {
            match hex_digit(c[i]) {
                Some(_) => {},
                None => {
                    assert(!(hex_value(c@[i as int]) is Some));
                    return Err(Errno(EINVAL));
                },
            }
        }
        i = i + 1;
    }
    let mut bytes = [0u8; 16];
    let mut k: usize = 0;
    while k < 16
        invariant
            c@ == s@,
            is_uuid_text(c@),
            k <= 16,
            bytes@.len() == 16,
            forall|j: int| 0 <= j < k ==> bytes@[j] == parsed_bytes(c@)[j],
        decreases 16 - k,
    {
        let p: usize = 2 * k + (if k > 4 { 1usize } else { 0 }) + (if k > 6 { 1usize } else { 0 })
            + (if k > 8 { 1usize } else { 0 }) + (if k > 10 { 1usize } else { 0 }) + (if k == 4
            || k == 6 || k == 8 || k == 10 { 1usize } else { 0 });
        assert(p == digit_pos(k as int));
        assert(!is_dash_pos(p as int) && !is_dash_pos(p + 1));
        assert(hex_value(c@[p as int]) is Some);
        assert(hex_value(c@[p + 1]) is Some);
        let hi = match hex_digit(c[p]) {
            Some(v) => v,
            None => 0,
        };
        let lo = match hex_digit(c[p + 1]) {
            Some(v) => v,
            None => 0,
        };
        bytes[k] = hi * 16 + lo;
        k = k + 1;
    }
    assert(bytes@ =~= parsed_bytes(c@));
    Ok(Uuid { bytes })
}

} // verus!
