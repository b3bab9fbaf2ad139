//! Camera addresses: a local device index or a network stream.
//!
//! A configured camera names its address as text: a URI with a scheme
//! prefix, or the index of a local device. The text is resolved once into an
//! [`AddressKind`]; nothing downstream looks at the text again.

use vstd::prelude::*;
use vstd::string::StrSliceExecFns;
use vstd::string::StringExecFns;

verus! {

/// Where a camera is reached.
#[derive(Debug, PartialEq, Eq)]
pub enum AddressKind {
    /// A device of this machine, by its index.
    Local(i32),
    /// A stream on the network, by its URI.
    Network(String),
}

/// The mathematical value of an [`AddressKind`].
pub enum AddressView {
    Local(i32),
    Network(Seq<char>),
}

impl View for AddressKind {
    type V = AddressView;

    open spec fn view(&self) -> AddressView {
        match self {
            AddressKind::Local(index) => AddressView::Local(*index),
            AddressKind::Network(uri) => AddressView::Network(uri@),
        }
    }
}

/// Whether `c` is a letter of the basic Latin alphabet.
pub open spec fn is_letter(c: char) -> bool {
    ('a' <= c && c <= 'z') || ('A' <= c && c <= 'Z')
}

/// Whether `c` may stand in a URI scheme after its first letter: a letter, a
/// digit, `+`, `-` or `.`.
pub open spec fn is_scheme_char(c: char) -> bool {
    is_letter(c) || is_digit(c) || c == '+' || c == '-' || c == '.'
}

/// Whether the first `n` characters of `url` are a URI scheme and `://`
/// follows them: a letter, then scheme characters only, then the separator.
pub open spec fn scheme_ends_at(url: Seq<char>, n: int) -> bool {
    &&& 1 <= n
    &&& n + 3 <= url.len()
    &&& is_letter(url[0])
    &&& forall|i: int| 1 <= i < n ==> is_scheme_char(#[trigger] url[i])
    &&& url[n] == ':'
    &&& url[n + 1] == '/'
    &&& url[n + 2] == '/'
}

/// Whether an address text names a network stream: it starts with a URI
/// scheme followed by `://`, whatever the scheme is.
pub open spec fn is_network(url: Seq<char>) -> bool {
    exists|n: int| scheme_ends_at(url, n)
}

/// Whether `c` is one of the ten decimal digits.
pub open spec fn is_digit(c: char) -> bool {
    '0' <= c && c <= '9'
}

/// Whether every character of `s` is a decimal digit.
pub open spec fn all_digits(s: Seq<char>) -> bool {
    forall|i: int| 0 <= i < s.len() ==> is_digit(#[trigger] s[i])
}

/// The number that a run of decimal digits writes, most significant first.
pub open spec fn digits_value(s: Seq<char>) -> int
    decreases s.len(),
{
    if s.len() == 0 {
        0
    } else {
        10 * digits_value(s.drop_last()) + (s.last() as int - '0' as int)
    }
}

/// Whether the text opens with a sign character.
pub open spec fn has_sign(s: Seq<char>) -> bool {
    s.len() > 0 && (s[0] == '-' || s[0] == '+')
}

/// The text without its sign character, if it has one.
pub open spec fn unsigned_part(s: Seq<char>) -> Seq<char> {
    if has_sign(s) {
        s.subrange(1, s.len() as int)
    } else {
        s
    }
}

/// The integer that the text denotes before any range check: an optional
/// sign, then the digits.
pub open spec fn signed_value(s: Seq<char>) -> int {
    if s.len() > 0 && s[0] == '-' {
        -digits_value(unsigned_part(s))
    } else {
        digits_value(unsigned_part(s))
    }
}

/// The device index that a text denotes: an optional `+` or `-`, then one or
/// more decimal digits and nothing else, the value within the range of `i32`.
/// Any other text denotes no index.
pub open spec fn parse_index(s: Seq<char>) -> Option<i32> {
    let body = unsigned_part(s);
    if body.len() == 0 || !all_digits(body) {
        None
    } else if i32::MIN <= signed_value(s) <= i32::MAX {
        Some(signed_value(s) as i32)
    } else {
        None
    }
}

/// The address that a configured text resolves to. A text with a scheme
/// prefix is a network address and keeps its full text. Any other text is a
/// local device: its index is the integer it denotes, or 0 where it denotes
/// none.
pub open spec fn resolve(url: Seq<char>) -> AddressView {
    if is_network(url) {
        AddressView::Network(url)
    } else {
        match parse_index(url) {
            Some(index) => AddressView::Local(index),
            None => AddressView::Local(0),
        }
    }
}

/// Tells whether `c` is a letter of the basic Latin alphabet.
fn letter(c: char) -> (res: bool)
    ensures
        res == is_letter(c),
{
    ('a' <= c && c <= 'z') || ('A' <= c && c <= 'Z')
}

/// Tells whether `c` may stand in a URI scheme after its first letter.
fn scheme_char(c: char) -> (res: bool)
    ensures
        res == is_scheme_char(c),
{
    letter(c) || ('0' <= c && c <= '9') || c == '+' || c == '-' || c == '.'
}

/// Tells whether `url` starts with a URI scheme followed by `://`.
pub fn has_stream_scheme(url: &str) -> (res: bool)
    ensures
        res == is_network(url@),
{
    let n: usize = url.unicode_len();
    if n < 4 {
        return false;
    }
    if !letter(url.get_char(0)) {
        return false;
    }
    let mut i: usize = 1;
    while i < n && scheme_char(url.get_char(i))
        invariant
            1 <= i <= n,
            n == url@.len(),
            forall|k: int| 1 <= k < i ==> is_scheme_char(#[trigger] url@[k]),
        decreases n - i,
    {
        i = i + 1;
    }
    let res = n - i >= 3 && url.get_char(i) == ':' && url.get_char(i + 1) == '/' && url.get_char(
        i + 2,
    ) == '/';
    proof {
        if res {
            assert(scheme_ends_at(url@, i as int));
        } else if is_network(url@) {
            // The scheme can only end where the scan stopped. Earlier, a
            // scheme character stands where `:` is due. Later, the character
            // that stopped the scan would have to be a scheme character.
            let m = choose|m: int| scheme_ends_at(url@, m);
            if m < i {
                assert(is_scheme_char(url@[m]));
            } else if m > i {
                assert(is_scheme_char(url@[i as int]));
            }
            assert(m == i);
        }
    }
    res
}

/// Reads a device index from text. Returns the index exactly when the text
/// denotes one.
pub fn parse_device_index(text: &str) -> (res: Option<i32>)
    ensures
        res == parse_index(text@),
{
    let n: usize = text.unicode_len();
    if n == 0 {
        return None;
    }
    let first = text.get_char(0);
    let negative = first == '-';
    let start: usize = if first == '-' || first == '+' {
        1
    } else {
        0
    };
    if start == n {
        return None;
    }
    let ghost body = unsigned_part(text@);
    // `magnitude` is exact while `too_large` is false; 2^31 is the largest
    // magnitude of any `i32`.
    let limit: u64 = 2147483648;
    let mut magnitude: u64 = 0;
    let mut too_large = false;
    let mut i: usize = start;
    while i < n
        invariant
            start <= i <= n,
            n == text@.len(),
            body == unsigned_part(text@),
            body.len() == n - start,
            forall|k: int| 0 <= k < body.len() ==> body[k] == text@[k + start],
            all_digits(body.take(i - start)),
            limit == 2147483648,
            !too_large ==> magnitude == digits_value(body.take(i - start)) && magnitude <= limit,
            too_large ==> digits_value(body.take(i - start)) > limit,
        decreases n - i,
    {
        let c = text.get_char(i);
        if !('0' <= c && c <= '9') {
            proof {
                assert(!is_digit(body[i - start]));
            }
            return None;
        }
        let digit: u64 = (c as u32 - '0' as u32) as u64;
        proof {
            let before = body.take(i - start);
            let after = body.take(i - start + 1);
            assert(after.drop_last() =~= before);
            assert forall|k: int| 0 <= k < after.len() implies is_digit(#[trigger] after[k]) by {
                if k < before.len() {
                    assert(after[k] == before[k]);
                }
            }
        }
        if !too_large {
            magnitude = magnitude * 10 + digit;
            if magnitude > limit {
                too_large = true;
            }
        }
        i = i + 1;
    }
    assert(body.take(n - start) =~= body);
    if too_large {
        return None;
    }
    if negative {
        if magnitude == limit {
            Some(i32::MIN)
        } else {
            let small: i32 = magnitude as i32;
            Some(-small)
        }
    } else {
        if magnitude == limit {
            None
        } else {
            Some(magnitude as i32)
        }
    }
}

impl AddressKind {
    /// Resolves a configured address text.
    pub fn parse(url: &str) -> (res: AddressKind)
        ensures
            res@ == resolve(url@),
    {
        if has_stream_scheme(url) {
            AddressKind::Network(String::from_str(url))
        } else {
            match parse_device_index(url) {
                Some(index) => AddressKind::Local(index),
                None => AddressKind::Local(0),
            }
        }
    }

    /// Whether this is a network stream.
    pub fn is_network(&self) -> (res: bool)
        ensures
            res == (self@ is Network),
    {
        match self {
            AddressKind::Local(_) => false,
            AddressKind::Network(_) => true,
        }
    }
}

impl Clone for AddressKind {
    /// A copy of this address.
    fn clone(&self) -> (res: AddressKind)
        ensures
            res@ == self@,
    {
        match self {
            AddressKind::Local(index) => AddressKind::Local(*index),
            AddressKind::Network(uri) => AddressKind::Network(uri.clone()),
        }
    }
}

/// A camera as the service runs it: its name and its resolved address.
#[derive(Debug, PartialEq, Eq)]
pub struct CameraSpec {
    pub name: String,
    pub address: AddressKind,
}

/// The mathematical value of a [`CameraSpec`].
pub struct CameraSpecView {
    pub name: Seq<char>,
    pub address: AddressView,
}

impl View for CameraSpec {
    type V = CameraSpecView;

    open spec fn view(&self) -> CameraSpecView {
        CameraSpecView { name: self.name@, address: self.address@ }
    }
}

impl Clone for CameraSpec {
    /// A copy of this camera's name and address.
    fn clone(&self) -> (res: CameraSpec)
        ensures
            res@ == self@,
    {
        CameraSpec { name: self.name.clone(), address: self.address.clone() }
    }
}

} // verus!
