//! Device identity: turning one host notification into a `USBEvent`.
use vstd::prelude::*;
use crate::text::{
    chars_of, hex4, hex_char_value, hex_digit, hex_value, is_hex_char, parse_hex16,
    parse_hex16_range, push_hex4, string_from_chars,
};

verus! {

/// The kind of a raw host notification.
#[derive(Clone, Copy, Debug, PartialEq, Eq, Structural)]
pub enum NotificationKind {
    Add,
    Remove,
    Other,
}

/// What happened to a device: the two kinds that reach the pipeline.
#[derive(Clone, Copy, Debug, PartialEq, Eq, Structural)]
pub enum EventKind {
    Attached,
    Detached,
}

#[derive(Debug)]
pub struct USBEvent {
    pub event_type: EventKind,
    pub identifier: String,
    pub vendor: u16,
    pub product: u16,
}

/// `i` and `j` are the positions of the only two slashes in `s`.
pub open spec fn slashes_at(s: Seq<char>, i: int, j: int) -> bool {
    &&& 0 <= i < j < s.len()
    &&& s[i] == '/' && s[j] == '/'
    &&& forall|k: int| 0 <= k < s.len() && k != i && k != j ==> #[trigger] s[k] != '/'
}

/// The vendor and product ids of a `"vendor/product/speed"` field: exactly
/// three slash-separated parts, the first two hexadecimal 16-bit numbers.
pub open spec fn product_ids(s: Seq<char>) -> Option<(u16, u16)> {
    if exists|i: int, j: int| slashes_at(s, i, j) {
        let (i, j) = choose|i: int, j: int| slashes_at(s, i, j);
        match (parse_hex16(s.subrange(0, i)), parse_hex16(s.subrange(i + 1, j))) {
            (Some(v), Some(p)) => Some((v, p)),
            _ => None,
        }
    } else {
        None
    }
}

/// The routing key of a device: `"vvvv:pppp"`, lowercase, zero-padded.
pub open spec fn device_key(vendor: u16, product: u16) -> Seq<char> {
    hex4(vendor) + seq![':'] + hex4(product)
}

pub open spec fn dash_for_slash(c: char) -> char {
    if c == '/' {
        '-'
    } else {
        c
    }
}

/// The id under which the device is known inside a VM: the namespace tag
/// `hotplug-` followed by the host identifier with each `/` made a `-`.
pub open spec fn device_id(identifier: Seq<char>) -> Seq<char> {
    seq!['h', 'o', 't', 'p', 'l', 'u', 'g', '-'] + identifier.map_values(|c: char| dash_for_slash(c))
}

proof fn lemma_slashes_unique(s: Seq<char>, i: int, j: int, i2: int, j2: int)
    requires
        slashes_at(s, i, j),
        slashes_at(s, i2, j2),
    ensures
        i == i2 && j == j2,
{
    if i != i2 && i != j2 {
        assert(s[i] != '/');
    }
    if i == j2 {
        assert(s[i2] != '/');
    }
    if j != j2 && j != i2 {
        assert(s[j] != '/');
    }
}

/// Parses a `"vendor/product/speed"` field into the vendor and product ids.
pub fn parse_product(field: &str) -> (r: Option<(u16, u16)>)
    ensures
        r == product_ids(field@),
{
    let cs = chars_of(field);
    let n = cs.len();
    let mut first: usize = n;
    let mut second: usize = n;
    let mut i: usize = 0;
    while i < n
        invariant
            n == cs@.len(),
            cs@ == field@,
            i <= n,
            first == n || (first < i && cs@[first as int] == '/'),
            second == n || (first < second < i && cs@[second as int] == '/'),
            second < n ==> first < n,
            forall|k: int|
                0 <= k < i && k != first && k != second ==> #[trigger] cs@[k] != '/',
        decreases n - i,
    {
        if cs[i] == '/' {
            if first == n {
                first = i;
            } else if second == n {
                second = i;
            } else {
                proof {
                    assert forall|a: int, b: int| !slashes_at(field@, a, b) by {
                        if slashes_at(field@, a, b) {
                            let x = i as int;
                            assert(field@[first as int] == '/');
                            assert(field@[second as int] == '/');
                            assert(field@[x] == '/');
                        }
                    }
                }
                return None;
            }
        }
        i = i + 1;
    }
    if second == n {
        proof {
            assert forall|a: int, b: int| !slashes_at(field@, a, b) by {
                if slashes_at(field@, a, b) {
                    assert(field@[a] == '/');
                    assert(field@[b] == '/');
                }
            }
        }
        return None;
    }
    proof {
        assert(slashes_at(field@, first as int, second as int));
        let (a, b) = choose|a: int, b: int| slashes_at(field@, a, b);
        lemma_slashes_unique(field@, a, b, first as int, second as int);
    }
    let vendor = parse_hex16_range(&cs, 0, first);
    let product = parse_hex16_range(&cs, first + 1, second);
    match (vendor, product) {
        (Some(v), Some(p)) => Some((v, p)),
        _ => None,
    }
}

impl USBEvent {
    /// Builds the event for one host notification. Kinds other than add
    /// and remove, and a malformed `"vendor/product/speed"` field, give
    /// `None`: such notifications are dropped.
    pub fn from_notification(kind: NotificationKind, identifier: String, product_field: &str) -> (r:
        Option<USBEvent>)
        ensures
            r is Some <==> (kind != NotificationKind::Other && product_ids(product_field@) is Some),
            r matches Some(e) ==> {
                &&& e.event_type == (if kind == NotificationKind::Add {
                    EventKind::Attached
                } else {
                    EventKind::Detached
                })
                &&& e.identifier == identifier
                &&& product_ids(product_field@) == Some((e.vendor, e.product))
            },
    {
        let event_type = match kind {
            NotificationKind::Add => EventKind::Attached,
            NotificationKind::Remove => EventKind::Detached,
            NotificationKind::Other => {
                return None;
            },
        };
        match parse_product(product_field) {
            Some((vendor, product)) => Some(USBEvent { event_type, identifier, vendor, product }),
            None => None,
        }
    }

    /// The id that names this device inside a VM.
    pub fn get_id(&self) -> (r: String)
        ensures
            r@ == device_id(self.identifier@),
    {
        let mut out: Vec<char> = vec!['h', 'o', 't', 'p', 'l', 'u', 'g', '-'];
        let cs = chars_of(self.identifier.as_str());
        let ghost head = out@;
        let mut i: usize = 0;
        while i < cs.len()
            invariant
                cs@ == self.identifier@,
                i <= cs@.len(),
                head == seq!['h', 'o', 't', 'p', 'l', 'u', 'g', '-'],
                out@ == head + cs@.take(i as int).map_values(|c: char| dash_for_slash(c)),
            decreases cs.len() - i,
        {
            let c = cs[i];
            out.push(if c == '/' { '-' } else { c });
            i = i + 1;
            assert(cs@.take(i as int).map_values(|c: char| dash_for_slash(c)) =~= cs@.take(
                i - 1,
            ).map_values(|c: char| dash_for_slash(c)).push(dash_for_slash(c)));
        }
        assert(cs@.take(cs@.len() as int) =~= cs@);
        string_from_chars(&out)
    }

    /// The routing key of this device, `"vvvv:pppp"`.
    pub fn device_str(&self) -> (r: String)
        ensures
            r@ == device_key(self.vendor, self.product),
    {
        let mut out: Vec<char> = Vec::new();
        push_hex4(&mut out, self.vendor);
        out.push(':');
        push_hex4(&mut out, self.product);
        assert(out@ =~= device_key(self.vendor, self.product));
        string_from_chars(&out)
    }
}

proof fn lemma_hex_digit_value(d: int)
    requires
        0 <= d < 16,
    ensures
        is_hex_char(hex_digit(d)),
        hex_char_value(hex_digit(d)) == d,
        hex_digit(d) != '/' && hex_digit(d) != ':',
{
}

/// Reading the canonical four digits back gives the number again.
pub proof fn lemma_hex4_round_trip(v: u16)
    ensures
        parse_hex16(hex4(v)) == Some(v),
{
    let s = hex4(v);
    let d0 = (v as int / 4096) % 16;
    let d1 = (v as int / 256) % 16;
    let d2 = (v as int / 16) % 16;
    let d3 = v as int % 16;
    lemma_hex_digit_value(d0);
    lemma_hex_digit_value(d1);
    lemma_hex_digit_value(d2);
    lemma_hex_digit_value(d3);
    assert(s.drop_last().drop_last().drop_last().drop_last() =~= Seq::<char>::empty());
    assert(s.drop_last().drop_last().drop_last() =~= seq![hex_digit(d0)]);
    assert(s.drop_last().drop_last() =~= seq![hex_digit(d0), hex_digit(d1)]);
    assert(s.drop_last() =~= seq![hex_digit(d0), hex_digit(d1), hex_digit(d2)]);
    let s1 = s.drop_last().drop_last().drop_last();
    let s2 = s.drop_last().drop_last();
    let s3 = s.drop_last();
    assert(hex_value(s1.drop_last()) == 0);
    assert(s1.last() == hex_digit(d0));
    assert(hex_value(s1) == d0);
    assert(s2.last() == hex_digit(d1));
    assert(s3.last() == hex_digit(d2));
    assert(s.last() == hex_digit(d3));
    assert(hex_value(s2) == d0 * 16 + d1);
    assert(hex_value(s3) == (d0 * 16 + d1) * 16 + d2);
    assert(hex_value(s) == ((d0 * 16 + d1) * 16 + d2) * 16 + d3);
    assert(((d0 * 16 + d1) * 16 + d2) * 16 + d3 == v as int) by (nonlinear_arith)
        requires
            d0 == (v as int / 4096) % 16,
            d1 == (v as int / 256) % 16,
            d2 == (v as int / 16) % 16,
            d3 == v as int % 16,
            0 <= v as int <= 0xffff,
    ;
    assert(forall|k: int| 0 <= k < s.len() ==> is_hex_char(#[trigger] s[k]));
}

/// For every valid `"vendor/product/speed"` field, whatever the case or
/// the padding of its digits, the routing key of the parsed ids is in
/// canonical form: nine characters, four lowercase hex digits, a colon
/// and four more, which read back as the same vendor and product ids.
pub proof fn law_device_key_canonical(field: Seq<char>)
    requires
        product_ids(field) is Some,
    ensures
        ({
            let (v, p) = product_ids(field)->Some_0;
            let key = device_key(v, p);
            &&& key.len() == 9
            &&& key[4] == ':'
            &&& forall|k: int| 0 <= k < 9 && k != 4 ==> {
                let c = #[trigger] key[k];
                ('0' <= c && c <= '9') || ('a' <= c && c <= 'f')
            }
            &&& parse_hex16(key.subrange(0, 4)) == Some(v)
            &&& parse_hex16(key.subrange(5, 9)) == Some(p)
        }),
{
    let (v, p) = product_ids(field)->Some_0;
    let key = device_key(v, p);
    lemma_hex4_round_trip(v);
    lemma_hex4_round_trip(p);
    assert(key.subrange(0, 4) =~= hex4(v));
    assert(key.subrange(5, 9) =~= hex4(p));
    lemma_hex_digit_value((v as int / 4096) % 16);
    lemma_hex_digit_value((v as int / 256) % 16);
    lemma_hex_digit_value((v as int / 16) % 16);
    lemma_hex_digit_value(v as int % 16);
    lemma_hex_digit_value((p as int / 4096) % 16);
    lemma_hex_digit_value((p as int / 256) % 16);
    lemma_hex_digit_value((p as int / 16) % 16);
    lemma_hex_digit_value(p as int % 16);
}

} // verus!
