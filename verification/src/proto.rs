//! The protobuf wire format of the messages that the host hands to light
//! clients and commits to: varints, length-delimited fields and repeated
//! fields, written in field order with proto3 defaults left out, and their
//! reading back.
use vstd::prelude::*;

verus! {

/// The varint of `n`: seven bits per byte, least significant first, the top
/// bit set on every byte but the last.
pub open spec fn varint(n: nat) -> Seq<u8>
    decreases n,
{
    if n < 128 {
        seq![n as u8]
    } else {
        seq![(n % 128 + 128) as u8] + varint(n / 128)
    }
}

/// A length-delimited field: its key byte, the length of `body` and `body`.
pub open spec fn len_field(tag: u8, body: Seq<u8>) -> Seq<u8> {
    seq![tag] + varint(body.len()) + body
}

/// A singular `string` or `bytes` field: left out where it is empty.
pub open spec fn bytes_field(tag: u8, body: Seq<u8>) -> Seq<u8> {
    if body.len() == 0 {
        Seq::empty()
    } else {
        len_field(tag, body)
    }
}

/// A singular varint field: left out where it is zero.
pub open spec fn varint_field(tag: u8, n: nat) -> Seq<u8> {
    if n == 0 {
        Seq::empty()
    } else {
        seq![tag] + varint(n)
    }
}

/// A repeated length-delimited field: one field per element, in order.
pub open spec fn repeated_field(tag: u8, bodies: Seq<Seq<u8>>) -> Seq<u8>
    decreases bodies.len(),
{
    if bodies.len() == 0 {
        Seq::empty()
    } else {
        len_field(tag, bodies[0]) + repeated_field(tag, bodies.drop_first())
    }
}

/// Reads a varint at the start of `s`: its value and how many bytes it takes.
pub open spec fn read_varint(s: Seq<u8>) -> Option<(nat, nat)>
    decreases s.len(),
{
    if s.len() == 0 {
        None
    } else if s[0] < 128 {
        Some((s[0] as nat, 1))
    } else {
        match read_varint(s.drop_first()) {
            Some((v, k)) => Some((((s[0] - 128) + 128 * v) as nat, k + 1)),
            None => None,
        }
    }
}

/// Reads a length-delimited field with key `tag` at the start of `s`: its body
/// and how many bytes the field takes.
pub open spec fn read_len_field(tag: u8, s: Seq<u8>) -> Option<(Seq<u8>, nat)> {
    if s.len() == 0 || s[0] != tag {
        None
    } else {
        match read_varint(s.drop_first()) {
            Some((n, k)) => if 1 + k + n <= s.len() {
                Some((s.subrange((1 + k) as int, (1 + k + n) as int), (1 + k + n) as nat))
            } else {
                None
            },
            None => None,
        }
    }
}

/// Reads a singular length-delimited field with key `tag`, empty where the
/// next field has another key.
pub open spec fn read_bytes_field(tag: u8, s: Seq<u8>) -> (Seq<u8>, nat) {
    match read_len_field(tag, s) {
        Some((b, k)) => (b, k),
        None => (Seq::empty(), 0),
    }
}

/// Reads a singular varint field with key `tag`, zero where the next field
/// has another key.
pub open spec fn read_varint_field(tag: u8, s: Seq<u8>) -> (nat, nat) {
    if s.len() == 0 || s[0] != tag {
        (0, 0)
    } else {
        match read_varint(s.drop_first()) {
            Some((n, k)) => (n, k + 1),
            None => (0, 0),
        }
    }
}

/// Reads the fields with key `tag` at the start of `s`, as many as there are.
pub open spec fn read_repeated_field(tag: u8, s: Seq<u8>) -> (Seq<Seq<u8>>, nat)
    decreases s.len(),
{
    match read_len_field(tag, s) {
        Some((b, k)) => if 0 < k <= s.len() {
            let (rest, k2) = read_repeated_field(tag, s.subrange(k as int, s.len() as int));
            (seq![b] + rest, k + k2)
        } else {
            (Seq::empty(), 0)
        },
        None => (Seq::empty(), 0),
    }
}

/// Whether `s` does not begin with the key `tag`.
pub open spec fn not_next(tag: u8, s: Seq<u8>) -> bool {
    s.len() == 0 || s[0] != tag
}

/// A varint reads back as the number it was written from.
pub proof fn lemma_read_varint(n: nat, rest: Seq<u8>)
    ensures
        varint(n).len() >= 1,
        read_varint(varint(n) + rest) == Some((n, varint(n).len())),
    decreases n,
{
    let s = varint(n) + rest;
    if n < 128 {
        assert(s[0] == n as u8);
    } else {
        lemma_read_varint(n / 128, rest);
        assert(s[0] == (n % 128 + 128) as u8);
        assert(s.drop_first() =~= varint(n / 128) + rest);
        assert(n == 128 * (n / 128) + n % 128);
    }
}

/// A length-delimited field reads back as its body.
pub proof fn lemma_read_len_field(tag: u8, body: Seq<u8>, rest: Seq<u8>)
    ensures
        read_len_field(tag, len_field(tag, body) + rest) == Some((body, len_field(tag, body).len())),
        len_field(tag, body).len() >= 2,
{
    let f = len_field(tag, body);
    let s = f + rest;
    lemma_read_varint(body.len(), body + rest);
    assert(s.drop_first() =~= varint(body.len()) + (body + rest));
    let k = varint(body.len()).len();
    assert(s.subrange((1 + k) as int, (1 + k + body.len()) as int) =~= body);
}

/// A singular length-delimited field reads back as its body, where the next
/// field has another key.
pub proof fn lemma_read_bytes_field(tag: u8, body: Seq<u8>, rest: Seq<u8>)
    requires
        not_next(tag, rest),
    ensures
        read_bytes_field(tag, bytes_field(tag, body) + rest) == (body, bytes_field(tag, body).len()),
{
    if body.len() == 0 {
        assert(bytes_field(tag, body) + rest =~= rest);
    } else {
        lemma_read_len_field(tag, body, rest);
    }
}

/// A singular varint field reads back as its number, where the next field has
/// another key.
pub proof fn lemma_read_varint_field(tag: u8, n: nat, rest: Seq<u8>)
    requires
        not_next(tag, rest),
    ensures
        read_varint_field(tag, varint_field(tag, n) + rest) == (n, varint_field(tag, n).len()),
{
    if n == 0 {
        assert(varint_field(tag, n) + rest =~= rest);
    } else {
        let s = varint_field(tag, n) + rest;
        lemma_read_varint(n, rest);
        assert(s.drop_first() =~= varint(n) + rest);
    }
}

/// A repeated field reads back as its bodies, where the next field has another
/// key.
pub proof fn lemma_read_repeated_field(tag: u8, bodies: Seq<Seq<u8>>, rest: Seq<u8>)
    requires
        not_next(tag, rest),
    ensures
        read_repeated_field(tag, repeated_field(tag, bodies) + rest) == (bodies, repeated_field(tag, bodies).len()),
    decreases bodies.len(),
{
    let s = repeated_field(tag, bodies) + rest;
    if bodies.len() == 0 {
        assert(s =~= rest);
        assert(bodies =~= Seq::<Seq<u8>>::empty());
    } else {
        let tail = repeated_field(tag, bodies.drop_first());
        lemma_read_len_field(tag, bodies[0], tail + rest);
        assert(s =~= len_field(tag, bodies[0]) + (tail + rest));
        let k = len_field(tag, bodies[0]).len();
        assert(s.subrange(k as int, s.len() as int) =~= tail + rest);
        lemma_read_repeated_field(tag, bodies.drop_first(), rest);
        assert(seq![bodies[0]] + bodies.drop_first() =~= bodies);
    }
}

/// Writing a repeated field one element at a time.
pub proof fn lemma_repeated_field_push(tag: u8, bodies: Seq<Seq<u8>>, b: Seq<u8>)
    ensures
        repeated_field(tag, bodies.push(b)) == repeated_field(tag, bodies) + len_field(tag, b),
    decreases bodies.len(),
{
    if bodies.len() == 0 {
        assert(bodies.push(b).drop_first() =~= Seq::<Seq<u8>>::empty());
        assert(bodies.push(b)[0] == b);
        assert(repeated_field(tag, Seq::<Seq<u8>>::empty()) == Seq::<u8>::empty());
        assert(repeated_field(tag, bodies) == Seq::<u8>::empty());
        assert(repeated_field(tag, bodies.push(b)) == len_field(tag, b) + repeated_field(tag, bodies.push(b).drop_first()));
        assert(repeated_field(tag, bodies.push(b)) =~= repeated_field(tag, bodies) + len_field(tag, b));
    } else {
        lemma_repeated_field_push(tag, bodies.drop_first(), b);
        assert(bodies.push(b).drop_first() =~= bodies.drop_first().push(b));
        assert(bodies.push(b)[0] == bodies[0]);
        assert(repeated_field(tag, bodies.push(b)) == len_field(tag, bodies[0]) + repeated_field(tag, bodies.drop_first().push(b)));
        assert(repeated_field(tag, bodies) == len_field(tag, bodies[0]) + repeated_field(tag, bodies.drop_first()));
        assert(repeated_field(tag, bodies.push(b)) =~= repeated_field(tag, bodies) + len_field(tag, b));
    }
}

/// Appends the varint of `n`.
pub fn push_varint(out: &mut Vec<u8>, n: u64)
    ensures
        final(out)@ == old(out)@ + varint(n as nat),
    decreases n,
{
    if n < 128 {
        out.push(n as u8);
        assert(out@ =~= old(out)@ + varint(n as nat));
    } else {
        out.push((n % 128 + 128) as u8);
        let ghost mid = out@;
        push_varint(out, n / 128);
        assert(out@ =~= old(out)@ + varint(n as nat));
    }
}

/// Appends a length-delimited field with key `tag` and body `body`.
pub fn push_len_field(out: &mut Vec<u8>, tag: u8, body: &[u8])
    ensures
        final(out)@ == old(out)@ + len_field(tag, body@),
{
    out.push(tag);
    push_varint(out, body.len() as u64);
    crate::encoding::extend_bytes(out, body);
    assert(out@ =~= old(out)@ + len_field(tag, body@));
}

/// Appends a singular length-delimited field, left out where `body` is empty.
pub fn push_bytes_field(out: &mut Vec<u8>, tag: u8, body: &[u8])
    ensures
        final(out)@ == old(out)@ + bytes_field(tag, body@),
{
    if body.len() == 0 {
        assert(out@ =~= old(out)@ + bytes_field(tag, body@));
    } else {
        push_len_field(out, tag, body);
    }
}

/// Appends a singular varint field, left out where `n` is zero.
pub fn push_varint_field(out: &mut Vec<u8>, tag: u8, n: u64)
    ensures
        final(out)@ == old(out)@ + varint_field(tag, n as nat),
{
    if n == 0 {
        assert(out@ =~= old(out)@ + varint_field(tag, n as nat));
    } else {
        out.push(tag);
        push_varint(out, n);
        assert(out@ =~= old(out)@ + varint_field(tag, n as nat));
    }
}

} // verus!
