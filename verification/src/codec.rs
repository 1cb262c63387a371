//! The byte encoding of records.
//!
//! Every type that can be stored implements [`Codec`]: it names the byte
//! string that stands for a value and the parser that reads one value from
//! the front of a byte string, and proves that each undoes the other. So a
//! value has one encoding, and no other bytes are taken for it.
//!
//! Integers are eight bytes, least significant first; a text is the length of
//! its UTF-8 form followed by that form; a list is its length followed by its
//! items; a variant is one byte; a record is its fields one after the other.

use vstd::bytes::*;
use vstd::prelude::*;
use vstd::slice::*;
use vstd::utf8::*;

verus! {

/// A type with a byte encoding.
pub trait Codec: Sized {
    /// The mathematical value that an executable value stands for.
    type Model;

    /// The mathematical value that `self` stands for.
    spec fn model(&self) -> Self::Model;

    /// Whether every length inside `value` fits the eight bytes of a length
    /// prefix. Every executable value does.
    spec fn encodable(value: Self::Model) -> bool;

    /// The bytes that stand for `value`.
    spec fn encoding(value: Self::Model) -> Seq<u8>;

    /// Reads one value from the front of `bytes`: the value and the bytes
    /// that follow it, or nothing where `bytes` do not start with a value.
    spec fn parse(bytes: Seq<u8>) -> Option<(Self::Model, Seq<u8>)>;

    /// Parsing undoes encoding, whatever follows the encoded value.
    proof fn lemma_parse_encoding(value: Self::Model, rest: Seq<u8>)
        requires
            Self::encodable(value),
        ensures
            Self::parse(Self::encoding(value) + rest) == Some((value, rest)),
    ;

    /// Encoding undoes parsing: the parser accepts nothing but the encoding
    /// of a value, followed by the bytes that it leaves.
    proof fn lemma_encoding_parse(bytes: Seq<u8>)
        requires
            Self::parse(bytes) is Some,
        ensures
            Self::parse(bytes) matches Some((value, rest)) && Self::encodable(value) && bytes
                == Self::encoding(value) + rest,
    ;

    /// Appends the encoding of `self` to `out`.
    fn encode(&self, out: &mut Vec<u8>)
        ensures
            Self::encodable(self.model()),
            final(out)@ == old(out)@ + Self::encoding(self.model()),
    ;

    /// Reads one value from `bytes` at `start`, and says where it ends.
    fn decode(bytes: &[u8], start: usize) -> (read: Option<(Self, usize)>)
        requires
            start <= bytes@.len(),
        ensures
            read.is_some() == Self::parse(bytes@.skip(start as int)).is_some(),
            read matches Some((value, end)) ==> {
                &&& start <= end <= bytes@.len()
                &&& Self::parse(bytes@.skip(start as int)) == Some(
                    (value.model(), bytes@.skip(end as int)),
                )
            },
    ;
}

/// Joining byte strings gives the same whichever two are joined first.
pub proof fn lemma_concat_assoc(a: Seq<u8>, b: Seq<u8>, c: Seq<u8>)
    ensures
        (a + b) + c == a + (b + c),
{
    assert((a + b) + c =~= a + (b + c));
}

/// The value that `bytes` stand for as a whole, if they stand for one.
pub open spec fn decoding<T: Codec>(bytes: Seq<u8>) -> Option<T::Model> {
    match T::parse(bytes) {
        Some((value, rest)) => if rest.len() == 0 {
            Some(value)
        } else {
            None
        },
        None => None,
    }
}

/// Decoding undoes encoding.
pub proof fn lemma_decoding_encoding<T: Codec>(value: T::Model)
    requires
        T::encodable(value),
    ensures
        decoding::<T>(T::encoding(value)) == Some(value),
{
    T::lemma_parse_encoding(value, Seq::empty());
    assert(T::encoding(value) + Seq::<u8>::empty() =~= T::encoding(value));
}

/// Encoding undoes decoding: the only bytes that stand for a value are its
/// encoding.
pub proof fn lemma_encoding_decoding<T: Codec>(bytes: Seq<u8>)
    requires
        decoding::<T>(bytes) is Some,
    ensures
        T::encodable(decoding::<T>(bytes).unwrap()),
        T::encoding(decoding::<T>(bytes).unwrap()) == bytes,
{
    T::lemma_encoding_parse(bytes);
    let value = decoding::<T>(bytes).unwrap();
    assert(T::encoding(value) + Seq::<u8>::empty() =~= T::encoding(value));
}

/// The bytes that stand for `value`, in a vector of their own.
pub fn to_bytes<T: Codec>(value: &T) -> (bytes: Vec<u8>)
    ensures
        T::encodable(value.model()),
        bytes@ == T::encoding(value.model()),
{
    let mut bytes: Vec<u8> = Vec::new();
    value.encode(&mut bytes);
    assert(Seq::<u8>::empty() + T::encoding(value.model()) =~= T::encoding(value.model()));
    bytes
}

/// The bytes do not stand for a value of the type asked for.
#[derive(Clone, Copy, Debug, PartialEq, Eq, Structural)]
pub struct DecodeError;

/// The value that `bytes` stand for as a whole. Bytes that stand for none
/// are refused: a value cut short, bytes left over, a tag that names no
/// variant, a text that is not UTF-8.
pub fn from_bytes<T: Codec>(bytes: &[u8]) -> (value: Result<T, DecodeError>)
    ensures
        value.is_ok() == decoding::<T>(bytes@).is_some(),
        value matches Ok(v) ==> decoding::<T>(bytes@) == Some(v.model()),
{
    assert(bytes@.skip(0) =~= bytes@);
    match T::decode(bytes, 0) {
        Some((value, end)) => {
            if end == bytes.len() {
                Ok(value)
            } else {
                Err(DecodeError)
            }
        },
        None => Err(DecodeError),
    }
}

impl Codec for u64 {
    type Model = u64;

    open spec fn model(&self) -> u64 {
        *self
    }

    open spec fn encodable(value: u64) -> bool {
        true
    }

    open spec fn encoding(value: u64) -> Seq<u8> {
        spec_u64_to_le_bytes(value)
    }

    open spec fn parse(bytes: Seq<u8>) -> Option<(u64, Seq<u8>)> {
        if bytes.len() >= 8 {
            Some((spec_u64_from_le_bytes(bytes.subrange(0, 8)), bytes.skip(8)))
        } else {
            None
        }
    }

    proof fn lemma_parse_encoding(value: u64, rest: Seq<u8>) {
        lemma_auto_spec_u64_to_from_le_bytes();
        let bytes = spec_u64_to_le_bytes(value) + rest;
        assert(bytes.subrange(0, 8) =~= spec_u64_to_le_bytes(value));
        assert(bytes.skip(8) =~= rest);
    }

    proof fn lemma_encoding_parse(bytes: Seq<u8>) {
        lemma_auto_spec_u64_to_from_le_bytes();
        let head = bytes.subrange(0, 8);
        assert(spec_u64_to_le_bytes(spec_u64_from_le_bytes(head)) == head);
        assert(bytes =~= head + bytes.skip(8));
    }

    fn encode(&self, out: &mut Vec<u8>) {
        let mut bytes = u64_to_le_bytes(*self);
        out.append(&mut bytes);
    }

    fn decode(bytes: &[u8], start: usize) -> (read: Option<(u64, usize)>) {
        if bytes.len() - start < 8 {
            return None;
        }
        let end: usize = start + 8;
        let value = u64_from_le_bytes(slice_subrange(bytes, start, end));
        proof {
            let tail = bytes@.skip(start as int);
            assert(tail.subrange(0, 8) =~= bytes@.subrange(start as int, end as int));
            assert(tail.skip(8) =~= bytes@.skip(end as int));
        }
        Some((value, end))
    }
}

/// `String::from_utf8`: the text that `bytes` spell, where they are valid
/// UTF-8, and nothing where they are not.
#[verifier::external_body]
fn string_from_utf8(bytes: Vec<u8>) -> (text: Option<String>)
    ensures
        text.is_some() == valid_utf8(bytes@),
        text matches Some(s) ==> s@ == decode_utf8(bytes@),
{
    String::from_utf8(bytes).ok()
}

impl Codec for String {
    type Model = Seq<char>;

    open spec fn model(&self) -> Seq<char> {
        self@
    }

    open spec fn encodable(value: Seq<char>) -> bool {
        encode_utf8(value).len() <= u64::MAX
    }

    open spec fn encoding(value: Seq<char>) -> Seq<u8> {
        u64::encoding(encode_utf8(value).len() as u64) + encode_utf8(value)
    }

    open spec fn parse(bytes: Seq<u8>) -> Option<(Seq<char>, Seq<u8>)> {
        match u64::parse(bytes) {
            Some((len, after)) => if len <= after.len() && valid_utf8(after.subrange(0, len as int)) {
                Some((decode_utf8(after.subrange(0, len as int)), after.skip(len as int)))
            } else {
                None
            },
            None => None,
        }
    }

    proof fn lemma_parse_encoding(value: Seq<char>, rest: Seq<u8>) {
        let text = encode_utf8(value);
        let len = text.len() as u64;
        let after = text + rest;
        assert(Self::encoding(value) + rest =~= u64::encoding(len) + after);
        u64::lemma_parse_encoding(len, after);
        assert(after.subrange(0, len as int) =~= text);
        assert(after.skip(len as int) =~= rest);
        encode_utf8_valid_utf8(value);
        encode_utf8_decode_utf8(value);
    }

    proof fn lemma_encoding_parse(bytes: Seq<u8>) {
        u64::lemma_encoding_parse(bytes);
        let (len, after) = u64::parse(bytes).unwrap();
        let text = after.subrange(0, len as int);
        decode_utf8_encode_utf8(text);
        assert(after =~= text + after.skip(len as int));
        assert(bytes =~= Self::encoding(decode_utf8(text)) + after.skip(len as int));
    }

    fn encode(&self, out: &mut Vec<u8>) {
        let text = self.as_str().as_bytes();
        let len: usize = text.len();
        let ghost before = out@;
        (len as u64).encode(out);
        let ghost middle = out@;
        let mut i: usize = 0;
        while i < len
            invariant
                len == text@.len(),
                i <= len,
                out@ == middle + text@.subrange(0, i as int),
            decreases len - i,
        {
            out.push(text[i]);
            i = i + 1;
            assert(out@ =~= middle + text@.subrange(0, i as int));
        }
        assert(text@.subrange(0, len as int) =~= text@);
        assert(out@ =~= before + Self::encoding(self@));
    }

    fn decode(bytes: &[u8], start: usize) -> (read: Option<(String, usize)>) {
        let (len, at) = match u64::decode(bytes, start) {
            Some(header) => header,
            None => { return None; },
        };
        let available: u64 = (bytes.len() - at) as u64;
        if available < len {
            return None;
        }
        let end: usize = at + len as usize;
        let text = slice_to_vec(slice_subrange(bytes, at, end));
        proof {
            let after = bytes@.skip(at as int);
            assert(after.subrange(0, len as int) =~= text@);
            assert(after.skip(len as int) =~= bytes@.skip(end as int));
        }
        match string_from_utf8(text) {
            Some(value) => Some((value, end)),
            None => None,
        }
    }
}

/// The encodings of the items of `items`, one after the other.
pub open spec fn encoding_of_items<T: Codec>(items: Seq<T::Model>) -> Seq<u8>
    decreases items.len(),
{
    if items.len() == 0 {
        Seq::empty()
    } else {
        T::encoding(items[0]) + encoding_of_items::<T>(items.skip(1))
    }
}

/// Reads `count` items from the front of `bytes`.
pub open spec fn parse_items<T: Codec>(bytes: Seq<u8>, count: nat) -> Option<
    (Seq<T::Model>, Seq<u8>),
>
    decreases count,
{
    if count == 0 {
        Some((Seq::empty(), bytes))
    } else {
        match T::parse(bytes) {
            Some((first, after)) => match parse_items::<T>(after, (count - 1) as nat) {
                Some((others, rest)) => Some((seq![first] + others, rest)),
                None => None,
            },
            None => None,
        }
    }
}

/// Whether every item of `items` can be encoded.
pub open spec fn items_encodable<T: Codec>(items: Seq<T::Model>) -> bool {
    forall|i: int| 0 <= i < items.len() ==> T::encodable(#[trigger] items[i])
}

/// Adding an item at the end of a list adds its encoding at the end.
pub proof fn lemma_encoding_of_items_push<T: Codec>(items: Seq<T::Model>, last: T::Model)
    ensures
        encoding_of_items::<T>(items.push(last)) == encoding_of_items::<T>(items) + T::encoding(
            last,
        ),
    decreases items.len(),
{
    let longer = items.push(last);
    if items.len() == 0 {
        assert(longer.skip(1) =~= Seq::<T::Model>::empty());
        assert(encoding_of_items::<T>(longer.skip(1)) =~= Seq::<u8>::empty());
        assert(encoding_of_items::<T>(longer) =~= T::encoding(last));
        assert(encoding_of_items::<T>(items) + T::encoding(last) =~= T::encoding(last));
    } else {
        lemma_encoding_of_items_push::<T>(items.skip(1), last);
        assert(longer.skip(1) =~= items.skip(1).push(last));
        assert(encoding_of_items::<T>(longer) =~= T::encoding(items[0]) + (encoding_of_items::<T>(
            items.skip(1),
        ) + T::encoding(last)));
        assert(encoding_of_items::<T>(longer) =~= encoding_of_items::<T>(items) + T::encoding(
            last,
        ));
    }
}

/// Reading as many items as were written gives them back.
pub proof fn lemma_parse_items_encoding<T: Codec>(items: Seq<T::Model>, rest: Seq<u8>)
    requires
        items_encodable::<T>(items),
    ensures
        parse_items::<T>(encoding_of_items::<T>(items) + rest, items.len()) == Some((items, rest)),
    decreases items.len(),
{
    if items.len() == 0 {
        assert(encoding_of_items::<T>(items) + rest =~= rest);
        assert(items =~= Seq::<T::Model>::empty());
    } else {
        let others = items.skip(1);
        let after = encoding_of_items::<T>(others) + rest;
        assert(encoding_of_items::<T>(items) + rest =~= T::encoding(items[0]) + after);
        T::lemma_parse_encoding(items[0], after);
        assert forall|i: int| 0 <= i < others.len() implies T::encodable(
            #[trigger] others[i],
        ) by {
            assert(others[i] == items[i + 1]);
        }
        lemma_parse_items_encoding::<T>(others, rest);
        assert(seq![items[0]] + others =~= items);
    }
}

/// Reading one item and then `count` more is reading `count + 1` items.
pub proof fn lemma_parse_items_step<T: Codec>(
    bytes: Seq<u8>,
    done: Seq<T::Model>,
    here: Seq<u8>,
    left: nat,
)
    requires
        left > 0,
        parse_items::<T>(bytes, done.len()) == Some((done, here)),
    ensures
        parse_items::<T>(bytes, done.len() + left) == match T::parse(here) {
            Some((next, after)) => match parse_items::<T>(after, (left - 1) as nat) {
                Some((others, rest)) => Some((done + (seq![next] + others), rest)),
                None => None,
            },
            None => None,
        },
    decreases done.len(),
{
    if done.len() == 0 {
        assert(here == bytes);
        match T::parse(here) {
            Some((next, after)) => {
                match parse_items::<T>(after, (left - 1) as nat) {
                    Some((others, rest)) => {
                        assert(done + (seq![next] + others) =~= seq![next] + others);
                    },
                    None => {},
                }
            },
            None => {},
        }
    } else {
        let (first, after) = T::parse(bytes).unwrap();
        let (tail, rest0) = parse_items::<T>(after, (done.len() - 1) as nat).unwrap();
        assert(done == seq![first] + tail);
        assert(rest0 == here);
        assert(tail.len() == done.len() - 1);
        lemma_parse_items_step::<T>(after, tail, here, left);
        assert((done.len() + left - 1) as nat == tail.len() + left);
        match T::parse(here) {
            Some((next, after2)) => {
                match parse_items::<T>(after2, (left - 1) as nat) {
                    Some((others, rest)) => {
                        assert(seq![first] + (tail + (seq![next] + others)) =~= done + (seq![next]
                            + others));
                    },
                    None => {},
                }
            },
            None => {},
        }
    }
}

/// Reading `count` items accepts nothing but the encodings of `count`
/// items, followed by the bytes that it leaves.
pub proof fn lemma_encoding_parse_items<T: Codec>(bytes: Seq<u8>, count: nat)
    requires
        parse_items::<T>(bytes, count) is Some,
    ensures
        parse_items::<T>(bytes, count) matches Some((items, rest)) && items.len() == count
            && items_encodable::<T>(items) && bytes == encoding_of_items::<T>(items) + rest,
    decreases count,
{
    let (items, rest) = parse_items::<T>(bytes, count).unwrap();
    if count == 0 {
        assert(bytes =~= encoding_of_items::<T>(items) + rest);
    } else {
        T::lemma_encoding_parse(bytes);
        let (first, after) = T::parse(bytes).unwrap();
        lemma_encoding_parse_items::<T>(after, (count - 1) as nat);
        let (others, last) = parse_items::<T>(after, (count - 1) as nat).unwrap();
        assert(items == seq![first] + others);
        assert(items.skip(1) =~= others);
        assert forall|i: int| 0 <= i < items.len() implies T::encodable(#[trigger] items[i]) by {
            if i > 0 {
                assert(items[i] == others[i - 1]);
            }
        }
        assert(bytes =~= encoding_of_items::<T>(items) + rest);
    }
}

impl<T: Codec> Codec for Vec<T> {
    type Model = Seq<T::Model>;

    open spec fn model(&self) -> Seq<T::Model> {
        Seq::new(self@.len(), |i: int| self@[i].model())
    }

    open spec fn encodable(value: Seq<T::Model>) -> bool {
        value.len() <= u64::MAX && items_encodable::<T>(value)
    }

    open spec fn encoding(value: Seq<T::Model>) -> Seq<u8> {
        u64::encoding(value.len() as u64) + encoding_of_items::<T>(value)
    }

    open spec fn parse(bytes: Seq<u8>) -> Option<(Seq<T::Model>, Seq<u8>)> {
        match u64::parse(bytes) {
            Some((len, after)) => parse_items::<T>(after, len as nat),
            None => None,
        }
    }

    proof fn lemma_parse_encoding(value: Seq<T::Model>, rest: Seq<u8>) {
        let len = value.len() as u64;
        let after = encoding_of_items::<T>(value) + rest;
        assert(Self::encoding(value) + rest =~= u64::encoding(len) + after);
        u64::lemma_parse_encoding(len, after);
        lemma_parse_items_encoding::<T>(value, rest);
    }

    proof fn lemma_encoding_parse(bytes: Seq<u8>) {
        u64::lemma_encoding_parse(bytes);
        let (len, after) = u64::parse(bytes).unwrap();
        lemma_encoding_parse_items::<T>(after, len as nat);
        let (items, rest) = parse_items::<T>(after, len as nat).unwrap();
        assert(bytes =~= Self::encoding(items) + rest);
    }

    fn encode(&self, out: &mut Vec<u8>) {
        let len: usize = self.len();
        let ghost before = out@;
        (len as u64).encode(out);
        let ghost middle = out@;
        let mut i: usize = 0;
        while i < len
            invariant
                len == self@.len(),
                i <= len,
                out@ == middle + encoding_of_items::<T>(self.model().take(i as int)),
                items_encodable::<T>(self.model().take(i as int)),
            decreases len - i,
        {
            let ghost sofar = self.model().take(i as int);
            self[i].encode(out);
            proof {
                let item = self@[i as int].model();
                assert(self.model().take(i + 1) =~= sofar.push(item));
                lemma_encoding_of_items_push::<T>(sofar, item);
                assert(out@ =~= middle + encoding_of_items::<T>(self.model().take(i + 1)));
            }
            i = i + 1;
        }
        assert(self.model().take(len as int) =~= self.model());
        assert(out@ =~= before + Self::encoding(self.model()));
    }

    fn decode(bytes: &[u8], start: usize) -> (read: Option<(Vec<T>, usize)>) {
        let (len, first) = match u64::decode(bytes, start) {
            Some(header) => header,
            None => { return None; },
        };
        let ghost all = bytes@.skip(first as int);
        let mut items: Vec<T> = Vec::new();
        let mut at: usize = first;
        let mut i: u64 = 0;
        assert(items.model() =~= Seq::<T::Model>::empty());
        while i < len
            invariant
                i <= len,
                first <= at <= bytes@.len(),
                all == bytes@.skip(first as int),
                u64::parse(bytes@.skip(start as int)) == Some((len, all)),
                items@.len() == i,
                parse_items::<T>(all, i as nat) == Some((items.model(), bytes@.skip(at as int))),
            decreases len - i,
        {
            let ghost done = items.model();
            proof {
                lemma_parse_items_step::<T>(all, done, bytes@.skip(at as int), (len - i) as nat);
            }
            match T::decode(bytes, at) {
                Some((item, end)) => {
                    proof {
                        let after = bytes@.skip(end as int);
                        assert(parse_items::<T>(after, 0) == Some((Seq::<T::Model>::empty(), after)));
                        lemma_parse_items_step::<T>(all, done, bytes@.skip(at as int), 1);
                        assert(done + (seq![item.model()] + Seq::<T::Model>::empty()) =~= done.push(
                            item.model(),
                        ));
                    }
                    items.push(item);
                    assert(items.model() =~= done.push(item.model()));
                    at = end;
                    i = i + 1;
                },
                None => {
                    assert(done.len() + (len - i) as nat == len as nat);
                    return None;
                },
            }
        }
        Some((items, at))
    }
}

} // verus!
