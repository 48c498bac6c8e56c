use vstd::prelude::*;
use vstd::string::*;
use vstd::utf8::*;
use crate::text::{decimal, decimal_text, string_from_utf8};

verus! {

/// The bytes that a query string shows as they are: letters, digits, `*`, `-`, `.`
/// and `_`.
pub open spec fn is_unreserved(b: u8) -> bool {
    ||| 0x30 <= b <= 0x39
    ||| 0x41 <= b <= 0x5a
    ||| 0x61 <= b <= 0x7a
    ||| b == 0x2a
    ||| b == 0x2d
    ||| b == 0x2e
    ||| b == 0x5f
}

/// The upper-case hexadecimal digit of a value below 16.
pub open spec fn hex_digit(n: int) -> u8 {
    if n < 10 {
        (0x30 + n) as u8
    } else {
        (0x41 + n - 10) as u8
    }
}

/// One byte as the query string shows it: itself, `+` for a space, or `%` and two
/// hexadecimal digits.
pub open spec fn encode_byte(b: u8) -> Seq<u8> {
    if is_unreserved(b) {
        seq![b]
    } else if b == 0x20 {
        seq![0x2bu8]
    } else {
        seq![0x25u8, hex_digit(b as int / 16), hex_digit(b as int % 16)]
    }
}

/// A name or a value as the query string shows it.
pub open spec fn encode_component(bytes: Seq<u8>) -> Seq<u8>
    decreases bytes.len(),
{
    if bytes.len() == 0 {
        Seq::empty()
    } else {
        encode_component(bytes.drop_last()) + encode_byte(bytes.last())
    }
}

/// A pair as the query string shows it: the name, `=`, the value.
pub open spec fn encode_pair(pair: (Seq<u8>, Seq<u8>)) -> Seq<u8> {
    encode_component(pair.0) + seq![0x3du8] + encode_component(pair.1)
}

/// The query string of a list of pairs: the pairs in their order, with `&` between
/// them.
pub open spec fn encode_pairs(pairs: Seq<(Seq<u8>, Seq<u8>)>) -> Seq<u8>
    decreases pairs.len(),
{
    if pairs.len() == 0 {
        Seq::empty()
    } else if pairs.len() == 1 {
        encode_pair(pairs[0])
    } else {
        encode_pairs(pairs.drop_last()) + seq![0x26u8] + encode_pair(pairs.last())
    }
}

/// The pairs of a query payload as bytes.
pub open spec fn pair_bytes(pairs: Seq<(Seq<char>, Seq<char>)>) -> Seq<(Seq<u8>, Seq<u8>)> {
    Seq::new(pairs.len(), |i: int| (encode_utf8(pairs[i].0), encode_utf8(pairs[i].1)))
}

/// Whether every byte is below 128.
pub open spec fn all_ascii(bytes: Seq<u8>) -> bool {
    forall|i: int| 0 <= i < bytes.len() ==> #[trigger] bytes[i] < 128
}

fn hex_byte(n: u8) -> (b: u8)
    requires
        n < 16,
    ensures
        b == hex_digit(n as int),
        b < 128,
{
    if n < 10 {
        0x30 + n
    } else {
        0x41 + (n - 10)
    }
}

fn push_component(out: &mut Vec<u8>, text: &str)
    requires
        all_ascii(old(out)@),
    ensures
        final(out)@ == old(out)@ + encode_component(encode_utf8(text@)),
        all_ascii(final(out)@),
{
    let bytes = text.as_bytes();
    let ghost start = out@;
    let mut i: usize = 0;
    while i < bytes.len()
        invariant
            i <= bytes.len(),
            bytes@ == encode_utf8(text@),
            out@ == start + encode_component(bytes@.take(i as int)),
            all_ascii(out@),
        decreases bytes.len() - i,
    {
        let b = bytes[i];
        proof {
            assert(bytes@.take(i + 1).drop_last() =~= bytes@.take(i as int));
            assert(bytes@.take(i + 1).last() == b);
        }
        let ghost before = out@;
        if (0x30 <= b && b <= 0x39) || (0x41 <= b && b <= 0x5a) || (0x61 <= b && b <= 0x7a) || b
            == 0x2a || b == 0x2d || b == 0x2e || b == 0x5f {
            out.push(b);
            assert(out@ =~= before + encode_byte(b));
        } else if b == 0x20 {
            out.push(0x2b);
            assert(out@ =~= before + encode_byte(b));
        } else {
            out.push(0x25);
            out.push(hex_byte(b / 16));
            out.push(hex_byte(b % 16));
            assert(out@ =~= before + encode_byte(b));
        }
        assert(out@ =~= start + encode_component(bytes@.take(i + 1)));
        i += 1;
    }
    assert(bytes@.take(i as int) =~= bytes@);
}

/// The pairs of a list of owned pairs.
pub open spec fn pairs_view(pairs: Seq<(String, String)>) -> Seq<(Seq<char>, Seq<char>)> {
    Seq::new(pairs.len(), |i: int| (pairs[i].0@, pairs[i].1@))
}

/// Every query string is plain ASCII, and so is text.
pub proof fn lemma_ascii_is_utf8(bytes: Seq<u8>)
    requires
        all_ascii(bytes),
    ensures
        valid_utf8(bytes),
    decreases bytes.len(),
{
    if bytes.len() > 0 {
        let rest = pop_first_scalar(bytes);
        assert(bytes[0] < 128);
        assert(rest =~= bytes.subrange(1, bytes.len() as int));
        assert forall|i: int| 0 <= i < rest.len() implies #[trigger] rest[i] < 128 by {
            assert(rest[i] == bytes[i + 1]);
        }
        lemma_ascii_is_utf8(rest);
    }
}

/// Writes the pairs as one query string.
pub fn encode_query(pairs: &Vec<(String, String)>) -> (r: Option<String>)
    ensures
        pairs@.len() == 0 ==> r is None,
        pairs@.len() > 0 ==> r is Some,
        r matches Some(s) ==> encode_utf8(s@) == encode_pairs(pair_bytes(pairs_view(pairs@))),
{
    if pairs.len() == 0 {
        return None;
    }
    let ghost all = pair_bytes(pairs_view(pairs@));
    let mut out: Vec<u8> = Vec::new();
    let mut i: usize = 0;
    while i < pairs.len()
        invariant
            i <= pairs.len(),
            all == pair_bytes(pairs_view(pairs@)),
            all.len() == pairs@.len(),
            out@ == encode_pairs(all.take(i as int)),
            all_ascii(out@),
        decreases pairs.len() - i,
    {
        proof {
            assert(all.take(i + 1).drop_last() =~= all.take(i as int));
            assert(all.take(i + 1).last() == all[i as int]);
            assert(all[i as int] == (
                encode_utf8(pairs@[i as int].0@),
                encode_utf8(pairs@[i as int].1@),
            ));
        }
        let ghost before = out@;
        if i > 0 {
            out.push(0x26);
        }
        push_component(&mut out, pairs[i].0.as_str());
        out.push(0x3d);
        push_component(&mut out, pairs[i].1.as_str());
        proof {
            if i == 0 {
                assert(before =~= Seq::<u8>::empty());
                assert(all.take(1)[0] == all[0]);
                assert(out@ =~= encode_pair(all[0]));
            } else {
                assert(out@ =~= before + seq![0x26u8] + encode_pair(all[i as int]));
            }
        }
        i += 1;
    }
    proof {
        assert(all.take(i as int) =~= all);
        lemma_ascii_is_utf8(out@);
    }
    string_from_utf8(out)
}

/// A value that is written into a query string.
pub trait QueryValue {
    /// The text that stands for `self`.
    spec fn query_value(&self) -> Seq<char>;

    fn to_query_value(&self) -> (s: String)
        ensures
            s@ == self.query_value(),
    ;
}

impl QueryValue for String {
    open spec fn query_value(&self) -> Seq<char> {
        self@
    }

    fn to_query_value(&self) -> (s: String) {
        self.clone()
    }
}

impl QueryValue for bool {
    open spec fn query_value(&self) -> Seq<char> {
        if *self {
            "true"@
        } else {
            "false"@
        }
    }

    fn to_query_value(&self) -> (s: String) {
        if *self {
            String::from_str("true")
        } else {
            String::from_str("false")
        }
    }
}

impl QueryValue for u8 {
    open spec fn query_value(&self) -> Seq<char> {
        decimal(*self as nat)
    }

    fn to_query_value(&self) -> (s: String) {
        decimal_text(*self as u64)
    }
}

impl QueryValue for u16 {
    open spec fn query_value(&self) -> Seq<char> {
        decimal(*self as nat)
    }

    fn to_query_value(&self) -> (s: String) {
        decimal_text(*self as u64)
    }
}

impl QueryValue for u32 {
    open spec fn query_value(&self) -> Seq<char> {
        decimal(*self as nat)
    }

    fn to_query_value(&self) -> (s: String) {
        decimal_text(*self as u64)
    }
}

/// The pair that a field contributes to a query: none where the field is absent.
pub open spec fn optional_pair<T: QueryValue>(key: Seq<char>, value: Option<T>) -> Seq<
    (Seq<char>, Seq<char>),
> {
    match value {
        Some(v) => seq![(key, v.query_value())],
        None => Seq::empty(),
    }
}

/// The pair that a field which is always present contributes to a query.
pub open spec fn required_pair<T: QueryValue>(key: Seq<char>, value: T) -> Seq<
    (Seq<char>, Seq<char>),
> {
    seq![(key, value.query_value())]
}

/// Collects the pairs of a query in the order in which they are added.
pub struct QueryBuilder {
    pairs: Vec<(String, String)>,
}

impl View for QueryBuilder {
    type V = Seq<(Seq<char>, Seq<char>)>;

    closed spec fn view(&self) -> Seq<(Seq<char>, Seq<char>)> {
        pairs_view(self.pairs@)
    }
}

impl QueryBuilder {
    pub fn new() -> (b: QueryBuilder)
        ensures
            b@ == Seq::<(Seq<char>, Seq<char>)>::empty(),
    {
        let b = QueryBuilder { pairs: Vec::new() };
        assert(b@ =~= Seq::<(Seq<char>, Seq<char>)>::empty());
        b
    }

    /// Adds a field that is always written.
    pub fn field<T: QueryValue>(&mut self, key: &str, value: &T)
        ensures
            final(self)@ == old(self)@ + required_pair::<T>(key@, *value),
    {
        let text = value.to_query_value();
        self.pairs.push((String::from_str(key), text));
        assert(final(self)@ =~= old(self)@ + required_pair::<T>(key@, *value));
    }

    /// Adds a field that is written only where it is present.
    pub fn optional<T: QueryValue>(&mut self, key: &str, value: &Option<T>)
        ensures
            final(self)@ == old(self)@ + optional_pair::<T>(key@, *value),
    {
        match value {
            Some(v) => {
                let text = v.to_query_value();
                self.pairs.push((String::from_str(key), text));
            },
            None => {},
        }
        assert(final(self)@ =~= old(self)@ + optional_pair::<T>(key@, *value));
    }

    /// Adds the pairs of a payload that is written into this one, where it is present.
    pub fn flatten<Q: QueryPayload>(&mut self, value: &Option<Q>)
        ensures
            final(self)@ == old(self)@ + optional_pairs::<Q>(*value),
    {
        match value {
            Some(inner) => {
                let mut added = inner.to_query_pairs();
                let ghost before = self@;
                let ghost all = pairs_view(added@);
                let mut rest: Vec<(String, String)> = Vec::new();
                while added.len() > 0
                    invariant
                        rest@.len() + added@.len() == all.len(),
                        forall|k: int|
                            0 <= k < added@.len() ==> (added@[k].0@, added@[k].1@) == all[k],
                        forall|k: int|
                            0 <= k < rest@.len() ==> (rest@[k].0@, rest@[k].1@) == all[all.len()
                                - 1 - k],
                    decreases added.len(),
                {
                    let pair = added.pop().unwrap();
                    rest.push(pair);
                }
                while rest.len() > 0
                    invariant
                        rest@.len() <= all.len(),
                        forall|k: int|
                            0 <= k < rest@.len() ==> (rest@[k].0@, rest@[k].1@) == all[all.len()
                                - 1 - k],
                        self@ == before + all.take(all.len() - rest@.len()),
                    decreases rest.len(),
                {
                    let pair = rest.pop().unwrap();
                    let ghost n = all.len() - rest@.len() - 1;
                    let ghost so_far = self@;
                    assert((pair.0@, pair.1@) == all[n]);
                    self.pairs.push(pair);
                    assert(self@ =~= so_far.push(all[n]));
                    assert(all.take(n + 1) =~= all.take(n).push(all[n]));
                    assert(self@ =~= before + all.take(n + 1));
                }
                assert(all.take(all.len() as int) =~= all);
            },
            None => {
                assert(self@ + optional_pairs::<Q>(*value) =~= self@);
            },
        }
    }

    /// The pairs added so far.
    pub fn build(self) -> (p: Vec<(String, String)>)
        ensures
            pairs_view(p@) == self@,
    {
        self.pairs
    }
}

/// A payload whose present fields are written into the query string.
pub trait QueryPayload {
    /// The pairs of the fields that are present, in the order of their declaration.
    spec fn query_pairs(&self) -> Seq<(Seq<char>, Seq<char>)>;

    fn to_query_pairs(&self) -> (p: Vec<(String, String)>)
        ensures
            pairs_view(p@) == self.query_pairs(),
    ;
}

/// The pairs that a payload written into another contributes: none where it is absent.
pub open spec fn optional_pairs<Q: QueryPayload>(value: Option<Q>) -> Seq<(Seq<char>, Seq<char>)> {
    match value {
        Some(v) => v.query_pairs(),
        None => Seq::empty(),
    }
}

/// Whether `r` is the query string of `pairs`: none for no pair at all.
pub open spec fn query_string_is(pairs: Seq<(Seq<char>, Seq<char>)>, r: Option<String>) -> bool {
    match r {
        None => pairs.len() == 0,
        Some(s) => pairs.len() > 0 && encode_utf8(s@) == encode_pairs(pair_bytes(pairs)),
    }
}

/// The value of a hexadecimal digit.
pub open spec fn hex_value(b: u8) -> Option<int> {
    if 0x30 <= b <= 0x39 {
        Some(b - 0x30)
    } else if 0x41 <= b <= 0x46 {
        Some(b - 0x41 + 10)
    } else if 0x61 <= b <= 0x66 {
        Some(b - 0x61 + 10)
    } else {
        None
    }
}

/// A name or a value read back from a query string: `+` is a space, `%` and two
/// hexadecimal digits are the byte they give, and any other byte is itself.
pub open spec fn decode_component(text: Seq<u8>) -> Seq<u8>
    decreases text.len(),
{
    if text.len() == 0 {
        Seq::empty()
    } else if text[0] == 0x2b {
        seq![0x20u8] + decode_component(text.skip(1))
    } else if text[0] == 0x25 && text.len() >= 3 && hex_value(text[1]) is Some && hex_value(
        text[2],
    ) is Some {
        seq![(hex_value(text[1]).unwrap() * 16 + hex_value(text[2]).unwrap()) as u8]
            + decode_component(text.skip(3))
    } else {
        seq![text[0]] + decode_component(text.skip(1))
    }
}

/// Where `b` first stands in `text`; the length of `text` where it stands nowhere.
pub open spec fn first_index(text: Seq<u8>, b: u8) -> int
    decreases text.len(),
{
    if text.len() == 0 {
        0
    } else if text[0] == b {
        0
    } else {
        1 + first_index(text.skip(1), b)
    }
}

/// A pair read back from its piece of a query string: the name stands before the
/// first `=`, the value behind it.
pub open spec fn parse_pair(piece: Seq<u8>) -> (Seq<u8>, Seq<u8>) {
    let i = first_index(piece, 0x3d);
    if i < piece.len() {
        (decode_component(piece.take(i)), decode_component(piece.skip(i + 1)))
    } else {
        (decode_component(piece), Seq::empty())
    }
}

/// The pairs read back from a query string: its pieces between the `&`, in their
/// order, an empty piece giving none.
pub open spec fn parse_pairs(text: Seq<u8>) -> Seq<(Seq<u8>, Seq<u8>)>
    decreases text.len(),
{
    if text.len() == 0 {
        Seq::empty()
    } else {
        let i = first_index(text, 0x26);
        let head = text.take(i);
        let rest = if i < text.len() {
            text.skip(i + 1)
        } else {
            Seq::empty()
        };
        if 0 <= i <= text.len() {
            (if head.len() == 0 {
                Seq::empty()
            } else {
                seq![parse_pair(head)]
            }) + parse_pairs(rest)
        } else {
            Seq::empty()
        }
    }
}

/// The pairs read back from a query string, as texts.
pub open spec fn parse_query(text: Seq<u8>) -> Seq<(Seq<char>, Seq<char>)> {
    Seq::new(
        parse_pairs(text).len(),
        |i: int| (decode_utf8(parse_pairs(text)[i].0), decode_utf8(parse_pairs(text)[i].1)),
    )
}

/// Whether neither `&` nor `=` stands in `text`.
pub open spec fn is_plain(text: Seq<u8>) -> bool {
    forall|i: int| 0 <= i < text.len() ==> #[trigger] text[i] != 0x26 && text[i] != 0x3d
}

proof fn lemma_first_index_behind(a: Seq<u8>, b: u8, c: Seq<u8>)
    requires
        forall|i: int| 0 <= i < a.len() ==> a[i] != b,
    ensures
        first_index(a + seq![b] + c, b) == a.len(),
        first_index(a, b) == a.len(),
    decreases a.len(),
{
    if a.len() > 0 {
        assert((a + seq![b] + c).skip(1) =~= a.skip(1) + seq![b] + c);
        assert((a + seq![b] + c)[0] == a[0]);
        lemma_first_index_behind(a.skip(1), b, c);
    } else {
        assert((a + seq![b] + c)[0] == b);
    }
}

proof fn lemma_encode_component_front(x: Seq<u8>)
    requires
        x.len() > 0,
    ensures
        encode_component(x) == encode_byte(x[0]) + encode_component(x.drop_first()),
    decreases x.len(),
{
    if x.len() == 1 {
        assert(x.drop_last() =~= Seq::<u8>::empty());
        assert(x.drop_first() =~= Seq::<u8>::empty());
        assert(encode_component(x) =~= encode_byte(x[0]) + encode_component(x.drop_first()));
    } else {
        lemma_encode_component_front(x.drop_last());
        assert(x.drop_first().drop_last() =~= x.drop_last().drop_first());
        assert(x.drop_last()[0] == x[0]);
        assert(x.drop_first().last() == x.last());
        assert(encode_component(x) =~= encode_byte(x[0]) + encode_component(x.drop_first()));
    }
}

proof fn lemma_hex_value(n: int)
    requires
        0 <= n < 16,
    ensures
        hex_value(hex_digit(n)) == Some(n),
        hex_digit(n) != 0x26,
        hex_digit(n) != 0x3d,
{
}

proof fn lemma_decode_encoded_byte(b: u8, rest: Seq<u8>)
    ensures
        decode_component(encode_byte(b) + rest) == seq![b] + decode_component(rest),
{
    let text = encode_byte(b) + rest;
    if is_unreserved(b) {
        assert(text[0] == b);
        assert(text.skip(1) =~= rest);
    } else if b == 0x20 {
        assert(text[0] == 0x2b);
        assert(text.skip(1) =~= rest);
    } else {
        lemma_hex_value(b as int / 16);
        lemma_hex_value(b as int % 16);
        assert(text[0] == 0x25);
        assert(text[1] == hex_digit(b as int / 16));
        assert(text[2] == hex_digit(b as int % 16));
        assert(text.skip(3) =~= rest);
        assert(((b as int / 16) * 16 + b as int % 16) as u8 == b);
    }
}

/// Reading a written name or value gives it back.
pub proof fn lemma_decode_encode_component(x: Seq<u8>)
    ensures
        decode_component(encode_component(x)) == x,
    decreases x.len(),
{
    if x.len() > 0 {
        lemma_encode_component_front(x);
        lemma_decode_encoded_byte(x[0], encode_component(x.drop_first()));
        lemma_decode_encode_component(x.drop_first());
        assert(seq![x[0]] + x.drop_first() =~= x);
    }
}

/// A written name or value holds neither `&` nor `=`.
pub proof fn lemma_encoded_is_plain(x: Seq<u8>)
    ensures
        is_plain(encode_component(x)),
    decreases x.len(),
{
    if x.len() > 0 {
        lemma_encoded_is_plain(x.drop_last());
        let b = x.last();
        lemma_hex_value(b as int / 16);
        lemma_hex_value(b as int % 16);
        let head = encode_component(x.drop_last());
        let tail = encode_byte(b);
        assert forall|i: int| 0 <= i < (head + tail).len() implies #[trigger] (head + tail)[i]
            != 0x26 && (head + tail)[i] != 0x3d by {
            if i < head.len() {
                assert((head + tail)[i] == head[i]);
            } else {
                assert((head + tail)[i] == tail[i - head.len()]);
            }
        }
    }
}

proof fn lemma_parse_encoded_pair(pair: (Seq<u8>, Seq<u8>))
    ensures
        parse_pair(encode_pair(pair)) == pair,
        encode_pair(pair).len() > 0,
        forall|i: int| 0 <= i < encode_pair(pair).len() ==> encode_pair(pair)[i] != 0x26,
{
    let name = encode_component(pair.0);
    let value = encode_component(pair.1);
    let piece = encode_pair(pair);
    lemma_encoded_is_plain(pair.0);
    lemma_encoded_is_plain(pair.1);
    lemma_decode_encode_component(pair.0);
    lemma_decode_encode_component(pair.1);
    lemma_first_index_behind(name, 0x3d, value);
    assert(piece.take(name.len() as int) =~= name);
    assert(piece.skip(name.len() as int + 1) =~= value);
    assert forall|i: int| 0 <= i < piece.len() implies piece[i] != 0x26 by {
        if i < name.len() {
            assert(piece[i] == name[i]);
        } else if i == name.len() {
            assert(piece[i] == 0x3d);
        } else {
            assert(piece[i] == value[i - name.len() - 1]);
        }
    }
}

proof fn lemma_encode_pairs_front(pairs: Seq<(Seq<u8>, Seq<u8>)>)
    requires
        pairs.len() >= 2,
    ensures
        encode_pairs(pairs) == encode_pair(pairs[0]) + seq![0x26u8] + encode_pairs(
            pairs.drop_first(),
        ),
    decreases pairs.len(),
{
    if pairs.len() == 2 {
        assert(pairs.drop_last().len() == 1);
        assert(pairs.drop_last()[0] == pairs[0]);
        assert(pairs.drop_first().len() == 1);
        assert(pairs.drop_first()[0] == pairs.last());
        assert(encode_pairs(pairs.drop_last()) == encode_pair(pairs[0]));
        assert(encode_pairs(pairs.drop_first()) == encode_pair(pairs.last()));
    } else {
        lemma_encode_pairs_front(pairs.drop_last());
        assert(pairs.drop_first().drop_last() =~= pairs.drop_last().drop_first());
        assert(pairs.drop_last()[0] == pairs[0]);
        assert(pairs.drop_first().last() == pairs.last());
        assert(encode_pairs(pairs) =~= encode_pair(pairs[0]) + seq![0x26u8] + encode_pairs(
            pairs.drop_first(),
        ));
    }
}

/// Reading a written query string gives back the pairs that were written, in their
/// order, and nothing else.
pub proof fn lemma_parse_encode_pairs(pairs: Seq<(Seq<u8>, Seq<u8>)>)
    ensures
        parse_pairs(encode_pairs(pairs)) == pairs,
    decreases pairs.len(),
{
    if pairs.len() == 0 {
    } else if pairs.len() == 1 {
        let text = encode_pair(pairs[0]);
        lemma_parse_encoded_pair(pairs[0]);
        lemma_first_index_behind(text, 0x26, Seq::empty());
        assert(text.take(text.len() as int) =~= text);
        assert(parse_pairs(Seq::<u8>::empty()) =~= Seq::<(Seq<u8>, Seq<u8>)>::empty());
        assert(parse_pairs(text) =~= seq![pairs[0]]);
        assert(seq![pairs[0]] =~= pairs);
    } else {
        let head = encode_pair(pairs[0]);
        let rest = encode_pairs(pairs.drop_first());
        let text = encode_pairs(pairs);
        lemma_encode_pairs_front(pairs);
        lemma_parse_encoded_pair(pairs[0]);
        lemma_first_index_behind(head, 0x26, rest);
        assert(text.take(head.len() as int) =~= head);
        assert(text.skip(head.len() as int + 1) =~= rest);
        lemma_parse_encode_pairs(pairs.drop_first());
        assert(seq![pairs[0]] + pairs.drop_first() =~= pairs);
    }
}

/// Writing the present fields of a payload and reading the query string back gives
/// exactly those fields, each with its value, in the order of their declaration; a
/// payload of which no field is present has no query string.
pub proof fn lemma_query_round_trip<Q: QueryPayload>(payload: Q, text: Option<String>)
    requires
        query_string_is(payload.query_pairs(), text),
    ensures
        match text {
            None => payload.query_pairs().len() == 0,
            Some(s) => parse_query(encode_utf8(s@)) == payload.query_pairs(),
        },
{
    match text {
        None => {},
        Some(s) => {
            let pairs = payload.query_pairs();
            lemma_parse_encode_pairs(pair_bytes(pairs));
            assert forall|i: int| 0 <= i < pairs.len() implies #[trigger] parse_query(
                encode_utf8(s@),
            )[i] == pairs[i] by {
                encode_utf8_decode_utf8(pairs[i].0);
                encode_utf8_decode_utf8(pairs[i].1);
            }
            assert(parse_query(encode_utf8(s@)) =~= pairs);
        },
    }
}

} // verus!
