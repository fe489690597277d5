//! The length-prefixed field format in which transactions travel.
//!
//! A message is a sequence of fields. Each field starts with a key, a
//! variable-length integer holding the field number and the kind of value
//! that follows: another variable-length integer, or a length and that many
//! bytes. Integers are written seven bits at a time, least significant group
//! first, with the high bit of a byte set while more groups follow.

use vstd::prelude::*;

verus! {

/// Largest number of bytes a 64-bit integer can take.
pub const MAX_VARINT_LEN: usize = 10;

/// Kind tag of a field whose value is a variable-length integer.
pub const KIND_VARINT: u64 = 0;

/// Kind tag of a field whose value is a length followed by bytes.
pub const KIND_BYTES: u64 = 2;

/// Largest field number a key can carry.
pub const MAX_FIELD_NUMBER: u32 = 0x1fff_ffff;

/// The bytes of `v` as a variable-length integer.
pub open spec fn varint(v: nat) -> Seq<u8>
    decreases v,
{
    if v < 128 {
        seq![v as u8]
    } else {
        seq![(v % 128 + 128) as u8] + varint(v / 128)
    }
}

/// Reads a variable-length integer of at most `limit` bytes from the front
/// of `s`: the value and the number of bytes it took.
pub open spec fn parse_varint(s: Seq<u8>, limit: nat) -> Option<(nat, nat)>
    decreases limit,
{
    if limit == 0 || s.len() == 0 {
        None
    } else if s[0] < 128 {
        Some((s[0] as nat, 1nat))
    } else {
        match parse_varint(s.skip(1), (limit - 1) as nat) {
            Some((v, n)) => Some(((s[0] - 128) as nat + 128 * v, n + 1)),
            None => None,
        }
    }
}

/// Reads a 64-bit integer from the front of `s`. Longer encodings than ten
/// bytes and values that do not fit are refused.
pub open spec fn parse_u64(s: Seq<u8>) -> Option<(u64, nat)> {
    match parse_varint(s, MAX_VARINT_LEN as nat) {
        Some((v, n)) => if v <= u64::MAX {
            Some((v as u64, n))
        } else {
            None
        },
        None => None,
    }
}

/// A variable-length integer is never empty and takes at most ten bytes for
/// a 64-bit value.
pub proof fn lemma_varint_len(v: nat)
    ensures
        varint(v).len() >= 1,
        v <= u64::MAX ==> varint(v).len() <= 10,
{
    reveal_with_fuel(pow128, 11);
    assert(pow128(10) == 0x40_0000_0000_0000_0000);
    lemma_varint_len_bound(v, 10);
}

/// A value below 128 to the `k` takes at most `k` bytes.
proof fn lemma_varint_len_bound(v: nat, k: nat)
    requires
        k >= 1,
    ensures
        varint(v).len() >= 1,
        v < pow128(k) ==> varint(v).len() <= k,
    decreases v,
{
    reveal_with_fuel(pow128, 2);
    if v >= 128 {
        if k >= 2 {
            lemma_varint_len_bound(v / 128, (k - 1) as nat);
            assert(v < pow128(k) ==> v / 128 < pow128((k - 1) as nat)) by (nonlinear_arith)
                requires
                    pow128(k) == 128 * pow128((k - 1) as nat),
            ;
        } else {
            lemma_varint_len_bound(v / 128, 1);
        }
    }
}

/// 128 to the power `k`.
pub open spec fn pow128(k: nat) -> nat
    decreases k,
{
    if k == 0 {
        1
    } else {
        128 * pow128((k - 1) as nat)
    }
}


/// Reading back what `varint` wrote gives the value and leaves the rest.
pub proof fn lemma_parse_varint(v: nat, rest: Seq<u8>, limit: nat)
    requires
        varint(v).len() <= limit,
    ensures
        parse_varint(varint(v) + rest, limit) == Some((v, varint(v).len())),
    decreases v,
{
    let s = varint(v) + rest;
    if v < 128 {
        assert(s[0] == v as u8);
    } else {
        lemma_varint_len(v / 128);
        assert(s[0] == (v % 128 + 128) as u8);
        assert(s.skip(1) =~= varint(v / 128) + rest);
        lemma_parse_varint(v / 128, rest, (limit - 1) as nat);
    }
}

/// Reading back a 64-bit integer gives the integer and leaves the rest.
pub proof fn lemma_parse_u64(v: u64, rest: Seq<u8>)
    ensures
        parse_u64(varint(v as nat) + rest) == Some((v, varint(v as nat).len())),
        (varint(v as nat) + rest).skip(varint(v as nat).len() as int) == rest,
{
    lemma_varint_len(v as nat);
    lemma_parse_varint(v as nat, rest, 10);
    assert((varint(v as nat) + rest).skip(varint(v as nat).len() as int) =~= rest);
}

/// What `parse_varint` reads lies within the bytes and within the limit.
pub proof fn lemma_parse_varint_bounds(s: Seq<u8>, limit: nat)
    ensures
        parse_varint(s, limit) matches Some((v, n)) ==> 1 <= n <= limit && n <= s.len(),
    decreases limit,
{
    if limit > 0 && s.len() > 0 && s[0] >= 128 {
        lemma_parse_varint_bounds(s.skip(1), (limit - 1) as nat);
    }
}

/// Appends `v` as a variable-length integer.
pub fn write_varint(out: &mut Vec<u8>, v: u64)
    ensures
        final(out)@ == old(out)@ + varint(v as nat),
{
    let mut x: u64 = v;
    while x >= 128
        invariant
            old(out)@ + varint(v as nat) == out@ + varint(x as nat),
        decreases x,
    {
        let ghost before = out@;
        out.push((x % 128 + 128) as u8);
        proof {
            assert(varint(x as nat) == seq![(x % 128 + 128) as u8] + varint((x / 128) as nat));
            assert(before + varint(x as nat) =~= out@ + varint((x / 128) as nat));
        }
        x = x / 128;
    }
    let ghost before = out@;
    out.push(x as u8);
    proof {
        assert(before + varint(x as nat) =~= out@);
    }
}

/// What `read_varint` returns on the bytes `s` with at most `limit` bytes
/// to read.
pub open spec fn parse_u64_within(s: Seq<u8>, limit: nat) -> Option<(u64, usize)> {
    match parse_varint(s, limit) {
        Some((v, n)) => if v <= u64::MAX {
            Some((v as u64, n as usize))
        } else {
            None
        },
        None => None,
    }
}

/// Reads a 64-bit integer of at most `limit` bytes at `pos`.
fn read_varint_within(buf: &[u8], pos: usize, limit: usize) -> (r: Option<(u64, usize)>)
    requires
        pos <= buf@.len(),
        limit <= MAX_VARINT_LEN,
    ensures
        r == parse_u64_within(buf@.skip(pos as int), limit as nat),
        r matches Some((_, n)) ==> 1 <= n <= limit && pos + n <= buf@.len(),
    decreases limit,
{
    let ghost s = buf@.skip(pos as int);
    proof {
        lemma_parse_varint_bounds(s, limit as nat);
    }
    if limit == 0 || pos >= buf.len() {
        return None;
    }
    let b: u8 = buf[pos];
    assert(s[0] == b);
    if b < 128 {
        return Some((b as u64, 1));
    }
    assert(s.skip(1) =~= buf@.skip(pos + 1));
    proof {
        lemma_parse_varint_bounds(s.skip(1), (limit - 1) as nat);
    }
    match read_varint_within(buf, pos + 1, limit - 1) {
        None => None,
        Some((high, n)) => {
            if high > (u64::MAX >> 7) {
                assert(u64::MAX >> 7 == 0x1ff_ffff_ffff_ffff) by (bit_vector);
                None
            } else {
                assert(u64::MAX >> 7 == 0x1ff_ffff_ffff_ffff) by (bit_vector);
                Some(((b - 128) as u64 + 128 * high, n + 1))
            }
        },
    }
}

/// Reads a 64-bit integer at `pos`: the value and the number of bytes read,
/// or `None` where the bytes end early, run past ten, or overflow.
pub fn read_varint(buf: &[u8], pos: usize) -> (r: Option<(u64, usize)>)
    requires
        pos <= buf@.len(),
    ensures
        r == match parse_u64(buf@.skip(pos as int)) {
            Some((v, n)) => Some((v, n as usize)),
            None => None,
        },
        r matches Some((_, n)) ==> 1 <= n <= MAX_VARINT_LEN && pos + n <= buf@.len(),
{
    read_varint_within(buf, pos, MAX_VARINT_LEN)
}

/// The value of one field.
#[derive(Clone, Debug, PartialEq, Eq)]
pub enum Value {
    Varint(u64),
    Bytes(Vec<u8>),
}

/// One field of a message: its number and its value.
#[derive(Clone, Debug, PartialEq, Eq)]
pub struct Field {
    pub number: u32,
    pub value: Value,
}

/// The mathematical value of a field's value.
pub enum ValueView {
    Varint(u64),
    Bytes(Seq<u8>),
}

/// The mathematical value of a field.
pub struct FieldView {
    pub number: u32,
    pub value: ValueView,
}

impl View for Value {
    type V = ValueView;

    open spec fn view(&self) -> ValueView {
        match self {
            Value::Varint(v) => ValueView::Varint(*v),
            Value::Bytes(b) => ValueView::Bytes(b@),
        }
    }
}

impl View for Field {
    type V = FieldView;

    open spec fn view(&self) -> FieldView {
        FieldView { number: self.number, value: self.value@ }
    }
}

/// The views of a run of fields, in order.
pub open spec fn fields_view(fields: Seq<Field>) -> Seq<FieldView> {
    Seq::new(fields.len(), |i: int| fields[i]@)
}

/// A field that can be written: its number is one a key can carry and its
/// bytes have a length that fits 64 bits.
pub open spec fn valid_field(f: FieldView) -> bool {
    &&& 1 <= f.number <= MAX_FIELD_NUMBER
    &&& f.value matches ValueView::Bytes(b) ==> b.len() <= u64::MAX
}

/// Every field of the run can be written.
pub open spec fn valid_fields(fs: Seq<FieldView>) -> bool {
    forall|i: int| 0 <= i < fs.len() ==> valid_field(#[trigger] fs[i])
}

/// The key of a field: its number above three bits of kind.
pub open spec fn field_key(number: u32, kind: u64) -> nat {
    (number * 8 + kind) as nat
}

/// The bytes of one field.
pub open spec fn encode_field(f: FieldView) -> Seq<u8> {
    match f.value {
        ValueView::Varint(v) => varint(field_key(f.number, KIND_VARINT)) + varint(v as nat),
        ValueView::Bytes(b) => varint(field_key(f.number, KIND_BYTES)) + varint(b.len()) + b,
    }
}

/// The bytes of a run of fields, one after the other.
pub open spec fn encode_fields(fs: Seq<FieldView>) -> Seq<u8>
    decreases fs.len(),
{
    if fs.len() == 0 {
        Seq::empty()
    } else {
        encode_field(fs[0]) + encode_fields(fs.skip(1))
    }
}

/// Reads one field from the front of `s`: the field and the number of bytes
/// it took. Field number zero, numbers above the largest a key can carry,
/// kinds other than integer and bytes, and lengths that run past the end
/// are refused.
pub open spec fn parse_field(s: Seq<u8>) -> Option<(FieldView, nat)> {
    match parse_u64(s) {
        None => None,
        Some((key, n)) => {
            let number = key / 8;
            let kind = key % 8;
            if number == 0 || number > MAX_FIELD_NUMBER {
                None
            } else {
                match parse_u64(s.skip(n as int)) {
                    None => None,
                    Some((v, m)) => if kind == KIND_VARINT {
                        Some((FieldView { number: number as u32, value: ValueView::Varint(v) }, n + m))
                    } else if kind == KIND_BYTES && n + m + v <= s.len() {
                        Some(
                            (
                                FieldView {
                                    number: number as u32,
                                    value: ValueView::Bytes(
                                        s.subrange((n + m) as int, (n + m + v) as int),
                                    ),
                                },
                                (n + m + v) as nat,
                            ),
                        )
                    } else {
                        None
                    },
                }
            }
        },
    }
}

/// Reads `s` as a run of fields that fills it exactly.
pub open spec fn parse_fields(s: Seq<u8>) -> Option<Seq<FieldView>>
    decreases s.len(),
{
    if s.len() == 0 {
        Some(Seq::empty())
    } else {
        match parse_field(s) {
            None => None,
            Some((f, n)) => if 0 < n <= s.len() {
                match parse_fields(s.skip(n as int)) {
                    Some(rest) => Some(seq![f] + rest),
                    None => None,
                }
            } else {
                None
            },
        }
    }
}

/// What `parse_field` reads is not empty and lies within the bytes.
pub proof fn lemma_parse_field_bounds(s: Seq<u8>)
    ensures
        parse_field(s) matches Some((f, n)) ==> 2 <= n <= s.len() && valid_field(f),
{
    lemma_parse_varint_bounds(s, 10);
    if let Some((key, n)) = parse_u64(s) {
        lemma_parse_varint_bounds(s.skip(n as int), 10);
    }
}

/// The bytes of two runs of fields are the bytes of the runs joined.
pub proof fn lemma_encode_fields_concat(a: Seq<FieldView>, b: Seq<FieldView>)
    ensures
        encode_fields(a + b) == encode_fields(a) + encode_fields(b),
    decreases a.len(),
{
    if a.len() == 0 {
        assert(a + b =~= b);
        assert(encode_fields(a) + encode_fields(b) =~= encode_fields(b));
    } else {
        lemma_encode_fields_concat(a.skip(1), b);
        assert((a + b).skip(1) =~= a.skip(1) + b);
        assert((a + b)[0] == a[0]);
        assert(encode_fields(a + b) =~= encode_fields(a) + encode_fields(b));
    }
}

/// The bytes of a run of one field are the bytes of that field.
pub proof fn lemma_encode_fields_single(f: FieldView)
    ensures
        encode_fields(seq![f]) == encode_field(f),
{
    assert(seq![f].skip(1) =~= Seq::<FieldView>::empty());
    assert(encode_fields(seq![f].skip(1)) =~= Seq::<u8>::empty());
    assert(encode_field(f) + Seq::<u8>::empty() =~= encode_field(f));
}

/// Reading back a field that was written gives the field and leaves the rest.
pub proof fn lemma_parse_field(f: FieldView, rest: Seq<u8>)
    requires
        valid_field(f),
    ensures
        parse_field(encode_field(f) + rest) == Some((f, encode_field(f).len())),
        encode_field(f).len() >= 2,
        (encode_field(f) + rest).skip(encode_field(f).len() as int) == rest,
{
    let s = encode_field(f) + rest;
    assert(s.skip(encode_field(f).len() as int) =~= rest);
    match f.value {
        ValueView::Varint(v) => {
            let key = (f.number * 8) as u64;
            let tail = varint(v as nat) + rest;
            assert(s =~= varint(key as nat) + tail);
            lemma_parse_u64(key, tail);
            lemma_parse_u64(v, rest);
            lemma_varint_len(key as nat);
            lemma_varint_len(v as nat);
        },
        ValueView::Bytes(b) => {
            let key = (f.number * 8 + 2) as u64;
            let len = b.len() as u64;
            let tail = varint(len as nat) + (b + rest);
            assert(s =~= varint(key as nat) + tail);
            lemma_parse_u64(key, tail);
            lemma_parse_u64(len, b + rest);
            lemma_varint_len(key as nat);
            lemma_varint_len(len as nat);
            let n = varint(key as nat).len();
            let m = varint(len as nat).len();
            assert(s.subrange((n + m) as int, (n + m + len) as int) =~= b);
        },
    }
}

/// Reading back a run of fields that was written gives the run.
pub proof fn lemma_parse_fields(fs: Seq<FieldView>)
    requires
        valid_fields(fs),
    ensures
        parse_fields(encode_fields(fs)) == Some(fs),
    decreases fs.len(),
{
    if fs.len() > 0 {
        let rest = encode_fields(fs.skip(1));
        lemma_parse_field(fs[0], rest);
        assert(valid_fields(fs.skip(1))) by {
            assert forall|i: int| 0 <= i < fs.skip(1).len() implies valid_field(
                #[trigger] fs.skip(1)[i],
            ) by {
                assert(fs.skip(1)[i] == fs[i + 1]);
            }
        }
        lemma_parse_fields(fs.skip(1));
        assert(seq![fs[0]] + fs.skip(1) =~= fs);
    }
}

/// The run holding an integer field, or nothing where the integer is zero.
#[verifier::opaque]
pub open spec fn opt_varint(number: u32, v: u64) -> Seq<FieldView> {
    if v == 0 {
        Seq::empty()
    } else {
        seq![FieldView { number, value: ValueView::Varint(v) }]
    }
}

/// The run holding a bytes field, or nothing where the bytes are empty.
#[verifier::opaque]
pub open spec fn opt_bytes(number: u32, b: Seq<u8>) -> Seq<FieldView> {
    if b.len() == 0 {
        Seq::empty()
    } else {
        seq![FieldView { number, value: ValueView::Bytes(b) }]
    }
}

/// The run holding one bytes field, empty or not.
pub open spec fn one_bytes(number: u32, b: Seq<u8>) -> Seq<FieldView> {
    seq![FieldView { number, value: ValueView::Bytes(b) }]
}

/// The length of a vector fits the machine's word, and so 64 bits.
pub proof fn lemma_len_fits<T>(v: &Vec<T>)
    ensures
        v@.len() <= usize::MAX,
        v@.len() <= u64::MAX,
{
    assert(v.len() == v@.len());
}

/// A copy of `src`.
pub fn copy_bytes(src: &[u8]) -> (r: Vec<u8>)
    ensures
        r@ == src@,
{
    let mut r: Vec<u8> = Vec::new();
    append_bytes(&mut r, src);
    r
}

/// Appends the bytes of `src`.
pub fn append_bytes(out: &mut Vec<u8>, src: &[u8])
    ensures
        final(out)@ == old(out)@ + src@,
{
    let mut i: usize = 0;
    while i < src.len()
        invariant
            i <= src@.len(),
            out@ == old(out)@ + src@.take(i as int),
        decreases src@.len() - i,
    {
        let ghost before = out@;
        out.push(src[i]);
        i += 1;
        assert(out@ =~= old(out)@ + src@.take(i as int));
    }
    assert(src@.take(i as int) =~= src@);
}

/// Appends an integer field, unless the integer is zero.
pub fn put_varint(out: &mut Vec<u8>, number: u32, v: u64)
    requires
        1 <= number <= MAX_FIELD_NUMBER,
    ensures
        final(out)@ == old(out)@ + encode_fields(opt_varint(number, v)),
{
    reveal(opt_varint);
    if v != 0 {
        let ghost f = FieldView { number, value: ValueView::Varint(v) };
        proof {
            lemma_encode_fields_single(f);
        }
        write_varint(out, number as u64 * 8 + KIND_VARINT);
        write_varint(out, v);
        assert(out@ =~= old(out)@ + encode_field(f));
    } else {
        assert(out@ =~= old(out)@ + encode_fields(opt_varint(number, v)));
    }
}

/// Appends a bytes field, empty or not.
pub fn put_message(out: &mut Vec<u8>, number: u32, b: &[u8])
    requires
        1 <= number <= MAX_FIELD_NUMBER,
    ensures
        final(out)@ == old(out)@ + encode_fields(one_bytes(number, b@)),
{
    let ghost f = FieldView { number, value: ValueView::Bytes(b@) };
    proof {
        lemma_encode_fields_single(f);
    }
    write_varint(out, number as u64 * 8 + KIND_BYTES);
    write_varint(out, b.len() as u64);
    append_bytes(out, b);
    assert(out@ =~= old(out)@ + encode_field(f));
}

/// Appends a bytes field, unless the bytes are empty.
pub fn put_bytes(out: &mut Vec<u8>, number: u32, b: &[u8])
    requires
        1 <= number <= MAX_FIELD_NUMBER,
    ensures
        final(out)@ == old(out)@ + encode_fields(opt_bytes(number, b@)),
{
    reveal(opt_bytes);
    if b.len() != 0 {
        put_message(out, number, b);
    } else {
        assert(out@ =~= old(out)@ + encode_fields(opt_bytes(number, b@)));
    }
}

/// The bytes of `buf` from `from` up to `to`.
pub fn slice_bytes(buf: &[u8], from: usize, to: usize) -> (r: Vec<u8>)
    requires
        from <= to <= buf@.len(),
    ensures
        r@ == buf@.subrange(from as int, to as int),
{
    let mut r: Vec<u8> = Vec::new();
    let mut i: usize = from;
    while i < to
        invariant
            from <= i <= to <= buf@.len(),
            r@ == buf@.subrange(from as int, i as int),
        decreases to - i,
    {
        r.push(buf[i]);
        i += 1;
        assert(r@ =~= buf@.subrange(from as int, i as int));
    }
    r
}

/// Reads one field at `pos`: the field and the number of bytes it took.
pub fn read_field(buf: &[u8], pos: usize) -> (r: Option<(Field, usize)>)
    requires
        pos <= buf@.len(),
    ensures
        match r {
            Some((f, n)) => parse_field(buf@.skip(pos as int)) == Some((f@, n as nat)) && 2 <= n
                && pos + n <= buf@.len(),
            None => parse_field(buf@.skip(pos as int)) is None,
        },
{
    let ghost s = buf@.skip(pos as int);
    proof {
        lemma_parse_field_bounds(s);
        lemma_parse_varint_bounds(s, 10);
    }
    let end: usize = buf.len();
    match read_varint(buf, pos) {
        None => None,
        Some((key, n)) => {
            let number: u64 = key / 8;
            let kind: u64 = key % 8;
            if number == 0 || number > MAX_FIELD_NUMBER as u64 {
                return None;
            }
            assert(s.skip(n as int) =~= buf@.skip(pos + n));
            proof {
                lemma_parse_varint_bounds(s.skip(n as int), 10);
            }
            match read_varint(buf, pos + n) {
                None => None,
                Some((v, m)) => {
                    if kind == KIND_VARINT {
                        Some((Field { number: number as u32, value: Value::Varint(v) }, n + m))
                    } else if kind == KIND_BYTES {
                        let start: usize = pos + n + m;
                        if v > (end - start) as u64 {
                            return None;
                        }
                        let len: usize = v as usize;
                        let b = slice_bytes(buf, start, start + len);
                        assert(b@ =~= s.subrange((n + m) as int, (n + m + v) as int));
                        Some((Field { number: number as u32, value: Value::Bytes(b) }, n + m + len))
                    } else {
                        None
                    }
                },
            }
        },
    }
}

/// Reads `buf` as a run of fields that fills it exactly.
pub fn read_fields(buf: &[u8]) -> (r: Option<Vec<Field>>)
    ensures
        match r {
            Some(fields) => parse_fields(buf@) == Some(fields_view(fields@)),
            None => parse_fields(buf@) is None,
        },
{
    let mut fields: Vec<Field> = Vec::new();
    let mut pos: usize = 0;
    assert(buf@.skip(0) =~= buf@);
    assert(fields_view(fields@) =~= Seq::empty());
    while pos < buf.len()
        invariant
            pos <= buf@.len(),
            parse_fields(buf@) == match parse_fields(buf@.skip(pos as int)) {
                Some(rest) => Some(fields_view(fields@) + rest),
                None => None,
            },
        decreases buf@.len() - pos,
    {
        let ghost s = buf@.skip(pos as int);
        let ghost before = fields_view(fields@);
        match read_field(buf, pos) {
            None => {
                return None;
            },
            Some((f, n)) => {
                proof {
                    assert(s.skip(n as int) =~= buf@.skip(pos + n));
                    match parse_fields(s.skip(n as int)) {
                        Some(rest) => {
                            assert(before + (seq![f@] + rest) =~= (before + seq![f@]) + rest);
                        },
                        None => {},
                    }
                }
                fields.push(f);
                pos = pos + n;
                assert(fields_view(fields@) =~= before + seq![f@]);
            },
        }
    }
    assert(buf@.skip(pos as int) =~= Seq::<u8>::empty());
    assert(fields_view(fields@) + Seq::<FieldView>::empty() =~= fields_view(fields@));
    Some(fields)
}

/// The layout of a message: the value it starts from, how one field read
/// changes it, and the fields it is written as.
pub trait Layout: Sized {
    /// The message all of whose fields are zero or empty.
    spec fn start() -> Self;

    /// The message after reading the field `f`, or `None` where the layout
    /// has no such field or the field has the wrong kind of value.
    spec fn step(self, f: FieldView) -> Option<Self>;

    /// The fields of the message, in the order of writing.
    spec fn fields(self) -> Seq<FieldView>;
}

/// The message after reading the fields `fs` in order, starting from `acc`.
pub open spec fn fold_fields<M: Layout>(fs: Seq<FieldView>, acc: M) -> Option<M>
    decreases fs.len(),
{
    if fs.len() == 0 {
        Some(acc)
    } else {
        match acc.step(fs[0]) {
            Some(next) => fold_fields(fs.skip(1), next),
            None => None,
        }
    }
}

/// The bytes of a message.
pub open spec fn encoding<M: Layout>(m: M) -> Seq<u8> {
    encode_fields(m.fields())
}

/// The message that the bytes `s` hold, if they hold one.
pub open spec fn decoding<M: Layout>(s: Seq<u8>) -> Option<M> {
    match parse_fields(s) {
        Some(fs) => fold_fields(fs, M::start()),
        None => None,
    }
}

/// Reading two runs of fields is reading the first and then the second.
pub proof fn lemma_fold_concat<M: Layout>(a: Seq<FieldView>, b: Seq<FieldView>, acc: M)
    ensures
        fold_fields(a + b, acc) == match fold_fields(a, acc) {
            Some(mid) => fold_fields(b, mid),
            None => None,
        },
    decreases a.len(),
{
    if a.len() == 0 {
        assert(a + b =~= b);
    } else {
        assert((a + b)[0] == a[0]);
        assert((a + b).skip(1) =~= a.skip(1) + b);
        match acc.step(a[0]) {
            Some(next) => {
                lemma_fold_concat(a.skip(1), b, next);
            },
            None => {},
        }
    }
}

/// Reading a run of one field is one step.
pub proof fn lemma_fold_single<M: Layout>(f: FieldView, acc: M)
    ensures
        fold_fields(seq![f], acc) == acc.step(f),
{
    assert(seq![f].skip(1) =~= Seq::<FieldView>::empty());
    match acc.step(f) {
        Some(next) => {
            assert(fold_fields(Seq::<FieldView>::empty(), next) == Some(next));
        },
        None => {},
    }
}

/// A message whose fields can all be written is read back from its bytes
/// as soon as reading its fields gives it back.
pub proof fn lemma_decoding_encoding<M: Layout>(m: M)
    requires
        valid_fields(m.fields()),
        fold_fields(m.fields(), M::start()) == Some(m),
    ensures
        decoding::<M>(encoding(m)) == Some(m),
{
    lemma_parse_fields(m.fields());
}

/// Appending the bytes of a run after those of another is appending the
/// bytes of the two joined.
pub proof fn lemma_encode_fields_push(base: Seq<u8>, a: Seq<FieldView>, b: Seq<FieldView>)
    ensures
        base + encode_fields(a) + encode_fields(b) == base + encode_fields(a + b),
{
    lemma_encode_fields_concat(a, b);
    assert(base + encode_fields(a) + encode_fields(b) =~= base + (encode_fields(a)
        + encode_fields(b)));
}

/// Two runs of fields that can be written can be written joined.
pub proof fn lemma_valid_concat(a: Seq<FieldView>, b: Seq<FieldView>)
    requires
        valid_fields(a),
        valid_fields(b),
    ensures
        valid_fields(a + b),
{
    assert forall|i: int| 0 <= i < (a + b).len() implies valid_field(#[trigger] (a + b)[i]) by {
        if i < a.len() {
            assert((a + b)[i] == a[i]);
        } else {
            assert((a + b)[i] == b[i - a.len()]);
        }
    }
}

/// Reading on through one more run: where the fields so far lead from
/// `start` to `acc` and the run leads from `acc` to `next`, the fields
/// joined lead from `start` to `next`, and can be written if both can.
pub proof fn lemma_extend_run<M: Layout>(
    prefix: Seq<FieldView>,
    run: Seq<FieldView>,
    start: M,
    acc: M,
    next: M,
)
    requires
        fold_fields(prefix, start) == Some(acc),
        valid_fields(prefix),
        fold_fields(run, acc) == Some(next),
        valid_fields(run),
    ensures
        fold_fields(prefix + run, start) == Some(next),
        valid_fields(prefix + run),
{
    lemma_fold_concat(prefix, run, start);
    lemma_valid_concat(prefix, run);
}

/// Reading on through an integer field that is written only when not zero.
pub proof fn lemma_extend_opt_varint<M: Layout>(
    prefix: Seq<FieldView>,
    number: u32,
    v: u64,
    start: M,
    acc: M,
    next: M,
)
    requires
        fold_fields(prefix, start) == Some(acc),
        valid_fields(prefix),
        1 <= number <= MAX_FIELD_NUMBER,
        v != 0 ==> acc.step(FieldView { number, value: ValueView::Varint(v) }) == Some(next),
        v == 0 ==> next == acc,
    ensures
        fold_fields(prefix + opt_varint(number, v), start) == Some(next),
        valid_fields(prefix + opt_varint(number, v)),
{
    reveal(opt_varint);
    if v != 0 {
        lemma_fold_single(FieldView { number, value: ValueView::Varint(v) }, acc);
    }
    lemma_extend_run(prefix, opt_varint(number, v), start, acc, next);
}

/// Reading on through a bytes field that is written only when not empty.
pub proof fn lemma_extend_opt_bytes<M: Layout>(
    prefix: Seq<FieldView>,
    number: u32,
    b: Seq<u8>,
    start: M,
    acc: M,
    next: M,
)
    requires
        fold_fields(prefix, start) == Some(acc),
        valid_fields(prefix),
        1 <= number <= MAX_FIELD_NUMBER,
        b.len() <= u64::MAX,
        b.len() != 0 ==> acc.step(FieldView { number, value: ValueView::Bytes(b) }) == Some(next),
        b.len() == 0 ==> next == acc,
    ensures
        fold_fields(prefix + opt_bytes(number, b), start) == Some(next),
        valid_fields(prefix + opt_bytes(number, b)),
{
    reveal(opt_bytes);
    if b.len() != 0 {
        lemma_fold_single(FieldView { number, value: ValueView::Bytes(b) }, acc);
    }
    lemma_extend_run(prefix, opt_bytes(number, b), start, acc, next);
}

/// The empty run leads from any message to itself and can be written.
pub proof fn lemma_extend_start<M: Layout>(start: M)
    ensures
        fold_fields(Seq::<FieldView>::empty(), start) == Some(start),
        valid_fields(Seq::<FieldView>::empty()),
{
}

} // verus!
