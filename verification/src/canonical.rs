//! A canonical byte encoding of structured values. Every item is framed by
//! its length and every optional item is tagged. A framed item is read back
//! from the front of any encoding that starts with it (`lemma_frame_unique`,
//! `lemma_text_frame_unique`).
use vstd::prelude::*;
use vstd::utf8::encode_utf8;
use crate::resource::{ResourceRef, ResourceRefView, lemma_type_label_round_trip, type_label};

verus! {

/// ASCII decimal digits of `n`.
pub open spec fn decimal_bytes(n: nat) -> Seq<u8>
    decreases n,
{
    if n < 10 {
        seq![(48 + n) as u8]
    } else {
        decimal_bytes(n / 10).push((48 + n % 10) as u8)
    }
}

/// `len:bytes`: the byte count in decimal, a colon, then the bytes.
pub open spec fn frame(b: Seq<u8>) -> Seq<u8> {
    decimal_bytes(b.len()) + seq![58u8] + b
}

/// A text framed as its UTF-8 bytes.
pub open spec fn text_frame(s: Seq<char>) -> Seq<u8> {
    frame(encode_utf8(s))
}

/// A number framed as its decimal digits.
pub open spec fn number_frame(n: u64) -> Seq<u8> {
    frame(decimal_bytes(n as nat))
}

/// Tag of an absent optional item.
pub open spec fn absent() -> Seq<u8> {
    seq![126u8]
}

/// Tag and encoding of a present optional item.
pub open spec fn present(b: Seq<u8>) -> Seq<u8> {
    seq![61u8] + b
}

/// A reference: its type's name, then its id.
pub open spec fn ref_frame(r: ResourceRefView) -> Seq<u8> {
    text_frame(type_label(r.resource_type)@) + text_frame(r.id)
}

pub open spec fn opt_ref_frame(r: Option<ResourceRefView>) -> Seq<u8> {
    match r {
        Some(x) => present(ref_frame(x)),
        None => absent(),
    }
}

pub open spec fn opt_text_frame(s: Option<Seq<char>>) -> Seq<u8> {
    match s {
        Some(x) => present(text_frame(x)),
        None => absent(),
    }
}

pub open spec fn opt_number_frame(n: Option<u64>) -> Seq<u8> {
    match n {
        Some(x) => present(number_frame(x)),
        None => absent(),
    }
}

/// Every byte of a decimal is an ASCII digit, and there is at least one.
pub proof fn lemma_decimal_digits(n: nat)
    ensures
        decimal_bytes(n).len() >= 1,
        forall|i: int| 0 <= i < decimal_bytes(n).len() ==> 48 <= #[trigger] decimal_bytes(n)[i] <= 57,
        n < 10 <==> decimal_bytes(n).len() == 1,
    decreases n,
{
    if n >= 10 {
        lemma_decimal_digits(n / 10);
    }
}

/// Distinct numbers have distinct decimals.
pub proof fn lemma_decimal_injective(m: nat, n: nat)
    requires
        decimal_bytes(m) == decimal_bytes(n),
    ensures
        m == n,
    decreases m,
{
    lemma_decimal_digits(m);
    lemma_decimal_digits(n);
    if m >= 10 && n >= 10 {
        let dm = decimal_bytes(m);
        assert(decimal_bytes(m / 10) =~= dm.drop_last());
        assert(decimal_bytes(n / 10) =~= decimal_bytes(n).drop_last());
        lemma_decimal_injective(m / 10, n / 10);
        assert(dm.last() == (48 + m % 10) as u8);
        assert(decimal_bytes(n).last() == (48 + n % 10) as u8);
        assert(((48 + m % 10) as u8) as int == 48 + m % 10);
        assert(m % 10 == n % 10);
        assert(m / 10 == n / 10);
        vstd::arithmetic::div_mod::lemma_fundamental_div_mod(m as int, 10);
        vstd::arithmetic::div_mod::lemma_fundamental_div_mod(n as int, 10);
        assert(m == 10 * (m / 10) + m % 10);
        assert(n == 10 * (n / 10) + n % 10);
        assert(m == n);
    } else if m < 10 && n < 10 {
        assert(decimal_bytes(m)[0] == decimal_bytes(n)[0]);
        assert(decimal_bytes(m)[0] == (48 + m) as u8);
        assert(decimal_bytes(n)[0] == (48 + n) as u8);
        assert(((48 + m) as u8) as int == 48 + m);
        assert(((48 + n) as u8) as int == 48 + n);
        assert(m == n);
    } else {
        assert(decimal_bytes(m).len() != decimal_bytes(n).len());
    }
}

/// The framed item at the front of an encoding is determined by it: equal
/// encodings that start with framed items start with the same item and
/// continue alike.
pub proof fn lemma_frame_unique(a: Seq<u8>, x: Seq<u8>, b: Seq<u8>, y: Seq<u8>)
    requires
        frame(a) + x == frame(b) + y,
    ensures
        a == b,
        x == y,
{
    let da = decimal_bytes(a.len());
    let db = decimal_bytes(b.len());
    let s = frame(a) + x;
    lemma_decimal_digits(a.len());
    lemma_decimal_digits(b.len());
    assert(s[da.len() as int] == 58u8);
    assert((frame(b) + y)[db.len() as int] == 58u8);
    if da.len() < db.len() {
        assert((frame(b) + y)[da.len() as int] == db[da.len() as int]);
        assert(false);
    }
    if db.len() < da.len() {
        assert(s[db.len() as int] == da[db.len() as int]);
        assert(false);
    }
    assert(da =~= s.subrange(0, da.len() as int));
    assert(db =~= (frame(b) + y).subrange(0, db.len() as int));
    lemma_decimal_injective(a.len(), b.len());
    let start: int = da.len() as int + 1;
    assert(a =~= s.subrange(start, start + a.len() as int));
    assert(b =~= (frame(b) + y).subrange(start, start + b.len() as int));
    assert(x =~= s.subrange(start + a.len() as int, s.len() as int));
    assert(y =~= (frame(b) + y).subrange(start + b.len() as int, s.len() as int));
}

/// A framed text at the front of an encoding is determined by it.
pub proof fn lemma_text_frame_unique(a: Seq<char>, x: Seq<u8>, b: Seq<char>, y: Seq<u8>)
    requires
        text_frame(a) + x == text_frame(b) + y,
    ensures
        a == b,
        x == y,
{
    lemma_frame_unique(encode_utf8(a), x, encode_utf8(b), y);
    vstd::utf8::encode_utf8_decode_utf8(a);
    vstd::utf8::encode_utf8_decode_utf8(b);
}

/// A framed number at the front of an encoding is determined by it.
pub proof fn lemma_number_frame_unique(a: u64, x: Seq<u8>, b: u64, y: Seq<u8>)
    requires
        number_frame(a) + x == number_frame(b) + y,
    ensures
        a == b,
        x == y,
{
    lemma_frame_unique(decimal_bytes(a as nat), x, decimal_bytes(b as nat), y);
    lemma_decimal_injective(a as nat, b as nat);
}

/// A present item and an absent one never start equal encodings; the tags
/// of two present items are followed by equal bytes.
pub proof fn lemma_tag_unique(pa: Option<Seq<u8>>, x: Seq<u8>, pb: Option<Seq<u8>>, y: Seq<u8>)
    requires
        (match pa {
            Some(p) => present(p),
            None => absent(),
        }) + x == (match pb {
            Some(q) => present(q),
            None => absent(),
        }) + y,
    ensures
        pa is Some == pb is Some,
        pa is Some ==> pa->0 + x == pb->0 + y,
        pa is None ==> x == y,
{
    let l = (match pa {
        Some(p) => present(p),
        None => absent(),
    }) + x;
    let r = (match pb {
        Some(q) => present(q),
        None => absent(),
    }) + y;
    assert(l[0] == r[0]);
    match (pa, pb) {
        (Some(p), Some(q)) => {
            assert(p + x =~= l.drop_first());
            assert(q + y =~= r.drop_first());
        },
        (None, None) => {
            assert(x =~= l.drop_first());
            assert(y =~= r.drop_first());
        },
        _ => {},
    }
}

/// A reference at the front of an encoding is determined by it.
pub proof fn lemma_ref_frame_unique(a: ResourceRefView, x: Seq<u8>, b: ResourceRefView, y: Seq<u8>)
    requires
        ref_frame(a) + x == ref_frame(b) + y,
    ensures
        a == b,
        x == y,
{
    let la = text_frame(type_label(a.resource_type)@);
    let lb = text_frame(type_label(b.resource_type)@);
    vstd::seq_lib::lemma_concat_associative(la, text_frame(a.id), x);
    vstd::seq_lib::lemma_concat_associative(lb, text_frame(b.id), y);
    lemma_text_frame_unique(type_label(a.resource_type)@, text_frame(a.id) + x, type_label(b.resource_type)@, text_frame(b.id) + y);
    lemma_text_frame_unique(a.id, x, b.id, y);
    lemma_type_label_round_trip(a.resource_type);
    lemma_type_label_round_trip(b.resource_type);
}

/// An optional reference at the front of an encoding is determined by it.
pub proof fn lemma_opt_ref_frame_unique(a: Option<ResourceRefView>, x: Seq<u8>, b: Option<ResourceRefView>, y: Seq<u8>)
    requires
        opt_ref_frame(a) + x == opt_ref_frame(b) + y,
    ensures
        a == b,
        x == y,
{
    let pa = match a {
        Some(r) => Some(ref_frame(r)),
        None => None,
    };
    let pb = match b {
        Some(r) => Some(ref_frame(r)),
        None => None,
    };
    lemma_tag_unique(pa, x, pb, y);
    if a is Some {
        lemma_ref_frame_unique(a->0, x, b->0, y);
    }
}

/// An optional text at the front of an encoding is determined by it.
pub proof fn lemma_opt_text_frame_unique(a: Option<Seq<char>>, x: Seq<u8>, b: Option<Seq<char>>, y: Seq<u8>)
    requires
        opt_text_frame(a) + x == opt_text_frame(b) + y,
    ensures
        a == b,
        x == y,
{
    let pa = match a {
        Some(t) => Some(text_frame(t)),
        None => None,
    };
    let pb = match b {
        Some(t) => Some(text_frame(t)),
        None => None,
    };
    lemma_tag_unique(pa, x, pb, y);
    if a is Some {
        lemma_text_frame_unique(a->0, x, b->0, y);
    }
}

/// An optional number at the front of an encoding is determined by it.
pub proof fn lemma_opt_number_frame_unique(a: Option<u64>, x: Seq<u8>, b: Option<u64>, y: Seq<u8>)
    requires
        opt_number_frame(a) + x == opt_number_frame(b) + y,
    ensures
        a == b,
        x == y,
{
    let pa = match a {
        Some(t) => Some(number_frame(t)),
        None => None,
    };
    let pb = match b {
        Some(t) => Some(number_frame(t)),
        None => None,
    };
    lemma_tag_unique(pa, x, pb, y);
    if a is Some {
        lemma_number_frame_unique(a->0, x, b->0, y);
    }
}

fn push_decimal_bytes(buf: &mut Vec<u8>, n: u64)
    ensures
        final(buf)@ == old(buf)@ + decimal_bytes(n as nat),
    decreases n,
{
    if n >= 10 {
        push_decimal_bytes(buf, n / 10);
    }
    let d: u8 = (n % 10) as u8;
    buf.push(48 + d);
    proof {
        if n >= 10 {
            assert(old(buf)@ + decimal_bytes(n as nat) =~= (old(buf)@ + decimal_bytes((n / 10) as nat)).push(
                (48 + d) as u8,
            ));
        } else {
            assert(old(buf)@ + decimal_bytes(n as nat) =~= old(buf)@.push((48 + d) as u8));
        }
    }
}

/// Appends `bytes` framed by their length.
pub fn push_frame(buf: &mut Vec<u8>, bytes: Vec<u8>)
    ensures
        final(buf)@ == old(buf)@ + frame(bytes@),
{
    let n = bytes.len();
    push_decimal_bytes(buf, n as u64);
    buf.push(58u8);
    let mut b = bytes;
    let ghost before = buf@;
    buf.append(&mut b);
    proof {
        assert(buf@ =~= old(buf)@ + frame(bytes@));
    }
}

pub fn push_text(buf: &mut Vec<u8>, s: &str)
    ensures
        final(buf)@ == old(buf)@ + text_frame(s@),
{
    push_frame(buf, s.as_bytes_vec());
}

pub fn push_number(buf: &mut Vec<u8>, n: u64)
    ensures
        final(buf)@ == old(buf)@ + number_frame(n),
{
    let mut digits: Vec<u8> = Vec::new();
    push_decimal_bytes(&mut digits, n);
    proof {
        assert(digits@ =~= decimal_bytes(n as nat));
    }
    push_frame(buf, digits);
}

pub fn push_ref(buf: &mut Vec<u8>, r: &ResourceRef)
    ensures
        final(buf)@ == old(buf)@ + ref_frame(r@),
{
    push_text(buf, r.resource_type.label());
    push_text(buf, r.id.as_str());
    proof {
        assert(buf@ =~= old(buf)@ + ref_frame(r@));
    }
}

fn push_absent(buf: &mut Vec<u8>)
    ensures
        final(buf)@ == old(buf)@ + absent(),
{
    buf.push(126u8);
    proof {
        assert(buf@ =~= old(buf)@ + absent());
    }
}

fn push_present_tag(buf: &mut Vec<u8>)
    ensures
        final(buf)@ == old(buf)@ + seq![61u8],
{
    buf.push(61u8);
    proof {
        assert(buf@ =~= old(buf)@ + seq![61u8]);
    }
}

pub fn push_opt_ref(buf: &mut Vec<u8>, r: &Option<ResourceRef>)
    ensures
        final(buf)@ == old(buf)@ + opt_ref_frame(crate::resource::opt_ref_view(*r)),
{
    match r {
        Some(x) => {
            push_present_tag(buf);
            push_ref(buf, x);
            proof {
                assert(buf@ =~= old(buf)@ + present(ref_frame(x@)));
            }
        },
        None => push_absent(buf),
    }
}

pub fn push_opt_text(buf: &mut Vec<u8>, s: &Option<String>)
    ensures
        final(buf)@ == old(buf)@ + opt_text_frame(crate::resource::opt_text_view(*s)),
{
    match s {
        Some(x) => {
            push_present_tag(buf);
            push_text(buf, x.as_str());
            proof {
                assert(buf@ =~= old(buf)@ + present(text_frame(x@)));
            }
        },
        None => push_absent(buf),
    }
}

pub fn push_opt_number(buf: &mut Vec<u8>, n: Option<u64>)
    ensures
        final(buf)@ == old(buf)@ + opt_number_frame(n),
{
    match n {
        Some(x) => {
            push_present_tag(buf);
            push_number(buf, x);
            proof {
                assert(buf@ =~= old(buf)@ + present(number_frame(x)));
            }
        },
        None => push_absent(buf),
    }
}

} // verus!
