//! Canonical byte form and content-derived identity of a schema.
//!
//! A schema's identity is the digest of a fixed, unambiguous serialization
//! of its full content. The layout is length-prefixed and field-ordered, so
//! the identity never depends on construction order, timestamps or anything
//! outside the declared content.

use vstd::prelude::*;

use crate::isa::le16;
use crate::schema::{
    opt_vaddr_view, GenesisRuleView, GlobalSlot, GlobalSlotView, Occurrences, OwnedSlotKind,
    Schema, SchemaView, TransitionRuleView, ValidatorAddr, ValidatorAddrView,
};

verus! {

/// What the digest of a byte string is: a pure function of the bytes alone.
pub uninterp spec fn sha256_of(data: Seq<u8>) -> Seq<u8>;

/// Relies on sha2's `Sha256`: returns the 32-byte SHA-256 digest of `data`,
/// the same on every call and every machine for the same input.
#[verifier::external_body]
fn sha256(data: &Vec<u8>) -> (r: [u8; 32])
    ensures
        r@ == sha256_of(data@),
{
    <sha2::Sha256 as sha2::Digest>::digest(data.as_slice()).into()
}

/// The four bytes of `x`, least significant first.
pub open spec fn le32(x: u32) -> Seq<u8> {
    seq![
        (x & 0xff) as u8,
        ((x >> 8) & 0xff) as u8,
        ((x >> 16) & 0xff) as u8,
        ((x >> 24) & 0xff) as u8,
    ]
}

/// The eight bytes of `x`, least significant first.
pub open spec fn le64(x: u64) -> Seq<u8> {
    seq![
        (x & 0xff) as u8,
        ((x >> 8) & 0xff) as u8,
        ((x >> 16) & 0xff) as u8,
        ((x >> 24) & 0xff) as u8,
        ((x >> 32) & 0xff) as u8,
        ((x >> 40) & 0xff) as u8,
        ((x >> 48) & 0xff) as u8,
        ((x >> 56) & 0xff) as u8,
    ]
}

/// Characters of a text, each as its scalar value in four bytes.
pub open spec fn canon_chars(s: Seq<char>) -> Seq<u8>
    decreases s.len(),
{
    if s.len() == 0 {
        Seq::empty()
    } else {
        le32(s.first() as u32) + canon_chars(s.drop_first())
    }
}

/// A text: its length, then its characters.
pub open spec fn canon_str(s: Seq<char>) -> Seq<u8> {
    le64(s.len() as u64) + canon_chars(s)
}

/// An occurrence constraint, as one tag byte.
pub open spec fn canon_occ(o: Occurrences) -> Seq<u8> {
    match o {
        Occurrences::Once => seq![1u8],
        Occurrences::OnceOrMore => seq![2u8],
    }
}

pub open spec fn canon_occ_entries(s: Seq<(u16, Occurrences)>) -> Seq<u8>
    decreases s.len(),
{
    if s.len() == 0 {
        Seq::empty()
    } else {
        le16(s.first().0) + canon_occ(s.first().1) + canon_occ_entries(s.drop_first())
    }
}

/// An occurrence table: its length, then its entries in table order.
pub open spec fn canon_occ_table(s: Seq<(u16, Occurrences)>) -> Seq<u8> {
    le64(s.len() as u64) + canon_occ_entries(s)
}

pub open spec fn canon_global_entries(s: Seq<(u16, GlobalSlotView)>) -> Seq<u8>
    decreases s.len(),
{
    if s.len() == 0 {
        Seq::empty()
    } else {
        le16(s.first().0) + s.first().1.sem_id + canon_occ(s.first().1.occ)
            + canon_global_entries(s.drop_first())
    }
}

/// The global-slot table: its length, then id, type identity and occurrence
/// of each slot.
pub open spec fn canon_global_table(s: Seq<(u16, GlobalSlotView)>) -> Seq<u8> {
    le64(s.len() as u64) + canon_global_entries(s)
}

/// An owned-slot value kind, as one tag byte.
pub open spec fn canon_owned_kind(k: OwnedSlotKind) -> Seq<u8> {
    match k {
        OwnedSlotKind::FungibleUnsigned64 => seq![1u8],
    }
}

pub open spec fn canon_owned_entries(s: Seq<(u16, OwnedSlotKind)>) -> Seq<u8>
    decreases s.len(),
{
    if s.len() == 0 {
        Seq::empty()
    } else {
        le16(s.first().0) + canon_owned_kind(s.first().1) + canon_owned_entries(s.drop_first())
    }
}

/// The owned-slot table: its length, then id and value kind of each slot.
pub open spec fn canon_owned_table(s: Seq<(u16, OwnedSlotKind)>) -> Seq<u8> {
    le64(s.len() as u64) + canon_owned_entries(s)
}

/// An optional validator address: a presence tag, then library identity and
/// entry offset.
pub open spec fn canon_validator(v: Option<ValidatorAddrView>) -> Seq<u8> {
    match v {
        None => seq![0u8],
        Some(a) => seq![1u8] + a.lib + le16(a.offset),
    }
}

/// The genesis rule: its two occurrence tables, then its validator.
pub open spec fn canon_genesis(g: GenesisRuleView) -> Seq<u8> {
    canon_occ_table(g.globals) + canon_occ_table(g.assignments) + canon_validator(g.validator)
}

/// One transition rule: inputs, assignments, validator.
pub open spec fn canon_transition(t: TransitionRuleView) -> Seq<u8> {
    canon_occ_table(t.inputs) + canon_occ_table(t.assignments) + canon_validator(t.validator)
}

pub open spec fn canon_trans_entries(s: Seq<(u16, TransitionRuleView)>) -> Seq<u8>
    decreases s.len(),
{
    if s.len() == 0 {
        Seq::empty()
    } else {
        le16(s.first().0) + canon_transition(s.first().1) + canon_trans_entries(s.drop_first())
    }
}

/// The transition table: its length, then kind id and rule of each entry.
pub open spec fn canon_trans_table(s: Seq<(u16, TransitionRuleView)>) -> Seq<u8> {
    le64(s.len() as u64) + canon_trans_entries(s)
}

/// The canonical byte form of a schema's full content.
pub open spec fn canon_schema(s: SchemaView) -> Seq<u8> {
    canon_str(s.name) + canon_str(s.developer) + canon_global_table(s.global_types)
        + canon_owned_table(s.owned_types) + canon_genesis(s.genesis)
        + canon_trans_table(s.transitions)
}

/// The content-derived identity of a schema.
pub open spec fn schema_id_of(s: SchemaView) -> Seq<u8> {
    sha256_of(canon_schema(s))
}

fn push_le16(out: &mut Vec<u8>, x: u16)
    ensures
        final(out)@ == old(out)@ + le16(x),
{
    out.push((x & 0xff) as u8);
    out.push(((x >> 8) & 0xff) as u8);
    assert(out@ =~= old(out)@ + le16(x));
}

fn push_le32(out: &mut Vec<u8>, x: u32)
    ensures
        final(out)@ == old(out)@ + le32(x),
{
    out.push((x & 0xff) as u8);
    out.push(((x >> 8) & 0xff) as u8);
    out.push(((x >> 16) & 0xff) as u8);
    out.push(((x >> 24) & 0xff) as u8);
    assert(out@ =~= old(out)@ + le32(x));
}

fn push_le64(out: &mut Vec<u8>, x: u64)
    ensures
        final(out)@ == old(out)@ + le64(x),
{
    out.push((x & 0xff) as u8);
    out.push(((x >> 8) & 0xff) as u8);
    out.push(((x >> 16) & 0xff) as u8);
    out.push(((x >> 24) & 0xff) as u8);
    out.push(((x >> 32) & 0xff) as u8);
    out.push(((x >> 40) & 0xff) as u8);
    out.push(((x >> 48) & 0xff) as u8);
    out.push(((x >> 56) & 0xff) as u8);
    assert(out@ =~= old(out)@ + le64(x));
}

fn push_bytes32(out: &mut Vec<u8>, b: &[u8; 32])
    ensures
        final(out)@ == old(out)@ + b@,
{
    let mut i: usize = 0;
    while i < 32
        invariant
            i <= 32,
            out@ == old(out)@ + b@.take(i as int),
        decreases 32 - i,
    {
        out.push(b[i]);
        assert(out@ =~= old(out)@ + b@.take(i as int + 1));
        i += 1;
    }
    assert(b@.take(32) =~= b@);
}

fn write_str(out: &mut Vec<u8>, s: &str)
    ensures
        final(out)@ == old(out)@ + canon_str(s@),
{
    let n = s.unicode_len();
    push_le64(out, n as u64);
    let mut i: usize = 0;
    assert(s@.skip(0) =~= s@);
    while i < n
        invariant
            i <= n,
            n == s@.len(),
            out@ + canon_chars(s@.skip(i as int)) == old(out)@ + canon_str(s@),
        decreases n - i,
    {
        let ghost prev = out@;
        proof {
            assert(s@.skip(i as int).first() == s@[i as int]);
            assert(s@.skip(i as int).drop_first() =~= s@.skip(i as int + 1));
        }
        let c = s.get_char(i);
        push_le32(out, c as u32);
        proof {
            assert(out@ + canon_chars(s@.skip(i as int + 1)) =~= prev + canon_chars(
                s@.skip(i as int),
            ));
        }
        i += 1;
    }
    assert(s@.skip(n as int) =~= Seq::<char>::empty());
}

fn write_occ_table(out: &mut Vec<u8>, m: &Vec<(u16, Occurrences)>)
    ensures
        final(out)@ == old(out)@ + canon_occ_table(m@),
{
    push_le64(out, m.len() as u64);
    let n = m.len();
    let mut i: usize = 0;
    assert(m@.skip(0) =~= m@);
    while i < n
        invariant
            i <= n,
            n == m@.len(),
            out@ + canon_occ_entries(m@.skip(i as int)) == old(out)@ + canon_occ_table(m@),
        decreases n - i,
    {
        let ghost prev = out@;
        proof {
            assert(m@.skip(i as int).first() == m@[i as int]);
            assert(m@.skip(i as int).drop_first() =~= m@.skip(i as int + 1));
        }
        let e = m[i];
        push_le16(out, e.0);
        match e.1 {
            Occurrences::Once => out.push(1u8),
            Occurrences::OnceOrMore => out.push(2u8),
        }
        proof {
            assert(out@ =~= prev + le16(e.0) + canon_occ(e.1));
            assert(out@ + canon_occ_entries(m@.skip(i as int + 1)) =~= prev + canon_occ_entries(
                m@.skip(i as int),
            ));
        }
        i += 1;
    }
    assert(m@.skip(n as int) =~= Seq::<(u16, Occurrences)>::empty());
}

fn write_global_table(out: &mut Vec<u8>, m: &Vec<(u16, GlobalSlot)>)
    ensures
        final(out)@ == old(out)@ + canon_global_table(
            m@.map_values(|p: (u16, GlobalSlot)| (p.0, p.1@)),
        ),
{
    let ghost mv = m@.map_values(|p: (u16, GlobalSlot)| (p.0, p.1@));
    push_le64(out, m.len() as u64);
    let n = m.len();
    let mut i: usize = 0;
    assert(mv.skip(0) =~= mv);
    while i < n
        invariant
            i <= n,
            n == m@.len(),
            mv == m@.map_values(|p: (u16, GlobalSlot)| (p.0, p.1@)),
            mv.len() == n,
            out@ + canon_global_entries(mv.skip(i as int)) == old(out)@ + canon_global_table(mv),
        decreases n - i,
    {
        let ghost prev = out@;
        proof {
            assert(mv.skip(i as int).first() == mv[i as int]);
            assert(mv.skip(i as int).drop_first() =~= mv.skip(i as int + 1));
            assert(mv[i as int] == (m@[i as int].0, m@[i as int].1@));
        }
        let e = m[i];
        push_le16(out, e.0);
        push_bytes32(out, &e.1.sem_id);
        match e.1.occ {
            Occurrences::Once => out.push(1u8),
            Occurrences::OnceOrMore => out.push(2u8),
        }
        proof {
            assert(out@ =~= prev + le16(mv[i as int].0) + mv[i as int].1.sem_id + canon_occ(
                mv[i as int].1.occ,
            ));
            assert(out@ + canon_global_entries(mv.skip(i as int + 1)) =~= prev
                + canon_global_entries(mv.skip(i as int)));
        }
        i += 1;
    }
    assert(mv.skip(n as int) =~= Seq::<(u16, GlobalSlotView)>::empty());
}

fn write_owned_table(out: &mut Vec<u8>, m: &Vec<(u16, OwnedSlotKind)>)
    ensures
        final(out)@ == old(out)@ + canon_owned_table(m@),
{
    push_le64(out, m.len() as u64);
    let n = m.len();
    let mut i: usize = 0;
    assert(m@.skip(0) =~= m@);
    while i < n
        invariant
            i <= n,
            n == m@.len(),
            out@ + canon_owned_entries(m@.skip(i as int)) == old(out)@ + canon_owned_table(m@),
        decreases n - i,
    {
        let ghost prev = out@;
        proof {
            assert(m@.skip(i as int).first() == m@[i as int]);
            assert(m@.skip(i as int).drop_first() =~= m@.skip(i as int + 1));
        }
        let e = m[i];
        push_le16(out, e.0);
        match e.1 {
            OwnedSlotKind::FungibleUnsigned64 => out.push(1u8),
        }
        proof {
            assert(out@ =~= prev + le16(e.0) + canon_owned_kind(e.1));
            assert(out@ + canon_owned_entries(m@.skip(i as int + 1)) =~= prev
                + canon_owned_entries(m@.skip(i as int)));
        }
        i += 1;
    }
    assert(m@.skip(n as int) =~= Seq::<(u16, OwnedSlotKind)>::empty());
}

fn write_validator(out: &mut Vec<u8>, v: &Option<ValidatorAddr>)
    ensures
        final(out)@ == old(out)@ + canon_validator(opt_vaddr_view(*v)),
{
    match v {
        None => {
            out.push(0u8);
            assert(out@ =~= old(out)@ + canon_validator(opt_vaddr_view(*v)));
        }
        Some(a) => {
            out.push(1u8);
            push_bytes32(out, &a.lib);
            push_le16(out, a.offset);
            assert(out@ =~= old(out)@ + canon_validator(opt_vaddr_view(*v)));
        }
    }
}

fn write_transition(out: &mut Vec<u8>, t: &crate::schema::TransitionRule)
    ensures
        final(out)@ == old(out)@ + canon_transition(t@),
{
    write_occ_table(out, &t.inputs);
    write_occ_table(out, &t.assignments);
    write_validator(out, &t.validator);
    assert(out@ =~= old(out)@ + canon_transition(t@));
}

fn write_trans_table(out: &mut Vec<u8>, m: &Vec<(u16, crate::schema::TransitionRule)>)
    ensures
        final(out)@ == old(out)@ + canon_trans_table(
            m@.map_values(|p: (u16, crate::schema::TransitionRule)| (p.0, p.1@)),
        ),
{
    let ghost mv = m@.map_values(|p: (u16, crate::schema::TransitionRule)| (p.0, p.1@));
    push_le64(out, m.len() as u64);
    let n = m.len();
    let mut i: usize = 0;
    assert(mv.skip(0) =~= mv);
    while i < n
        invariant
            i <= n,
            n == m@.len(),
            mv == m@.map_values(|p: (u16, crate::schema::TransitionRule)| (p.0, p.1@)),
            mv.len() == n,
            out@ + canon_trans_entries(mv.skip(i as int)) == old(out)@ + canon_trans_table(mv),
        decreases n - i,
    {
        let ghost prev = out@;
        proof {
            assert(mv.skip(i as int).first() == mv[i as int]);
            assert(mv.skip(i as int).drop_first() =~= mv.skip(i as int + 1));
            assert(mv[i as int] == (m@[i as int].0, m@[i as int].1@));
        }
        let e = &m[i];
        push_le16(out, e.0);
        write_transition(out, &e.1);
        proof {
            assert(out@ =~= prev + le16(mv[i as int].0) + canon_transition(mv[i as int].1));
            assert(out@ + canon_trans_entries(mv.skip(i as int + 1)) =~= prev
                + canon_trans_entries(mv.skip(i as int)));
        }
        i += 1;
    }
    assert(mv.skip(n as int) =~= Seq::<(u16, TransitionRuleView)>::empty());
}

/// The canonical byte form of a schema.
pub fn canonical_bytes(s: &Schema) -> (r: Vec<u8>)
    ensures
        r@ == canon_schema(s@),
{
    let mut out: Vec<u8> = Vec::new();
    write_str(&mut out, s.name.as_str());
    write_str(&mut out, s.developer.as_str());
    write_global_table(&mut out, &s.global_types);
    write_owned_table(&mut out, &s.owned_types);
    write_occ_table(&mut out, &s.genesis.globals);
    write_occ_table(&mut out, &s.genesis.assignments);
    write_validator(&mut out, &s.genesis.validator);
    write_trans_table(&mut out, &s.transitions);
    assert(out@ =~= canon_schema(s@));
    out
}

impl Schema {
    /// The deterministic, content-derived identity of the schema: the digest
    /// of its canonical byte form.
    pub fn schema_id(&self) -> (r: [u8; 32])
        ensures
            r@ == schema_id_of(self@),
    {
        let bytes = canonical_bytes(self);
        sha256(&bytes)
    }
}

/// Content addressing of schemas: two schemas with equal declared content —
/// name, developer, slot tables, genesis and transition rules, validator
/// wiring — have equal identities, however and whenever each was built.
pub proof fn lemma_schema_content_addressed(a: SchemaView, b: SchemaView)
    requires
        a.name == b.name,
        a.developer == b.developer,
        a.global_types == b.global_types,
        a.owned_types == b.owned_types,
        a.genesis == b.genesis,
        a.transitions == b.transitions,
    ensures
        schema_id_of(a) == schema_id_of(b),
{
    assert(a =~= b);
}

} // verus!
